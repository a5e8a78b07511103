//! Type-erased owned values and the type-identity model.
//!
//! A stored value's concrete type is hidden behind `std`'s `Any` interface;
//! what remains visible of it is its 64-bit type identity. The identity is
//! modelled by the opaque spec function [`type_id_of`], and every trusted
//! operation below is specified against that model: erasing a value of type
//! `T` yields an erased value whose identity is `T`'s, and recovery succeeds
//! exactly when the queried type's identity matches the hidden one.
//!
//! The model takes the type identity as an unambiguous proxy for the concrete
//! type within one running process: two type parameters map to equal
//! identities exactly when they denote the same concrete type.

use vstd::prelude::*;

verus! {

use core::any::Any;
use core::any::TypeId;
use core::hash::Hash;
use vstd::pervasive::arbitrary;

/// The 64-bit identity of the concrete type `T` within the running process.
///
/// Nothing is known of its value; it is an unspecified function of the type
/// parameter alone, so equal type parameters give equal identities. Drawing
/// the unspecified value at the pair type makes it depend on `T`, and keeping
/// the definition closed keeps it opaque. It serves only as the mathematical
/// key under which values of `T` are stored.
pub closed spec fn type_id_of<T>() -> u64 {
    arbitrary::<(T, u64)>().1
}

/// The value of type `T` hidden in an erased value.
///
/// Nothing is known of it beyond what the trusted operations state: erasing a
/// value of type `T` makes it that value, and recovery at type `T` returns
/// it. Drawing an unspecified function at the spec-function type makes the
/// result depend on the erased value and on `T`, and keeping the definition
/// closed keeps it opaque. For an erased value whose hidden type is not `T`
/// it is meaningless, and no operation speaks of it then.
pub closed spec fn erased_val<T>(e: ErasedAny) -> T {
    arbitrary::<spec_fn(ErasedAny) -> T>()(e)
}

/// As [`erased_val`], for a thread-shareable erased value.
pub closed spec fn erased_val_sync<T>(e: ErasedSync) -> T {
    arbitrary::<spec_fn(ErasedSync) -> T>()(e)
}

/// The duplication capability bundle for the thread-local store variants: a
/// value can be stored in a duplicable store when it is owned, duplicable and
/// free of borrowed data. Every such concrete type satisfies the bundle
/// through the blanket implementation; no separate opt-in is needed.
pub trait CloneableAny: Clone + 'static {

}

impl<T: Clone + 'static> CloneableAny for T {

}

/// The duplication capability bundle for the thread-shareable store variants:
/// as [`CloneableAny`], with the value additionally safe to share across
/// threads. Granted to every such concrete type by the blanket implementation.
pub trait CloneableAnySync: Clone + Send + Sync + 'static {

}

impl<T: Clone + Send + Sync + 'static> CloneableAnySync for T {

}

/// An owned value whose concrete type is erased.
///
/// Trusted declaration: the value is held behind `std`'s `Any` interface,
/// beside an optional duplication routine installed when the value was erased
/// from a duplicable type. Verus sees the type only through [`erased_id`] and
/// [`erased_dup`] and the trusted operations below.
#[verifier::external_body]
#[derive(Debug)]
pub struct ErasedAny {
    value: Box<dyn Any>,
    dup: Option<fn(&ErasedAny) -> ErasedAny>,
}

/// The type identity of the concrete value hidden in an erased value.
pub uninterp spec fn erased_id(e: ErasedAny) -> u64;

/// Whether an erased value carries a duplication routine.
pub uninterp spec fn erased_dup(e: ErasedAny) -> bool;

/// Whether `copy` hides a duplicate of `orig`'s hidden value: a value of the
/// same concrete type, produced by cloning it. Equality of the two hidden
/// values then holds whenever the type's own duplication yields an equal
/// value, which no contract can promise of an arbitrary duplicable type.
pub uninterp spec fn erased_duplicates(copy: ErasedAny, orig: ErasedAny) -> bool;

/// Relies on `Box::new` and the coercion to `Box<dyn Any>`: the erased value
/// hides exactly the given value, so its identity is `T`'s.
#[verifier::external_body]
pub(crate) fn erase<T: 'static>(v: T) -> (r: ErasedAny)
    ensures
        erased_id(r) == type_id_of::<T>(),
        erased_val::<T>(r) == v,
{
    ErasedAny { value: Box::new(v), dup: None }
}

/// Relies on `<dyn Any>::downcast_ref` and `T::clone`: the duplication
/// routine that [`erase_dup`] installs beside a value of type `T`. No
/// verified code calls it by name; [`duplicate_erased`] reaches it through the
/// stored routine, and only on the erased value it was installed beside.
#[verifier::external_body]
fn dup_routine<T: CloneableAny>(e: &ErasedAny) -> (r: ErasedAny)
    requires
        erased_id(*e) == type_id_of::<T>(),
        erased_dup(*e),
    ensures
        erased_id(r) == erased_id(*e),
        erased_dup(r),
        erased_duplicates(r, *e),
{
    ErasedAny {
        value: Box::new((&*e.value).downcast_ref::<T>().unwrap().clone()),
        dup: e.dup,
    }
}

/// Relies on `Box::new`, the coercion to `Box<dyn Any>`, and `T::clone`: as
/// [`erase`], and the installed routine duplicates the hidden value by
/// recovering it as `T` and cloning it, so the result hides a `T` again.
#[verifier::external_body]
pub(crate) fn erase_dup<T: CloneableAny>(v: T) -> (r: ErasedAny)
    ensures
        erased_id(r) == type_id_of::<T>(),
        erased_dup(r),
        erased_val::<T>(r) == v,
{
    ErasedAny { value: Box::new(v), dup: Some(dup_routine::<T>) }
}

/// Relies on `Box<dyn Any>::downcast`: it recovers the hidden value as `T`
/// exactly when the hidden type is `T`, which within one process is exactly
/// when the identities match.
#[verifier::external_body]
pub(crate) fn recover<T: 'static>(e: ErasedAny) -> (r: Option<T>)
    ensures
        r is Some <==> erased_id(e) == type_id_of::<T>(),
        r matches Some(x) ==> x == erased_val::<T>(e),
{
    match e.value.downcast::<T>() {
        Ok(b) => Some(*b),
        Err(_) => None,
    }
}

/// Relies on `<dyn Any>::downcast_ref`: it borrows the hidden value as `T`
/// exactly when the hidden type is `T`, which within one process is exactly
/// when the identities match.
#[verifier::external_body]
pub(crate) fn recover_ref<'a, T: 'static>(e: &'a ErasedAny) -> (r: Option<&'a T>)
    ensures
        r is Some <==> erased_id(*e) == type_id_of::<T>(),
        r matches Some(x) ==> *x == erased_val::<T>(*e),
{
    (&*e.value).downcast_ref::<T>()
}

/// Relies on `<dyn Any>::downcast_mut`: it borrows the hidden value mutably as
/// `T` exactly when the hidden type is `T`. Whatever the caller writes through
/// the borrow is again a `T`, so the identity and the duplication routine of
/// the erased value are unchanged; on a failed match nothing is touched.
#[verifier::external_body]
pub(crate) fn recover_mut<'a, T: 'static>(e: &'a mut ErasedAny) -> (r: Option<&'a mut T>)
    ensures
        r is Some <==> erased_id(*old(e)) == type_id_of::<T>(),
        erased_id(*final(e)) == erased_id(*old(e)),
        erased_dup(*final(e)) == erased_dup(*old(e)),
        r is None ==> *final(e) == *old(e),
        r matches Some(x) ==> *x == erased_val::<T>(*old(e)),
        r matches Some(x) ==> erased_val::<T>(*final(e)) == *final(x),
{
    (&mut *e.value).downcast_mut::<T>()
}

/// Relies on `Option::is_some`: whether a duplication routine is installed.
#[verifier::external_body]
pub(crate) fn erased_has_dup(e: &ErasedAny) -> (r: bool)
    ensures
        r == erased_dup(*e),
{
    e.dup.is_some()
}

/// Relies on the installed duplication routine, which clones the hidden value:
/// the copy hides an independently owned value of the same concrete type and
/// carries the routine onward.
#[verifier::external_body]
pub(crate) fn duplicate_erased(e: &ErasedAny) -> (r: ErasedAny)
    requires
        erased_dup(*e),
    ensures
        erased_id(r) == erased_id(*e),
        erased_dup(r),
        erased_duplicates(r, *e),
{
    (e.dup.unwrap())(e)
}

/// Relies on `TypeId::of` and its `Hash` implementation, which delivers a
/// type's well-distributed 64-bit identity value through the single 64-bit
/// write; the [`crate::hasher::IdHasher`] keeps that value unchanged. Both
/// are functions of the type parameter alone, so within one running process
/// every call for the same `T` returns the same 64-bit identity.
#[verifier::external_body]
pub(crate) fn runtime_id<T: 'static>() -> (r: u64)
    ensures
        r == type_id_of::<T>(),
{
    let mut h = crate::hasher::IdHasher::new();
    TypeId::of::<T>().hash(&mut h);
    h.finish()
}

/// An owned, thread-shareable value whose concrete type is erased.
///
/// Trusted declaration: as [`ErasedAny`], with the hidden value additionally
/// safe to send across and share between threads, so that a store of such
/// values is itself thread-shareable.
#[verifier::external_body]
#[derive(Debug)]
pub struct ErasedSync {
    value: Box<dyn Any + Send + Sync>,
    dup: Option<fn(&ErasedSync) -> ErasedSync>,
}

/// The type identity of the concrete value hidden in a thread-shareable
/// erased value.
pub uninterp spec fn erased_id_sync(e: ErasedSync) -> u64;

/// Whether a thread-shareable erased value carries a duplication routine.
pub uninterp spec fn erased_dup_sync(e: ErasedSync) -> bool;

/// As [`erased_duplicates`], for thread-shareable erased values.
pub uninterp spec fn erased_duplicates_sync(copy: ErasedSync, orig: ErasedSync) -> bool;

/// Relies on `Box::new` and the coercion to `Box<dyn Any + Send + Sync>`: the
/// erased value hides exactly the given value, so its identity is `T`'s.
#[verifier::external_body]
pub(crate) fn erase_sync<T: 'static + Send + Sync>(v: T) -> (r: ErasedSync)
    ensures
        erased_id_sync(r) == type_id_of::<T>(),
        erased_val_sync::<T>(r) == v,
{
    ErasedSync { value: Box::new(v), dup: None }
}

/// Relies on `<dyn Any>::downcast_ref` and `T::clone`: the duplication
/// routine that [`erase_dup_sync`] installs beside a value of type `T`. No
/// verified code calls it by name; [`duplicate_erased_sync`] reaches it
/// through the stored routine, and only on the erased value it was installed
/// beside.
#[verifier::external_body]
fn dup_routine_sync<T: CloneableAnySync>(e: &ErasedSync) -> (r: ErasedSync)
    requires
        erased_id_sync(*e) == type_id_of::<T>(),
        erased_dup_sync(*e),
    ensures
        erased_id_sync(r) == erased_id_sync(*e),
        erased_dup_sync(r),
        erased_duplicates_sync(r, *e),
{
    ErasedSync {
        value: Box::new((&*e.value).downcast_ref::<T>().unwrap().clone()),
        dup: e.dup,
    }
}

/// Relies on `Box::new`, the coercion to `Box<dyn Any + Send + Sync>`, and
/// `T::clone`: as [`erase_sync`], and the installed routine duplicates the
/// hidden value by recovering it as `T` and cloning it.
#[verifier::external_body]
pub(crate) fn erase_dup_sync<T: CloneableAnySync>(v: T) -> (r: ErasedSync)
    ensures
        erased_id_sync(r) == type_id_of::<T>(),
        erased_dup_sync(r),
        erased_val_sync::<T>(r) == v,
{
    ErasedSync { value: Box::new(v), dup: Some(dup_routine_sync::<T>) }
}

/// Relies on `Box<dyn Any + Send + Sync>::downcast`: it recovers the hidden
/// value as `T` exactly when the hidden type is `T`, which within one process
/// is exactly when the identities match.
#[verifier::external_body]
pub(crate) fn recover_sync<T: 'static>(e: ErasedSync) -> (r: Option<T>)
    ensures
        r is Some <==> erased_id_sync(e) == type_id_of::<T>(),
        r matches Some(x) ==> x == erased_val_sync::<T>(e),
{
    match e.value.downcast::<T>() {
        Ok(b) => Some(*b),
        Err(_) => None,
    }
}

/// Relies on `<dyn Any>::downcast_ref`: it borrows the hidden value as `T`
/// exactly when the hidden type is `T`, which within one process is exactly
/// when the identities match.
#[verifier::external_body]
pub(crate) fn recover_ref_sync<'a, T: 'static>(e: &'a ErasedSync) -> (r: Option<&'a T>)
    ensures
        r is Some <==> erased_id_sync(*e) == type_id_of::<T>(),
        r matches Some(x) ==> *x == erased_val_sync::<T>(*e),
{
    (&*e.value).downcast_ref::<T>()
}

/// Relies on `<dyn Any>::downcast_mut`: it borrows the hidden value mutably
/// as `T` exactly when the hidden type is `T`. Whatever the caller writes
/// through the borrow is again a `T`, so the identity and the duplication
/// routine of the erased value are unchanged; on a failed match nothing is
/// touched.
#[verifier::external_body]
pub(crate) fn recover_mut_sync<'a, T: 'static>(e: &'a mut ErasedSync) -> (r: Option<&'a mut T>)
    ensures
        r is Some <==> erased_id_sync(*old(e)) == type_id_of::<T>(),
        erased_id_sync(*final(e)) == erased_id_sync(*old(e)),
        erased_dup_sync(*final(e)) == erased_dup_sync(*old(e)),
        r is None ==> *final(e) == *old(e),
        r matches Some(x) ==> *x == erased_val_sync::<T>(*old(e)),
        r matches Some(x) ==> erased_val_sync::<T>(*final(e)) == *final(x),
{
    (&mut *e.value).downcast_mut::<T>()
}

/// Relies on `Option::is_some`: whether a duplication routine is installed.
#[verifier::external_body]
pub(crate) fn erased_has_dup_sync(e: &ErasedSync) -> (r: bool)
    ensures
        r == erased_dup_sync(*e),
{
    e.dup.is_some()
}

/// Relies on the installed duplication routine, which clones the hidden value:
/// the copy hides an independently owned value of the same concrete type and
/// carries the routine onward.
#[verifier::external_body]
pub(crate) fn duplicate_erased_sync(e: &ErasedSync) -> (r: ErasedSync)
    requires
        erased_dup_sync(*e),
    ensures
        erased_id_sync(r) == erased_id_sync(*e),
        erased_dup_sync(r),
        erased_duplicates_sync(r, *e),
{
    (e.dup.unwrap())(e)
}

} // verus!
