//! The deferred-allocation wrappers: each presents the operation set of its
//! store variant while avoiding allocation of the backing store until the
//! first value is actually inserted.
//!
//! Before the first insertion a wrapper holds no store and behaves as an
//! empty store for every read operation, without allocating. The first
//! insertion allocates a default store and delegates; removal of the last
//! entry leaves the store allocated, a deliberate simplicity tradeoff.

use vstd::prelude::*;

verus! {

use crate::erased::ErasedAny;
use crate::erased::ErasedSync;
use crate::erased::erased_duplicates;
use crate::erased::erased_duplicates_sync;
use crate::erased::erased_id;
use crate::erased::erased_id_sync;
use crate::erased::erased_val;
use crate::erased::erased_val_sync;
use crate::erased::CloneableAny;
use crate::erased::CloneableAnySync;
use crate::erased::type_id_of;
use crate::store::AnyMap;
use crate::store::AnyMapSync;
use crate::store::CloneableAnyMap;
use crate::store::CloneableAnyMapSync;

/// The deferred-allocation wrapper over [`AnyMap`]: the store's operation
/// set, with no backing store allocated until the first insertion.
#[derive(Debug)]
pub struct Extensions {
    inner: Option<Box<AnyMap>>,
}

impl View for Extensions {
    type V = Map<u64, ErasedAny>;

    closed spec fn view(&self) -> Map<u64, ErasedAny> {
        match self.inner {
            Some(m) => m@,
            None => Map::empty(),
        }
    }
}

impl Extensions {
    /// Whether a backing store has been allocated.
    pub closed spec fn allocated(self) -> bool {
        self.inner is Some
    }

    /// The backing store, if present, is well formed.
    pub closed spec fn wf(self) -> bool {
        match self.inner {
            Some(m) => m.wf(),
            None => true,
        }
    }

    /// A wrapper with no backing store; nothing is allocated.
    pub fn new() -> (r: Self)
        ensures
            r.wf(),
            !r.allocated(),
            r@ == Map::<u64, ErasedAny>::empty(),
    {
        Extensions { inner: None }
    }

    /// A wrapper whose backing store is allocated at once, pre-sized for
    /// `capacity` entries.
    pub fn with_capacity(capacity: usize) -> (r: Self)
        ensures
            r.wf(),
            r.allocated(),
            r@ == Map::<u64, ErasedAny>::empty(),
    {
        Extensions { inner: Some(Box::new(AnyMap::with_capacity(capacity))) }
    }

    /// Inserts as the store does, first allocating a default store if none
    /// exists yet; this is the one operation that allocates.
    pub fn insert<T: 'static>(&mut self, val: T) -> (r: Option<T>)
        requires
            old(self).wf(),
        ensures
            final(self).wf(),
            final(self).allocated(),
            final(self)@ == old(self)@.insert(
                type_id_of::<T>(),
                final(self)@[type_id_of::<T>()],
            ),
            erased_id(final(self)@[type_id_of::<T>()]) == type_id_of::<T>(),
            erased_val::<T>(final(self)@[type_id_of::<T>()]) == val,
            r is Some <==> old(self)@.contains_key(type_id_of::<T>()),
            r matches Some(x) ==> x == erased_val::<T>(old(self)@[type_id_of::<T>()]),
    {
        if self.inner.is_none() {
            self.inner = Some(Box::new(AnyMap::new()));
        }
        match &mut self.inner {
            Some(m) => m.insert(val),
            None => {
                proof {
                    assert(false);
                }
                None
            },
        }
    }

    /// Borrows the stored value for `T`, if one is present; on a wrapper
    /// without a store it returns nothing and allocates nothing.
    pub fn get<T: 'static>(&self) -> (r: Option<&T>)
        requires
            self.wf(),
        ensures
            r is Some <==> self@.contains_key(type_id_of::<T>()),
            r matches Some(x) ==> *x == erased_val::<T>(self@[type_id_of::<T>()]),
    {
        match &self.inner {
            None => None,
            Some(m) => m.get::<T>(),
        }
    }

    /// Mutably borrows the stored value for `T`, if one is present; on a
    /// wrapper without a store it returns nothing and allocates nothing.
    pub fn get_mut<T: 'static>(&mut self) -> (r: Option<&mut T>)
        requires
            old(self).wf(),
        ensures
            final(self).wf(),
            final(self).allocated() == old(self).allocated(),
            r is Some <==> old(self)@.contains_key(type_id_of::<T>()),
            r is None ==> final(self)@ == old(self)@,
            old(self)@.contains_key(type_id_of::<T>()) ==> final(self)@ == old(self)@.insert(
                type_id_of::<T>(),
                final(self)@[type_id_of::<T>()],
            ),
            r matches Some(x) ==> *x == erased_val::<T>(old(self)@[type_id_of::<T>()]),
            r matches Some(x) ==> erased_val::<T>(final(self)@[type_id_of::<T>()]) == *final(x),
    {
        match &mut self.inner {
            None => None,
            Some(m) => m.get_mut::<T>(),
        }
    }

    /// Deletes the entry for `T` if present, returning it recovered to `T`;
    /// on a wrapper without a store it returns nothing, allocates nothing and
    /// changes nothing.
    pub fn remove<T: 'static>(&mut self) -> (r: Option<T>)
        requires
            old(self).wf(),
        ensures
            final(self).wf(),
            final(self).allocated() == old(self).allocated(),
            !old(self).allocated() ==> *final(self) == *old(self),
            final(self)@ == old(self)@.remove(type_id_of::<T>()),
            r is Some <==> old(self)@.contains_key(type_id_of::<T>()),
            r matches Some(x) ==> x == erased_val::<T>(old(self)@[type_id_of::<T>()]),
    {
        match &mut self.inner {
            None => {
                proof {
                    assert(old(self)@.remove(type_id_of::<T>()) =~= old(self)@);
                }
                None
            },
            Some(m) => m.remove::<T>(),
        }
    }

    /// Whether an entry for `T` exists; on a wrapper without a store, no
    /// entry exists.
    pub fn contains<T: 'static>(&self) -> (r: bool)
        ensures
            r == self@.contains_key(type_id_of::<T>()),
    {
        match &self.inner {
            None => false,
            Some(m) => m.contains::<T>(),
        }
    }

    /// A read-only handle on the backing store, or nothing if none was ever
    /// allocated, so aggregate properties can be inspected without
    /// triggering allocation.
    pub fn get_inner(&self) -> (r: Option<&Box<AnyMap>>)
        ensures
            r is Some <==> self.allocated(),
            r matches Some(m) ==> (**m)@ == self@,
    {
        self.inner.as_ref()
    }
}

impl Default for Extensions {
    /// A wrapper with no backing store, as [`Extensions::new`] builds it.
    fn default() -> (r: Self)
        ensures
            r.wf(),
            !r.allocated(),
            r@ == Map::<u64, ErasedAny>::empty(),
    {
        Extensions::new()
    }
}

/// The deferred-allocation wrapper over [`AnyMapSync`]: the store's operation
/// set, with no backing store allocated until the first insertion.
#[derive(Debug)]
pub struct ExtensionsSync {
    inner: Option<Box<AnyMapSync>>,
}

impl View for ExtensionsSync {
    type V = Map<u64, ErasedSync>;

    closed spec fn view(&self) -> Map<u64, ErasedSync> {
        match self.inner {
            Some(m) => m@,
            None => Map::empty(),
        }
    }
}

impl ExtensionsSync {
    /// Whether a backing store has been allocated.
    pub closed spec fn allocated(self) -> bool {
        self.inner is Some
    }

    /// The backing store, if present, is well formed.
    pub closed spec fn wf(self) -> bool {
        match self.inner {
            Some(m) => m.wf(),
            None => true,
        }
    }

    /// A wrapper with no backing store; nothing is allocated.
    pub fn new() -> (r: Self)
        ensures
            r.wf(),
            !r.allocated(),
            r@ == Map::<u64, ErasedSync>::empty(),
    {
        ExtensionsSync { inner: None }
    }

    /// A wrapper whose backing store is allocated at once, pre-sized for
    /// `capacity` entries.
    pub fn with_capacity(capacity: usize) -> (r: Self)
        ensures
            r.wf(),
            r.allocated(),
            r@ == Map::<u64, ErasedSync>::empty(),
    {
        ExtensionsSync { inner: Some(Box::new(AnyMapSync::with_capacity(capacity))) }
    }

    /// Inserts as the store does, first allocating a default store if none
    /// exists yet; this is the one operation that allocates.
    pub fn insert<T: 'static + Send + Sync>(&mut self, val: T) -> (r: Option<T>)
        requires
            old(self).wf(),
        ensures
            final(self).wf(),
            final(self).allocated(),
            final(self)@ == old(self)@.insert(
                type_id_of::<T>(),
                final(self)@[type_id_of::<T>()],
            ),
            erased_id_sync(final(self)@[type_id_of::<T>()]) == type_id_of::<T>(),
            erased_val_sync::<T>(final(self)@[type_id_of::<T>()]) == val,
            r is Some <==> old(self)@.contains_key(type_id_of::<T>()),
            r matches Some(x) ==> x == erased_val_sync::<T>(old(self)@[type_id_of::<T>()]),
    {
        if self.inner.is_none() {
            self.inner = Some(Box::new(AnyMapSync::new()));
        }
        match &mut self.inner {
            Some(m) => m.insert(val),
            None => {
                proof {
                    assert(false);
                }
                None
            },
        }
    }

    /// Borrows the stored value for `T`, if one is present; on a wrapper
    /// without a store it returns nothing and allocates nothing.
    pub fn get<T: 'static>(&self) -> (r: Option<&T>)
        requires
            self.wf(),
        ensures
            r is Some <==> self@.contains_key(type_id_of::<T>()),
            r matches Some(x) ==> *x == erased_val_sync::<T>(self@[type_id_of::<T>()]),
    {
        match &self.inner {
            None => None,
            Some(m) => m.get::<T>(),
        }
    }

    /// Mutably borrows the stored value for `T`, if one is present; on a
    /// wrapper without a store it returns nothing and allocates nothing.
    pub fn get_mut<T: 'static>(&mut self) -> (r: Option<&mut T>)
        requires
            old(self).wf(),
        ensures
            final(self).wf(),
            final(self).allocated() == old(self).allocated(),
            r is Some <==> old(self)@.contains_key(type_id_of::<T>()),
            r is None ==> final(self)@ == old(self)@,
            old(self)@.contains_key(type_id_of::<T>()) ==> final(self)@ == old(self)@.insert(
                type_id_of::<T>(),
                final(self)@[type_id_of::<T>()],
            ),
            r matches Some(x) ==> *x == erased_val_sync::<T>(old(self)@[type_id_of::<T>()]),
            r matches Some(x) ==> erased_val_sync::<T>(final(self)@[type_id_of::<T>()]) == *final(x),
    {
        match &mut self.inner {
            None => None,
            Some(m) => m.get_mut::<T>(),
        }
    }

    /// Deletes the entry for `T` if present, returning it recovered to `T`;
    /// on a wrapper without a store it returns nothing, allocates nothing and
    /// changes nothing.
    pub fn remove<T: 'static>(&mut self) -> (r: Option<T>)
        requires
            old(self).wf(),
        ensures
            final(self).wf(),
            final(self).allocated() == old(self).allocated(),
            !old(self).allocated() ==> *final(self) == *old(self),
            final(self)@ == old(self)@.remove(type_id_of::<T>()),
            r is Some <==> old(self)@.contains_key(type_id_of::<T>()),
            r matches Some(x) ==> x == erased_val_sync::<T>(old(self)@[type_id_of::<T>()]),
    {
        match &mut self.inner {
            None => {
                proof {
                    assert(old(self)@.remove(type_id_of::<T>()) =~= old(self)@);
                }
                None
            },
            Some(m) => m.remove::<T>(),
        }
    }

    /// Whether an entry for `T` exists; on a wrapper without a store, no
    /// entry exists.
    pub fn contains<T: 'static>(&self) -> (r: bool)
        ensures
            r == self@.contains_key(type_id_of::<T>()),
    {
        match &self.inner {
            None => false,
            Some(m) => m.contains::<T>(),
        }
    }

    /// A read-only handle on the backing store, or nothing if none was ever
    /// allocated, so aggregate properties can be inspected without
    /// triggering allocation.
    pub fn get_inner(&self) -> (r: Option<&Box<AnyMapSync>>)
        ensures
            r is Some <==> self.allocated(),
            r matches Some(m) ==> (**m)@ == self@,
    {
        self.inner.as_ref()
    }
}

impl Default for ExtensionsSync {
    /// A wrapper with no backing store, as [`ExtensionsSync::new`] builds it.
    fn default() -> (r: Self)
        ensures
            r.wf(),
            !r.allocated(),
            r@ == Map::<u64, ErasedSync>::empty(),
    {
        ExtensionsSync::new()
    }
}

/// The deferred-allocation wrapper over [`CloneableAnyMap`]: the store's operation
/// set, with no backing store allocated until the first insertion.
#[derive(Debug)]
pub struct CloneableExtensions {
    inner: Option<Box<CloneableAnyMap>>,
}

impl View for CloneableExtensions {
    type V = Map<u64, ErasedAny>;

    closed spec fn view(&self) -> Map<u64, ErasedAny> {
        match self.inner {
            Some(m) => m@,
            None => Map::empty(),
        }
    }
}

impl CloneableExtensions {
    /// Whether a backing store has been allocated.
    pub closed spec fn allocated(self) -> bool {
        self.inner is Some
    }

    /// The backing store, if present, is well formed.
    pub closed spec fn wf(self) -> bool {
        match self.inner {
            Some(m) => m.wf(),
            None => true,
        }
    }

    /// A wrapper with no backing store; nothing is allocated.
    pub fn new() -> (r: Self)
        ensures
            r.wf(),
            !r.allocated(),
            r@ == Map::<u64, ErasedAny>::empty(),
    {
        CloneableExtensions { inner: None }
    }

    /// A wrapper whose backing store is allocated at once, pre-sized for
    /// `capacity` entries.
    pub fn with_capacity(capacity: usize) -> (r: Self)
        ensures
            r.wf(),
            r.allocated(),
            r@ == Map::<u64, ErasedAny>::empty(),
    {
        CloneableExtensions { inner: Some(Box::new(CloneableAnyMap::with_capacity(capacity))) }
    }

    /// Inserts as the store does, first allocating a default store if none
    /// exists yet; this is the one operation that allocates.
    pub fn insert<T: CloneableAny>(&mut self, val: T) -> (r: Option<T>)
        requires
            old(self).wf(),
        ensures
            final(self).wf(),
            final(self).allocated(),
            final(self)@ == old(self)@.insert(
                type_id_of::<T>(),
                final(self)@[type_id_of::<T>()],
            ),
            erased_id(final(self)@[type_id_of::<T>()]) == type_id_of::<T>(),
            erased_val::<T>(final(self)@[type_id_of::<T>()]) == val,
            r is Some <==> old(self)@.contains_key(type_id_of::<T>()),
            r matches Some(x) ==> x == erased_val::<T>(old(self)@[type_id_of::<T>()]),
    {
        if self.inner.is_none() {
            self.inner = Some(Box::new(CloneableAnyMap::new()));
        }
        match &mut self.inner {
            Some(m) => m.insert(val),
            None => {
                proof {
                    assert(false);
                }
                None
            },
        }
    }

    /// Borrows the stored value for `T`, if one is present; on a wrapper
    /// without a store it returns nothing and allocates nothing.
    pub fn get<T: CloneableAny>(&self) -> (r: Option<&T>)
        requires
            self.wf(),
        ensures
            r is Some <==> self@.contains_key(type_id_of::<T>()),
            r matches Some(x) ==> *x == erased_val::<T>(self@[type_id_of::<T>()]),
    {
        match &self.inner {
            None => None,
            Some(m) => m.get::<T>(),
        }
    }

    /// Mutably borrows the stored value for `T`, if one is present; on a
    /// wrapper without a store it returns nothing and allocates nothing.
    pub fn get_mut<T: CloneableAny>(&mut self) -> (r: Option<&mut T>)
        requires
            old(self).wf(),
        ensures
            final(self).wf(),
            final(self).allocated() == old(self).allocated(),
            r is Some <==> old(self)@.contains_key(type_id_of::<T>()),
            r is None ==> final(self)@ == old(self)@,
            old(self)@.contains_key(type_id_of::<T>()) ==> final(self)@ == old(self)@.insert(
                type_id_of::<T>(),
                final(self)@[type_id_of::<T>()],
            ),
            r matches Some(x) ==> *x == erased_val::<T>(old(self)@[type_id_of::<T>()]),
            r matches Some(x) ==> erased_val::<T>(final(self)@[type_id_of::<T>()]) == *final(x),
    {
        match &mut self.inner {
            None => None,
            Some(m) => m.get_mut::<T>(),
        }
    }

    /// Deletes the entry for `T` if present, returning it recovered to `T`;
    /// on a wrapper without a store it returns nothing, allocates nothing and
    /// changes nothing.
    pub fn remove<T: CloneableAny>(&mut self) -> (r: Option<T>)
        requires
            old(self).wf(),
        ensures
            final(self).wf(),
            final(self).allocated() == old(self).allocated(),
            !old(self).allocated() ==> *final(self) == *old(self),
            final(self)@ == old(self)@.remove(type_id_of::<T>()),
            r is Some <==> old(self)@.contains_key(type_id_of::<T>()),
            r matches Some(x) ==> x == erased_val::<T>(old(self)@[type_id_of::<T>()]),
    {
        match &mut self.inner {
            None => {
                proof {
                    assert(old(self)@.remove(type_id_of::<T>()) =~= old(self)@);
                }
                None
            },
            Some(m) => m.remove::<T>(),
        }
    }

    /// Whether an entry for `T` exists; on a wrapper without a store, no
    /// entry exists.
    pub fn contains<T: CloneableAny>(&self) -> (r: bool)
        ensures
            r == self@.contains_key(type_id_of::<T>()),
    {
        match &self.inner {
            None => false,
            Some(m) => m.contains::<T>(),
        }
    }

    /// A read-only handle on the backing store, or nothing if none was ever
    /// allocated, so aggregate properties can be inspected without
    /// triggering allocation.
    pub fn get_inner(&self) -> (r: Option<&Box<CloneableAnyMap>>)
        ensures
            r is Some <==> self.allocated(),
            r matches Some(m) ==> (**m)@ == self@,
    {
        self.inner.as_ref()
    }
}

impl Default for CloneableExtensions {
    /// A wrapper with no backing store, as [`CloneableExtensions::new`] builds it.
    fn default() -> (r: Self)
        ensures
            r.wf(),
            !r.allocated(),
            r@ == Map::<u64, ErasedAny>::empty(),
    {
        CloneableExtensions::new()
    }
}

impl Clone for CloneableExtensions {
    /// Duplicating the wrapper deep-copies the backing store, if one exists;
    /// the copy's entries are independently owned.
    fn clone(&self) -> (r: Self)
        ensures
            self.wf() ==> r.wf() && r@.dom() == self@.dom() && r.allocated() == self.allocated(),
            self.wf() ==> forall|k: u64| #[trigger]
                self@.contains_key(k) ==> erased_duplicates(r@[k], self@[k]),
    {
        match &self.inner {
            None => CloneableExtensions { inner: None },
            Some(m) => CloneableExtensions { inner: Some(Box::new((**m).clone())) },
        }
    }
}

/// The deferred-allocation wrapper over [`CloneableAnyMapSync`]: the store's operation
/// set, with no backing store allocated until the first insertion.
#[derive(Debug)]
pub struct CloneableExtensionsSync {
    inner: Option<Box<CloneableAnyMapSync>>,
}

impl View for CloneableExtensionsSync {
    type V = Map<u64, ErasedSync>;

    closed spec fn view(&self) -> Map<u64, ErasedSync> {
        match self.inner {
            Some(m) => m@,
            None => Map::empty(),
        }
    }
}

impl CloneableExtensionsSync {
    /// Whether a backing store has been allocated.
    pub closed spec fn allocated(self) -> bool {
        self.inner is Some
    }

    /// The backing store, if present, is well formed.
    pub closed spec fn wf(self) -> bool {
        match self.inner {
            Some(m) => m.wf(),
            None => true,
        }
    }

    /// A wrapper with no backing store; nothing is allocated.
    pub fn new() -> (r: Self)
        ensures
            r.wf(),
            !r.allocated(),
            r@ == Map::<u64, ErasedSync>::empty(),
    {
        CloneableExtensionsSync { inner: None }
    }

    /// A wrapper whose backing store is allocated at once, pre-sized for
    /// `capacity` entries.
    pub fn with_capacity(capacity: usize) -> (r: Self)
        ensures
            r.wf(),
            r.allocated(),
            r@ == Map::<u64, ErasedSync>::empty(),
    {
        CloneableExtensionsSync { inner: Some(Box::new(CloneableAnyMapSync::with_capacity(capacity))) }
    }

    /// Inserts as the store does, first allocating a default store if none
    /// exists yet; this is the one operation that allocates.
    pub fn insert<T: CloneableAnySync>(&mut self, val: T) -> (r: Option<T>)
        requires
            old(self).wf(),
        ensures
            final(self).wf(),
            final(self).allocated(),
            final(self)@ == old(self)@.insert(
                type_id_of::<T>(),
                final(self)@[type_id_of::<T>()],
            ),
            erased_id_sync(final(self)@[type_id_of::<T>()]) == type_id_of::<T>(),
            erased_val_sync::<T>(final(self)@[type_id_of::<T>()]) == val,
            r is Some <==> old(self)@.contains_key(type_id_of::<T>()),
            r matches Some(x) ==> x == erased_val_sync::<T>(old(self)@[type_id_of::<T>()]),
    {
        if self.inner.is_none() {
            self.inner = Some(Box::new(CloneableAnyMapSync::new()));
        }
        match &mut self.inner {
            Some(m) => m.insert(val),
            None => {
                proof {
                    assert(false);
                }
                None
            },
        }
    }

    /// Borrows the stored value for `T`, if one is present; on a wrapper
    /// without a store it returns nothing and allocates nothing.
    pub fn get<T: CloneableAnySync>(&self) -> (r: Option<&T>)
        requires
            self.wf(),
        ensures
            r is Some <==> self@.contains_key(type_id_of::<T>()),
            r matches Some(x) ==> *x == erased_val_sync::<T>(self@[type_id_of::<T>()]),
    {
        match &self.inner {
            None => None,
            Some(m) => m.get::<T>(),
        }
    }

    /// Mutably borrows the stored value for `T`, if one is present; on a
    /// wrapper without a store it returns nothing and allocates nothing.
    pub fn get_mut<T: CloneableAnySync>(&mut self) -> (r: Option<&mut T>)
        requires
            old(self).wf(),
        ensures
            final(self).wf(),
            final(self).allocated() == old(self).allocated(),
            r is Some <==> old(self)@.contains_key(type_id_of::<T>()),
            r is None ==> final(self)@ == old(self)@,
            old(self)@.contains_key(type_id_of::<T>()) ==> final(self)@ == old(self)@.insert(
                type_id_of::<T>(),
                final(self)@[type_id_of::<T>()],
            ),
            r matches Some(x) ==> *x == erased_val_sync::<T>(old(self)@[type_id_of::<T>()]),
            r matches Some(x) ==> erased_val_sync::<T>(final(self)@[type_id_of::<T>()]) == *final(x),
    {
        match &mut self.inner {
            None => None,
            Some(m) => m.get_mut::<T>(),
        }
    }

    /// Deletes the entry for `T` if present, returning it recovered to `T`;
    /// on a wrapper without a store it returns nothing, allocates nothing and
    /// changes nothing.
    pub fn remove<T: CloneableAnySync>(&mut self) -> (r: Option<T>)
        requires
            old(self).wf(),
        ensures
            final(self).wf(),
            final(self).allocated() == old(self).allocated(),
            !old(self).allocated() ==> *final(self) == *old(self),
            final(self)@ == old(self)@.remove(type_id_of::<T>()),
            r is Some <==> old(self)@.contains_key(type_id_of::<T>()),
            r matches Some(x) ==> x == erased_val_sync::<T>(old(self)@[type_id_of::<T>()]),
    {
        match &mut self.inner {
            None => {
                proof {
                    assert(old(self)@.remove(type_id_of::<T>()) =~= old(self)@);
                }
                None
            },
            Some(m) => m.remove::<T>(),
        }
    }

    /// Whether an entry for `T` exists; on a wrapper without a store, no
    /// entry exists.
    pub fn contains<T: CloneableAnySync>(&self) -> (r: bool)
        ensures
            r == self@.contains_key(type_id_of::<T>()),
    {
        match &self.inner {
            None => false,
            Some(m) => m.contains::<T>(),
        }
    }

    /// A read-only handle on the backing store, or nothing if none was ever
    /// allocated, so aggregate properties can be inspected without
    /// triggering allocation.
    pub fn get_inner(&self) -> (r: Option<&Box<CloneableAnyMapSync>>)
        ensures
            r is Some <==> self.allocated(),
            r matches Some(m) ==> (**m)@ == self@,
    {
        self.inner.as_ref()
    }
}

impl Default for CloneableExtensionsSync {
    /// A wrapper with no backing store, as [`CloneableExtensionsSync::new`] builds it.
    fn default() -> (r: Self)
        ensures
            r.wf(),
            !r.allocated(),
            r@ == Map::<u64, ErasedSync>::empty(),
    {
        CloneableExtensionsSync::new()
    }
}

impl Clone for CloneableExtensionsSync {
    /// Duplicating the wrapper deep-copies the backing store, if one exists;
    /// the copy's entries are independently owned.
    fn clone(&self) -> (r: Self)
        ensures
            self.wf() ==> r.wf() && r@.dom() == self@.dom() && r.allocated() == self.allocated(),
            self.wf() ==> forall|k: u64| #[trigger]
                self@.contains_key(k) ==> erased_duplicates_sync(r@[k], self@[k]),
    {
        match &self.inner {
            None => CloneableExtensionsSync { inner: None },
            Some(m) => CloneableExtensionsSync { inner: Some(Box::new((**m).clone())) },
        }
    }
}

} // verus!
