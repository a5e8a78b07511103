//! The type-erased stores: mappings from 64-bit type identity to exactly one
//! erased value each, in four variants along two axes (thread-shareable or
//! not; duplication-capable or not).
//!
//! Each store's view is the mathematical map from identities to erased
//! values, and each store maintains the invariant that every entry sits under
//! the identity of the type it hides; recovery is guarded by that identity,
//! so a lookup never yields a wrong-typed value.

use vstd::prelude::*;

verus! {

use std::collections::HashMap;

use crate::erased::CloneableAny;
use crate::erased::CloneableAnySync;
use crate::erased::ErasedAny;
use crate::erased::ErasedSync;
use crate::erased::duplicate_erased;
use crate::erased::duplicate_erased_sync;
use crate::erased::erase;
use crate::erased::erase_dup;
use crate::erased::erase_dup_sync;
use crate::erased::erase_sync;
use crate::erased::erased_dup;
use crate::erased::erased_dup_sync;
use crate::erased::erased_has_dup;
use crate::erased::erased_has_dup_sync;
use crate::erased::erased_duplicates;
use crate::erased::erased_duplicates_sync;
use crate::erased::erased_id;
use crate::erased::erased_id_sync;
use crate::erased::erased_val;
use crate::erased::erased_val_sync;
use crate::erased::recover;
use crate::erased::recover_mut;
use crate::erased::recover_mut_sync;
use crate::erased::recover_ref;
use crate::erased::recover_ref_sync;
use crate::erased::recover_sync;
use crate::erased::runtime_id;
use crate::erased::type_id_of;

use crate::model::ids_match;
use crate::model::lemma_ids_match_insert_existing;
use crate::model::lemma_ids_match_insert_new;
use crate::model::lemma_ids_match_remove;
use crate::model::lemma_ids_match_remove_absent;
use crate::model::lemma_wf_dup_map_insert;
use crate::model::lemma_wf_dup_map_remove;
use crate::model::lemma_wf_dup_sync_map_insert;
use crate::model::lemma_wf_dup_sync_map_remove;
use crate::model::lemma_wf_map_insert;
use crate::model::lemma_wf_map_remove;
use crate::model::lemma_wf_sync_map_insert;
use crate::model::lemma_wf_sync_map_remove;
use crate::model::wf_dup_map;
use crate::model::wf_dup_sync_map;
use crate::model::wf_map;
use crate::model::wf_sync_map;

broadcast use {
    vstd::std_specs::hash::group_hash_axioms,
    vstd::seq_lib::lemma_seq_contains_after_push,
    lemma_wf_map_insert,
    lemma_wf_map_remove,
    lemma_wf_dup_map_insert,
    lemma_wf_dup_map_remove,
    lemma_wf_sync_map_insert,
    lemma_wf_sync_map_remove,
    lemma_wf_dup_sync_map_insert,
    lemma_wf_dup_sync_map_remove,
};

/// Relies on `HashMap::get_mut`: the borrowed value is the entry at the given
/// key, and writes through the borrow affect that entry alone.
#[verifier::external_body]
fn map_get_mut<'a, V>(m: &'a mut HashMap<u64, V>, k: u64) -> (r: Option<&'a mut V>)
    ensures
        r is Some <==> old(m)@.contains_key(k),
        r is None ==> final(m)@ == old(m)@,
        r matches Some(v) ==> *v == old(m)@[k] && final(m)@ == old(m)@.insert(k, *final(v)),
{
    m.get_mut(&k)
}

/// The baseline type-erased store: at most one owned value of each concrete
/// type, keyed by the type's 64-bit runtime identity.
#[derive(Debug)]
pub struct AnyMap {
    map: HashMap<u64, ErasedAny>,
}

impl View for AnyMap {
    type V = Map<u64, ErasedAny>;

    closed spec fn view(&self) -> Map<u64, ErasedAny> {
        self.map@
    }
}

impl AnyMap {
    /// Every entry sits under the identity of the type it hides.
    pub open spec fn wf(self) -> bool {
        wf_map(self@)
    }

    /// An empty store with no pre-allocated capacity.
    pub fn new() -> (r: Self)
        ensures
            r.wf(),
            r@ == Map::<u64, ErasedAny>::empty(),
    {
        AnyMap { map: HashMap::new() }
    }

    /// An empty store pre-sized for `capacity` entries.
    pub fn with_capacity(capacity: usize) -> (r: Self)
        ensures
            r.wf(),
            r@ == Map::<u64, ErasedAny>::empty(),
    {
        AnyMap { map: HashMap::with_capacity(capacity) }
    }

    /// The number of entries, one per stored type.
    pub fn len(&self) -> (n: usize)
        ensures
            n == self@.len(),
    {
        self.map.len()
    }

    /// Erases `val` and stores it under `T`'s identity, replacing any prior
    /// entry for `T`; the replaced value, recovered to `T`, is returned.
    /// Exactly one entry for `T` exists afterward.
    pub fn insert<T: 'static>(&mut self, val: T) -> (r: Option<T>)
        requires
            old(self).wf(),
        ensures
            final(self).wf(),
            final(self)@ == old(self)@.insert(
                type_id_of::<T>(),
                final(self)@[type_id_of::<T>()],
            ),
            erased_id(final(self)@[type_id_of::<T>()]) == type_id_of::<T>(),
            erased_val::<T>(final(self)@[type_id_of::<T>()]) == val,
            r is Some <==> old(self)@.contains_key(type_id_of::<T>()),
            r matches Some(x) ==> x == erased_val::<T>(old(self)@[type_id_of::<T>()]),
    {
        let k = runtime_id::<T>();
        let e = erase::<T>(val);
        let prev = self.map.insert(k, e);
        match prev {
            None => None,
            Some(p) => recover::<T>(p),
        }
    }

    /// Borrows the stored value for `T`, if one is present.
    pub fn get<T: 'static>(&self) -> (r: Option<&T>)
        requires
            self.wf(),
        ensures
            r is Some <==> self@.contains_key(type_id_of::<T>()),
            r matches Some(x) ==> *x == erased_val::<T>(self@[type_id_of::<T>()]),
    {
        let k = runtime_id::<T>();
        match self.map.get(&k) {
            None => None,
            Some(e) => recover_ref::<T>(e),
        }
    }

    /// Mutably borrows the stored value for `T`, if one is present. Whatever
    /// the caller writes through the borrow is again a `T`, so only the entry
    /// for `T` is affected and the store stays well formed.
    pub fn get_mut<T: 'static>(&mut self) -> (r: Option<&mut T>)
        requires
            old(self).wf(),
        ensures
            final(self).wf(),
            r is Some <==> old(self)@.contains_key(type_id_of::<T>()),
            r is None ==> final(self)@ == old(self)@,
            old(self)@.contains_key(type_id_of::<T>()) ==> final(self)@ == old(self)@.insert(
                type_id_of::<T>(),
                final(self)@[type_id_of::<T>()],
            ),
            r matches Some(x) ==> *x == erased_val::<T>(old(self)@[type_id_of::<T>()]),
            r matches Some(x) ==> erased_val::<T>(final(self)@[type_id_of::<T>()]) == *final(x),
    {
        let k = runtime_id::<T>();
        match map_get_mut(&mut self.map, k) {
            None => None,
            Some(e) => recover_mut::<T>(&mut *e),
        }
    }

    /// Deletes the entry for `T` if present, returning it recovered to `T`;
    /// everything else is left unchanged.
    pub fn remove<T: 'static>(&mut self) -> (r: Option<T>)
        requires
            old(self).wf(),
        ensures
            final(self).wf(),
            final(self)@ == old(self)@.remove(type_id_of::<T>()),
            r is Some <==> old(self)@.contains_key(type_id_of::<T>()),
            r matches Some(x) ==> x == erased_val::<T>(old(self)@[type_id_of::<T>()]),
    {
        let k = runtime_id::<T>();
        match self.map.remove(&k) {
            None => None,
            Some(p) => recover::<T>(p),
        }
    }

    /// Whether an entry for `T` exists, independent of its value.
    pub fn contains<T: 'static>(&self) -> (r: bool)
        ensures
            r == self@.contains_key(type_id_of::<T>()),
    {
        let k = runtime_id::<T>();
        self.map.contains_key(&k)
    }
}

impl Default for AnyMap {
    /// An empty store, as [`AnyMap::new`] builds it.
    fn default() -> (r: Self)
        ensures
            r.wf(),
            r@ == Map::<u64, ErasedAny>::empty(),
    {
        AnyMap::new()
    }
}

/// The position of an identity in a duplicate-free identity list.
fn find_id(ids: &Vec<u64>, k: u64) -> (idx: usize)
    requires
        ids@.contains(k),
    ensures
        idx < ids@.len(),
        ids@[idx as int] == k,
{
    let n = ids.len();
    let mut i: usize = 0;
    loop
        invariant
            i <= n,
            n == ids@.len(),
            ids@.contains(k),
            forall|j: int| 0 <= j < i ==> ids@[j] != k,
        decreases n - i,
    {
        proof {
            let w = choose|w: int| 0 <= w < ids@.len() && ids@[w] == k;
            assert(w >= i);
        }
        if ids[i] == k {
            return i;
        }
        i = i + 1;
    }
}

/// The thread-shareable type-erased store: as [`AnyMap`], with every stored
/// value additionally safe to send across and share between threads, so the
/// store itself can be handed across threads.
#[derive(Debug)]
pub struct AnyMapSync {
    map: HashMap<u64, ErasedSync>,
}

impl View for AnyMapSync {
    type V = Map<u64, ErasedSync>;

    closed spec fn view(&self) -> Map<u64, ErasedSync> {
        self.map@
    }
}

impl AnyMapSync {
    /// Every entry sits under the identity of the type it hides.
    pub open spec fn wf(self) -> bool {
        wf_sync_map(self@)
    }

    /// An empty store with no pre-allocated capacity.
    pub fn new() -> (r: Self)
        ensures
            r.wf(),
            r@ == Map::<u64, ErasedSync>::empty(),
    {
        AnyMapSync { map: HashMap::new() }
    }

    /// An empty store pre-sized for `capacity` entries.
    pub fn with_capacity(capacity: usize) -> (r: Self)
        ensures
            r.wf(),
            r@ == Map::<u64, ErasedSync>::empty(),
    {
        AnyMapSync { map: HashMap::with_capacity(capacity) }
    }

    /// The number of entries, one per stored type.
    pub fn len(&self) -> (n: usize)
        ensures
            n == self@.len(),
    {
        self.map.len()
    }

    /// Erases `val` and stores it under `T`'s identity, replacing any prior
    /// entry for `T`; the replaced value, recovered to `T`, is returned.
    pub fn insert<T: 'static + Send + Sync>(&mut self, val: T) -> (r: Option<T>)
        requires
            old(self).wf(),
        ensures
            final(self).wf(),
            final(self)@ == old(self)@.insert(
                type_id_of::<T>(),
                final(self)@[type_id_of::<T>()],
            ),
            erased_id_sync(final(self)@[type_id_of::<T>()]) == type_id_of::<T>(),
            erased_val_sync::<T>(final(self)@[type_id_of::<T>()]) == val,
            r is Some <==> old(self)@.contains_key(type_id_of::<T>()),
            r matches Some(x) ==> x == erased_val_sync::<T>(old(self)@[type_id_of::<T>()]),
    {
        let k = runtime_id::<T>();
        let e = erase_sync::<T>(val);
        let prev = self.map.insert(k, e);
        match prev {
            None => None,
            Some(p) => recover_sync::<T>(p),
        }
    }

    /// Borrows the stored value for `T`, if one is present.
    pub fn get<T: 'static>(&self) -> (r: Option<&T>)
        requires
            self.wf(),
        ensures
            r is Some <==> self@.contains_key(type_id_of::<T>()),
            r matches Some(x) ==> *x == erased_val_sync::<T>(self@[type_id_of::<T>()]),
    {
        let k = runtime_id::<T>();
        match self.map.get(&k) {
            None => None,
            Some(e) => recover_ref_sync::<T>(e),
        }
    }

    /// Mutably borrows the stored value for `T`, if one is present.
    pub fn get_mut<T: 'static>(&mut self) -> (r: Option<&mut T>)
        requires
            old(self).wf(),
        ensures
            final(self).wf(),
            r is Some <==> old(self)@.contains_key(type_id_of::<T>()),
            r is None ==> final(self)@ == old(self)@,
            old(self)@.contains_key(type_id_of::<T>()) ==> final(self)@ == old(self)@.insert(
                type_id_of::<T>(),
                final(self)@[type_id_of::<T>()],
            ),
            r matches Some(x) ==> *x == erased_val_sync::<T>(old(self)@[type_id_of::<T>()]),
            r matches Some(x) ==> erased_val_sync::<T>(final(self)@[type_id_of::<T>()]) == *final(x),
    {
        let k = runtime_id::<T>();
        match map_get_mut(&mut self.map, k) {
            None => None,
            Some(e) => recover_mut_sync::<T>(&mut *e),
        }
    }

    /// Deletes the entry for `T` if present, returning it recovered to `T`.
    pub fn remove<T: 'static>(&mut self) -> (r: Option<T>)
        requires
            old(self).wf(),
        ensures
            final(self).wf(),
            final(self)@ == old(self)@.remove(type_id_of::<T>()),
            r is Some <==> old(self)@.contains_key(type_id_of::<T>()),
            r matches Some(x) ==> x == erased_val_sync::<T>(old(self)@[type_id_of::<T>()]),
    {
        let k = runtime_id::<T>();
        match self.map.remove(&k) {
            None => None,
            Some(p) => recover_sync::<T>(p),
        }
    }

    /// Whether an entry for `T` exists, independent of its value.
    pub fn contains<T: 'static>(&self) -> (r: bool)
        ensures
            r == self@.contains_key(type_id_of::<T>()),
    {
        let k = runtime_id::<T>();
        self.map.contains_key(&k)
    }
}

impl Default for AnyMapSync {
    /// An empty store, as [`AnyMapSync::new`] builds it.
    fn default() -> (r: Self)
        ensures
            r.wf(),
            r@ == Map::<u64, ErasedSync>::empty(),
    {
        AnyMapSync::new()
    }
}

/// The duplicable type-erased store: as [`AnyMap`], restricted to duplicable
/// stored types, so that the store itself can be duplicated; duplicating it
/// deep-copies every entry. Beside the map it keeps the list of stored
/// identities, which duplication walks.
#[derive(Debug)]
pub struct CloneableAnyMap {
    map: HashMap<u64, ErasedAny>,
    ids: Vec<u64>,
}

impl View for CloneableAnyMap {
    type V = Map<u64, ErasedAny>;

    closed spec fn view(&self) -> Map<u64, ErasedAny> {
        self.map@
    }
}

impl CloneableAnyMap {
    /// The identity list holds each stored identity exactly once.
    pub closed spec fn ids_ok(self) -> bool {
        ids_match(self.ids@, self@)
    }

    /// Every entry sits under the identity of the type it hides and carries a
    /// duplication routine, and the identity list matches the entries.
    pub open spec fn wf(self) -> bool {
        wf_dup_map(self@) && self.ids_ok()
    }

    /// An empty store with no pre-allocated capacity.
    pub fn new() -> (r: Self)
        ensures
            r.wf(),
            r@ == Map::<u64, ErasedAny>::empty(),
    {
        CloneableAnyMap { map: HashMap::new(), ids: Vec::new() }
    }

    /// An empty store pre-sized for `capacity` entries.
    pub fn with_capacity(capacity: usize) -> (r: Self)
        ensures
            r.wf(),
            r@ == Map::<u64, ErasedAny>::empty(),
    {
        CloneableAnyMap { map: HashMap::with_capacity(capacity), ids: Vec::new() }
    }

    /// The number of entries, one per stored type.
    pub fn len(&self) -> (n: usize)
        ensures
            n == self@.len(),
    {
        self.map.len()
    }

    /// Erases `val`, keeping its duplication capability, and stores it under
    /// `T`'s identity, replacing any prior entry for `T`; the replaced value,
    /// recovered to `T`, is returned.
    pub fn insert<T: CloneableAny>(&mut self, val: T) -> (r: Option<T>)
        requires
            old(self).wf(),
        ensures
            final(self).wf(),
            final(self)@ == old(self)@.insert(
                type_id_of::<T>(),
                final(self)@[type_id_of::<T>()],
            ),
            erased_id(final(self)@[type_id_of::<T>()]) == type_id_of::<T>(),
            erased_dup(final(self)@[type_id_of::<T>()]),
            erased_val::<T>(final(self)@[type_id_of::<T>()]) == val,
            r is Some <==> old(self)@.contains_key(type_id_of::<T>()),
            r matches Some(x) ==> x == erased_val::<T>(old(self)@[type_id_of::<T>()]),
    {
        let k = runtime_id::<T>();
        let e = erase_dup::<T>(val);
        let prev = self.map.insert(k, e);
        match prev {
            None => {
                self.ids.push(k);
                proof {
                    lemma_ids_match_insert_new(old(self).ids@, old(self)@, k, self@[k]);
                }
                None
            },
            Some(p) => {
                proof {
                    lemma_ids_match_insert_existing(old(self).ids@, old(self)@, k, self@[k]);
                }
                recover::<T>(p)
            },
        }
    }

    /// Borrows the stored value for `T`, if one is present.
    pub fn get<T: CloneableAny>(&self) -> (r: Option<&T>)
        requires
            self.wf(),
        ensures
            r is Some <==> self@.contains_key(type_id_of::<T>()),
            r matches Some(x) ==> *x == erased_val::<T>(self@[type_id_of::<T>()]),
    {
        let k = runtime_id::<T>();
        match self.map.get(&k) {
            None => None,
            Some(e) => recover_ref::<T>(e),
        }
    }

    /// Mutably borrows the stored value for `T`, if one is present.
    pub fn get_mut<T: CloneableAny>(&mut self) -> (r: Option<&mut T>)
        requires
            old(self).wf(),
        ensures
            final(self).wf(),
            r is Some <==> old(self)@.contains_key(type_id_of::<T>()),
            r is None ==> final(self)@ == old(self)@,
            old(self)@.contains_key(type_id_of::<T>()) ==> final(self)@ == old(self)@.insert(
                type_id_of::<T>(),
                final(self)@[type_id_of::<T>()],
            ),
            r matches Some(x) ==> *x == erased_val::<T>(old(self)@[type_id_of::<T>()]),
            r matches Some(x) ==> erased_val::<T>(final(self)@[type_id_of::<T>()]) == *final(x),
    {
        let k = runtime_id::<T>();
        match map_get_mut(&mut self.map, k) {
            None => None,
            Some(e) => recover_mut::<T>(&mut *e),
        }
    }

    /// Deletes the entry for `T` if present, returning it recovered to `T`.
    pub fn remove<T: CloneableAny>(&mut self) -> (r: Option<T>)
        requires
            old(self).wf(),
        ensures
            final(self).wf(),
            final(self)@ == old(self)@.remove(type_id_of::<T>()),
            r is Some <==> old(self)@.contains_key(type_id_of::<T>()),
            r matches Some(x) ==> x == erased_val::<T>(old(self)@[type_id_of::<T>()]),
    {
        let k = runtime_id::<T>();
        let prev = self.map.remove(&k);
        match prev {
            None => {
                proof {
                    lemma_ids_match_remove_absent(old(self).ids@, old(self)@, k);
                }
                None
            },
            Some(p) => {
                proof {
                    assert(self.ids@.contains(k));
                }
                let idx = find_id(&self.ids, k);
                let _removed = self.ids.remove(idx);
                proof {
                    lemma_ids_match_remove(old(self).ids@, old(self)@, idx as int, k);
                }
                recover::<T>(p)
            },
        }
    }

    /// Whether an entry for `T` exists, independent of its value.
    pub fn contains<T: CloneableAny>(&self) -> (r: bool)
        ensures
            r == self@.contains_key(type_id_of::<T>()),
    {
        let k = runtime_id::<T>();
        self.map.contains_key(&k)
    }
}

impl Default for CloneableAnyMap {
    /// An empty store, as [`CloneableAnyMap::new`] builds it.
    fn default() -> (r: Self)
        ensures
            r.wf(),
            r@ == Map::<u64, ErasedAny>::empty(),
    {
        CloneableAnyMap::new()
    }
}

impl Clone for CloneableAnyMap {
    /// Duplicating the store deep-copies every entry: the copy holds the same
    /// identities, each bound to an independently owned duplicate of the
    /// original entry.
    fn clone(&self) -> (r: Self)
        ensures
            self.wf() ==> r.wf() && r@.dom() == self@.dom(),
            self.wf() ==> forall|k: u64| #[trigger]
                self@.contains_key(k) ==> erased_duplicates(r@[k], self@[k]),
    {
        let n = self.ids.len();
        let mut out_map: HashMap<u64, ErasedAny> = HashMap::with_capacity(n);
        let mut out_ids: Vec<u64> = Vec::new();
        let mut i: usize = 0;
        while i < n
            invariant
                i <= n,
                n == self.ids@.len(),
                ids_match(out_ids@, out_map@),
                self.wf() ==> wf_dup_map(out_map@),
                self.wf() ==> forall|x: u64| #[trigger] out_map@.contains_key(x)
                    ==> self@.contains_key(x),
                self.wf() ==> forall|x: u64| #[trigger] out_map@.contains_key(x)
                    ==> erased_duplicates(out_map@[x], self@[x]),
                self.wf() ==> forall|j: int|
                    0 <= j < i ==> out_map@.contains_key(self.ids@[j]),
            decreases n - i,
        {
            let k = self.ids[i];
            proof {
                if self.wf() {
                    assert(self.ids@[i as int] == k);
                    assert(self.ids@.contains(k));
                    assert(self@.contains_key(k));
                }
            }
            match self.map.get(&k) {
                None => {
                    proof {
                        if self.wf() {
                            assert(false);
                        }
                    }
                },
                Some(e) => {
                    if erased_has_dup(e) {
                        let d = duplicate_erased(e);
                        let ghost pre_ids = out_ids@;
                        let ghost pre_map = out_map@;
                        let prev = out_map.insert(k, d);
                        if prev.is_none() {
                            out_ids.push(k);
                            proof {
                                lemma_ids_match_insert_new(pre_ids, pre_map, k, out_map@[k]);
                            }
                        } else {
                            proof {
                                lemma_ids_match_insert_existing(pre_ids, pre_map, k, out_map@[k]);
                            }
                        }
                        proof {
                            if self.wf() {
                                assert(erased_id(d) == k && erased_dup(d));
                                assert forall|j: int| 0 <= j < i + 1 implies out_map@.contains_key(
                                    self.ids@[j],
                                ) by {
                                    if j < i {
                                        assert(pre_map.contains_key(self.ids@[j]));
                                    } else {
                                        assert(self.ids@[j] == k);
                                    }
                                }
                            }
                        }
                    } else {
                        proof {
                            if self.wf() {
                                assert(erased_dup(self@[k]));
                                assert(false);
                            }
                        }
                    }
                },
            }
            i = i + 1;
        }
        proof {
            if self.wf() {
                assert forall|x: u64| #[trigger] self@.contains_key(x) implies out_map@.contains_key(
                    x,
                ) by {
                    assert(self.ids@.contains(x));
                    let j = choose|j: int| 0 <= j < self.ids@.len() && self.ids@[j] == x;
                    assert(out_map@.contains_key(self.ids@[j]));
                }
                assert(out_map@.dom() =~= self@.dom());
            }
        }
        CloneableAnyMap { map: out_map, ids: out_ids }
    }
}

/// The duplicable thread-shareable type-erased store: as
/// [`CloneableAnyMapSync`], with every stored value additionally safe to send
/// across and share between threads.
#[derive(Debug)]
pub struct CloneableAnyMapSync {
    map: HashMap<u64, ErasedSync>,
    ids: Vec<u64>,
}

impl View for CloneableAnyMapSync {
    type V = Map<u64, ErasedSync>;

    closed spec fn view(&self) -> Map<u64, ErasedSync> {
        self.map@
    }
}

impl CloneableAnyMapSync {
    /// The identity list holds each stored identity exactly once.
    pub closed spec fn ids_ok(self) -> bool {
        ids_match(self.ids@, self@)
    }

    /// Every entry sits under the identity of the type it hides and carries a
    /// duplication routine, and the identity list matches the entries.
    pub open spec fn wf(self) -> bool {
        wf_dup_sync_map(self@) && self.ids_ok()
    }

    /// An empty store with no pre-allocated capacity.
    pub fn new() -> (r: Self)
        ensures
            r.wf(),
            r@ == Map::<u64, ErasedSync>::empty(),
    {
        CloneableAnyMapSync { map: HashMap::new(), ids: Vec::new() }
    }

    /// An empty store pre-sized for `capacity` entries.
    pub fn with_capacity(capacity: usize) -> (r: Self)
        ensures
            r.wf(),
            r@ == Map::<u64, ErasedSync>::empty(),
    {
        CloneableAnyMapSync { map: HashMap::with_capacity(capacity), ids: Vec::new() }
    }

    /// The number of entries, one per stored type.
    pub fn len(&self) -> (n: usize)
        ensures
            n == self@.len(),
    {
        self.map.len()
    }

    /// Erases `val`, keeping its duplication capability, and stores it under
    /// `T`'s identity, replacing any prior entry for `T`; the replaced value,
    /// recovered to `T`, is returned.
    pub fn insert<T: CloneableAnySync>(&mut self, val: T) -> (r: Option<T>)
        requires
            old(self).wf(),
        ensures
            final(self).wf(),
            final(self)@ == old(self)@.insert(
                type_id_of::<T>(),
                final(self)@[type_id_of::<T>()],
            ),
            erased_id_sync(final(self)@[type_id_of::<T>()]) == type_id_of::<T>(),
            erased_dup_sync(final(self)@[type_id_of::<T>()]),
            erased_val_sync::<T>(final(self)@[type_id_of::<T>()]) == val,
            r is Some <==> old(self)@.contains_key(type_id_of::<T>()),
            r matches Some(x) ==> x == erased_val_sync::<T>(old(self)@[type_id_of::<T>()]),
    {
        let k = runtime_id::<T>();
        let e = erase_dup_sync::<T>(val);
        let prev = self.map.insert(k, e);
        match prev {
            None => {
                self.ids.push(k);
                proof {
                    lemma_ids_match_insert_new(old(self).ids@, old(self)@, k, self@[k]);
                }
                None
            },
            Some(p) => {
                proof {
                    lemma_ids_match_insert_existing(old(self).ids@, old(self)@, k, self@[k]);
                }
                recover_sync::<T>(p)
            },
        }
    }

    /// Borrows the stored value for `T`, if one is present.
    pub fn get<T: CloneableAnySync>(&self) -> (r: Option<&T>)
        requires
            self.wf(),
        ensures
            r is Some <==> self@.contains_key(type_id_of::<T>()),
            r matches Some(x) ==> *x == erased_val_sync::<T>(self@[type_id_of::<T>()]),
    {
        let k = runtime_id::<T>();
        match self.map.get(&k) {
            None => None,
            Some(e) => recover_ref_sync::<T>(e),
        }
    }

    /// Mutably borrows the stored value for `T`, if one is present.
    pub fn get_mut<T: CloneableAnySync>(&mut self) -> (r: Option<&mut T>)
        requires
            old(self).wf(),
        ensures
            final(self).wf(),
            r is Some <==> old(self)@.contains_key(type_id_of::<T>()),
            r is None ==> final(self)@ == old(self)@,
            old(self)@.contains_key(type_id_of::<T>()) ==> final(self)@ == old(self)@.insert(
                type_id_of::<T>(),
                final(self)@[type_id_of::<T>()],
            ),
            r matches Some(x) ==> *x == erased_val_sync::<T>(old(self)@[type_id_of::<T>()]),
            r matches Some(x) ==> erased_val_sync::<T>(final(self)@[type_id_of::<T>()]) == *final(x),
    {
        let k = runtime_id::<T>();
        match map_get_mut(&mut self.map, k) {
            None => None,
            Some(e) => recover_mut_sync::<T>(&mut *e),
        }
    }

    /// Deletes the entry for `T` if present, returning it recovered to `T`.
    pub fn remove<T: CloneableAnySync>(&mut self) -> (r: Option<T>)
        requires
            old(self).wf(),
        ensures
            final(self).wf(),
            final(self)@ == old(self)@.remove(type_id_of::<T>()),
            r is Some <==> old(self)@.contains_key(type_id_of::<T>()),
            r matches Some(x) ==> x == erased_val_sync::<T>(old(self)@[type_id_of::<T>()]),
    {
        let k = runtime_id::<T>();
        let prev = self.map.remove(&k);
        match prev {
            None => {
                proof {
                    lemma_ids_match_remove_absent(old(self).ids@, old(self)@, k);
                }
                None
            },
            Some(p) => {
                proof {
                    assert(self.ids@.contains(k));
                }
                let idx = find_id(&self.ids, k);
                let _removed = self.ids.remove(idx);
                proof {
                    lemma_ids_match_remove(old(self).ids@, old(self)@, idx as int, k);
                }
                recover_sync::<T>(p)
            },
        }
    }

    /// Whether an entry for `T` exists, independent of its value.
    pub fn contains<T: CloneableAnySync>(&self) -> (r: bool)
        ensures
            r == self@.contains_key(type_id_of::<T>()),
    {
        let k = runtime_id::<T>();
        self.map.contains_key(&k)
    }
}

impl Default for CloneableAnyMapSync {
    /// An empty store, as [`CloneableAnyMapSync::new`] builds it.
    fn default() -> (r: Self)
        ensures
            r.wf(),
            r@ == Map::<u64, ErasedSync>::empty(),
    {
        CloneableAnyMapSync::new()
    }
}

impl Clone for CloneableAnyMapSync {
    /// Duplicating the store deep-copies every entry: the copy holds the same
    /// identities, each bound to an independently owned duplicate of the
    /// original entry.
    fn clone(&self) -> (r: Self)
        ensures
            self.wf() ==> r.wf() && r@.dom() == self@.dom(),
            self.wf() ==> forall|k: u64| #[trigger]
                self@.contains_key(k) ==> erased_duplicates_sync(r@[k], self@[k]),
    {
        let n = self.ids.len();
        let mut out_map: HashMap<u64, ErasedSync> = HashMap::with_capacity(n);
        let mut out_ids: Vec<u64> = Vec::new();
        let mut i: usize = 0;
        while i < n
            invariant
                i <= n,
                n == self.ids@.len(),
                ids_match(out_ids@, out_map@),
                self.wf() ==> wf_dup_sync_map(out_map@),
                self.wf() ==> forall|x: u64| #[trigger] out_map@.contains_key(x)
                    ==> self@.contains_key(x),
                self.wf() ==> forall|x: u64| #[trigger] out_map@.contains_key(x)
                    ==> erased_duplicates_sync(out_map@[x], self@[x]),
                self.wf() ==> forall|j: int|
                    0 <= j < i ==> out_map@.contains_key(self.ids@[j]),
            decreases n - i,
        {
            let k = self.ids[i];
            proof {
                if self.wf() {
                    assert(self.ids@[i as int] == k);
                    assert(self.ids@.contains(k));
                    assert(self@.contains_key(k));
                }
            }
            match self.map.get(&k) {
                None => {
                    proof {
                        if self.wf() {
                            assert(false);
                        }
                    }
                },
                Some(e) => {
                    if erased_has_dup_sync(e) {
                        let d = duplicate_erased_sync(e);
                        let ghost pre_ids = out_ids@;
                        let ghost pre_map = out_map@;
                        let prev = out_map.insert(k, d);
                        if prev.is_none() {
                            out_ids.push(k);
                            proof {
                                lemma_ids_match_insert_new(pre_ids, pre_map, k, out_map@[k]);
                            }
                        } else {
                            proof {
                                lemma_ids_match_insert_existing(pre_ids, pre_map, k, out_map@[k]);
                            }
                        }
                        proof {
                            if self.wf() {
                                assert(erased_id_sync(d) == k && erased_dup_sync(d));
                                assert forall|j: int| 0 <= j < i + 1 implies out_map@.contains_key(
                                    self.ids@[j],
                                ) by {
                                    if j < i {
                                        assert(pre_map.contains_key(self.ids@[j]));
                                    } else {
                                        assert(self.ids@[j] == k);
                                    }
                                }
                            }
                        }
                    } else {
                        proof {
                            if self.wf() {
                                assert(erased_dup_sync(self@[k]));
                                assert(false);
                            }
                        }
                    }
                },
            }
            i = i + 1;
        }
        proof {
            if self.wf() {
                assert forall|x: u64| #[trigger] self@.contains_key(x) implies out_map@.contains_key(
                    x,
                ) by {
                    assert(self.ids@.contains(x));
                    let j = choose|j: int| 0 <= j < self.ids@.len() && self.ids@[j] == x;
                    assert(out_map@.contains_key(self.ids@[j]));
                }
                assert(out_map@.dom() =~= self@.dom());
            }
        }
        CloneableAnyMapSync { map: out_map, ids: out_ids }
    }
}

} // verus!
