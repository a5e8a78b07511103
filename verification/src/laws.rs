//! The library's general laws, stated once over the store model that every
//! variant's contracts use: a mathematical map from 64-bit type identities to
//! stored values.
//!
//! Each store operation's contract describes its effect on that model, so
//! these laws, together with those contracts, describe sequences of
//! operations on any store or wrapper variant. The laws that concern the
//! deferred-allocation wrappers alone (no allocation before the first
//! insertion; reads on an unallocated wrapper behave as on an empty store and
//! change nothing) are stated directly in the wrappers' contracts.

use vstd::prelude::*;

verus! {

/// Storing a value under an identity makes a lookup for that identity
/// succeed, and the slot then holds exactly the stored value.
pub proof fn lemma_insert_then_get<V>(m: Map<u64, V>, k: u64, e: V)
    ensures
        m.insert(k, e).contains_key(k),
        m.insert(k, e)[k] == e,
{
}

/// A second insertion under the same identity replaces the first: the store
/// keeps a single slot per identity, the second insertion finds that slot
/// occupied, and a subsequent lookup sees only the later value.
pub proof fn lemma_insert_replaces<V>(m: Map<u64, V>, k: u64, e1: V, e2: V)
    ensures
        m.insert(k, e1).contains_key(k),
        m.insert(k, e1).insert(k, e2) == m.insert(k, e2),
        m.insert(k, e1).insert(k, e2)[k] == e2,
{
    assert(m.insert(k, e1).insert(k, e2) =~= m.insert(k, e2));
}

/// An identity is absent before its first insertion, present immediately
/// after it, and absent again immediately after its removal.
pub proof fn lemma_contains_lifecycle<V>(m: Map<u64, V>, k: u64, e: V)
    requires
        !m.contains_key(k),
    ensures
        m.insert(k, e).contains_key(k),
        !m.insert(k, e).remove(k).contains_key(k),
{
}

/// Removing an identity that was never stored leaves the store unchanged.
pub proof fn lemma_remove_absent<V>(m: Map<u64, V>, k: u64)
    requires
        !m.contains_key(k),
    ensures
        m.remove(k) == m,
{
    assert(m.remove(k) =~= m);
}

} // verus!
