//! The mathematical model shared by the store variants: well-formedness of a
//! store's view, and how the map operations preserve it.

use vstd::prelude::*;

verus! {

use crate::erased::ErasedAny;
use crate::erased::ErasedSync;
use crate::erased::erased_dup;
use crate::erased::erased_dup_sync;
use crate::erased::erased_id;
use crate::erased::erased_id_sync;

/// Well-formedness of a store model: every entry sits under the identity of
/// the type it hides.
pub open spec fn wf_map(m: Map<u64, ErasedAny>) -> bool {
    forall|k: u64| #[trigger] m.contains_key(k) ==> erased_id(m[k]) == k
}

/// Well-formedness of a duplicable store model: as [`wf_map`], and every
/// entry carries a duplication routine.
pub open spec fn wf_dup_map(m: Map<u64, ErasedAny>) -> bool {
    forall|k: u64|
        #[trigger] m.contains_key(k) ==> erased_id(m[k]) == k && erased_dup(m[k])
}

/// Storing a value under its own identity keeps a store model well formed.
pub broadcast proof fn lemma_wf_map_insert(m: Map<u64, ErasedAny>, k: u64, e: ErasedAny)
    requires
        wf_map(m),
        erased_id(e) == k,
    ensures
        #[trigger] wf_map(m.insert(k, e)),
{
    assert forall|k2: u64| #[trigger] m.insert(k, e).contains_key(k2) implies erased_id(
        m.insert(k, e)[k2],
    ) == k2 by {
        if k2 != k {
            assert(m.contains_key(k2));
        }
    }
}

/// Deleting an entry keeps a store model well formed.
pub broadcast proof fn lemma_wf_map_remove(m: Map<u64, ErasedAny>, k: u64)
    requires
        wf_map(m),
    ensures
        #[trigger] wf_map(m.remove(k)),
{
    assert forall|k2: u64| #[trigger] m.remove(k).contains_key(k2) implies erased_id(
        m.remove(k)[k2],
    ) == k2 by {
        assert(m.contains_key(k2));
    }
}

/// Storing a duplicable value under its own identity keeps a duplicable
/// store model well formed.
pub broadcast proof fn lemma_wf_dup_map_insert(m: Map<u64, ErasedAny>, k: u64, e: ErasedAny)
    requires
        wf_dup_map(m),
        erased_id(e) == k,
        erased_dup(e),
    ensures
        #[trigger] wf_dup_map(m.insert(k, e)),
{
    assert forall|k2: u64| #[trigger] m.insert(k, e).contains_key(k2) implies erased_id(
        m.insert(k, e)[k2],
    ) == k2 && erased_dup(m.insert(k, e)[k2]) by {
        if k2 != k {
            assert(m.contains_key(k2));
        }
    }
}

/// Deleting an entry keeps a duplicable store model well formed.
pub broadcast proof fn lemma_wf_dup_map_remove(m: Map<u64, ErasedAny>, k: u64)
    requires
        wf_dup_map(m),
    ensures
        #[trigger] wf_dup_map(m.remove(k)),
{
    assert forall|k2: u64| #[trigger] m.remove(k).contains_key(k2) implies erased_id(
        m.remove(k)[k2],
    ) == k2 && erased_dup(m.remove(k)[k2]) by {
        assert(m.contains_key(k2));
    }
}

/// Well-formedness of a thread-shareable store model: every entry sits under
/// the identity of the type it hides.
pub open spec fn wf_sync_map(m: Map<u64, ErasedSync>) -> bool {
    forall|k: u64| #[trigger] m.contains_key(k) ==> erased_id_sync(m[k]) == k
}

/// Well-formedness of a duplicable thread-shareable store model: as
/// [`wf_sync_map`], and every entry carries a duplication routine.
pub open spec fn wf_dup_sync_map(m: Map<u64, ErasedSync>) -> bool {
    forall|k: u64|
        #[trigger] m.contains_key(k) ==> erased_id_sync(m[k]) == k && erased_dup_sync(m[k])
}

/// Storing a value under its own identity keeps a thread-shareable store
/// model well formed.
pub broadcast proof fn lemma_wf_sync_map_insert(m: Map<u64, ErasedSync>, k: u64, e: ErasedSync)
    requires
        wf_sync_map(m),
        erased_id_sync(e) == k,
    ensures
        #[trigger] wf_sync_map(m.insert(k, e)),
{
    assert forall|k2: u64| #[trigger] m.insert(k, e).contains_key(k2) implies erased_id_sync(
        m.insert(k, e)[k2],
    ) == k2 by {
        if k2 != k {
            assert(m.contains_key(k2));
        }
    }
}

/// Deleting an entry keeps a thread-shareable store model well formed.
pub broadcast proof fn lemma_wf_sync_map_remove(m: Map<u64, ErasedSync>, k: u64)
    requires
        wf_sync_map(m),
    ensures
        #[trigger] wf_sync_map(m.remove(k)),
{
    assert forall|k2: u64| #[trigger] m.remove(k).contains_key(k2) implies erased_id_sync(
        m.remove(k)[k2],
    ) == k2 by {
        assert(m.contains_key(k2));
    }
}

/// Storing a duplicable value under its own identity keeps a duplicable
/// thread-shareable store model well formed.
pub broadcast proof fn lemma_wf_dup_sync_map_insert(m: Map<u64, ErasedSync>, k: u64, e: ErasedSync)
    requires
        wf_dup_sync_map(m),
        erased_id_sync(e) == k,
        erased_dup_sync(e),
    ensures
        #[trigger] wf_dup_sync_map(m.insert(k, e)),
{
    assert forall|k2: u64| #[trigger] m.insert(k, e).contains_key(k2) implies erased_id_sync(
        m.insert(k, e)[k2],
    ) == k2 && erased_dup_sync(m.insert(k, e)[k2]) by {
        if k2 != k {
            assert(m.contains_key(k2));
        }
    }
}

/// Deleting an entry keeps a duplicable thread-shareable store model well
/// formed.
pub broadcast proof fn lemma_wf_dup_sync_map_remove(m: Map<u64, ErasedSync>, k: u64)
    requires
        wf_dup_sync_map(m),
    ensures
        #[trigger] wf_dup_sync_map(m.remove(k)),
{
    assert forall|k2: u64| #[trigger] m.remove(k).contains_key(k2) implies erased_id_sync(
        m.remove(k)[k2],
    ) == k2 && erased_dup_sync(m.remove(k)[k2]) by {
        assert(m.contains_key(k2));
    }
}

/// An identity list matches a store model when it holds exactly the model's
/// identities, each once.
pub open spec fn ids_match<V>(ids: Seq<u64>, m: Map<u64, V>) -> bool {
    &&& ids.no_duplicates()
    &&& forall|k: u64| #[trigger] ids.contains(k) <==> m.contains_key(k)
}

/// Inserting at an identity the model already holds leaves a matching
/// identity list matching.
pub proof fn lemma_ids_match_insert_existing<V>(ids: Seq<u64>, m: Map<u64, V>, k: u64, e: V)
    requires
        ids_match(ids, m),
        m.contains_key(k),
    ensures
        ids_match(ids, m.insert(k, e)),
{
    assert forall|k2: u64| #[trigger] ids.contains(k2) <==> m.insert(k, e).contains_key(k2) by {
        assert(ids.contains(k2) <==> m.contains_key(k2));
    }
}

/// Appending a fresh identity tracks its insertion into the model.
pub proof fn lemma_ids_match_insert_new<V>(ids: Seq<u64>, m: Map<u64, V>, k: u64, e: V)
    requires
        ids_match(ids, m),
        !m.contains_key(k),
    ensures
        ids_match(ids.push(k), m.insert(k, e)),
{
    lemma_ids_push(ids, k);
    assert forall|k2: u64| #[trigger] ids.push(k).contains(k2) <==> m.insert(
        k,
        e,
    ).contains_key(k2) by {
        assert(ids.contains(k2) <==> m.contains_key(k2));
    }
}

/// Deleting the position holding an identity tracks its removal from the
/// model.
pub proof fn lemma_ids_match_remove<V>(ids: Seq<u64>, m: Map<u64, V>, i: int, k: u64)
    requires
        ids_match(ids, m),
        0 <= i < ids.len(),
        ids[i] == k,
    ensures
        ids_match(ids.remove(i), m.remove(k)),
{
    lemma_ids_remove(ids, i, k);
    assert forall|k2: u64| #[trigger] ids.remove(i).contains(k2) <==> m.remove(k).contains_key(
        k2,
    ) by {
        assert(ids.remove(i).contains(k2) <==> ids.contains(k2) && k2 != k);
        assert(ids.contains(k2) <==> m.contains_key(k2));
    }
}

/// Removing an absent identity leaves a matching identity list matching.
pub proof fn lemma_ids_match_remove_absent<V>(ids: Seq<u64>, m: Map<u64, V>, k: u64)
    requires
        ids_match(ids, m),
        !m.contains_key(k),
    ensures
        ids_match(ids, m.remove(k)),
{
    assert forall|k2: u64| #[trigger] ids.contains(k2) <==> m.remove(k).contains_key(k2) by {
        assert(ids.contains(k2) <==> m.contains_key(k2));
    }
}

/// Appending a fresh identity keeps an identity list duplicate-free, and the
/// list then holds exactly the old identities and the new one.
proof fn lemma_ids_push(s: Seq<u64>, k: u64)
    requires
        s.no_duplicates(),
        !s.contains(k),
    ensures
        s.push(k).no_duplicates(),
        forall|x: u64| #[trigger] s.push(k).contains(x) <==> s.contains(x) || x == k,
{
    broadcast use vstd::seq_lib::lemma_seq_contains_after_push;

    assert forall|i: int, j: int|
        (0 <= i < s.push(k).len() && 0 <= j < s.push(k).len() && i != j) implies s.push(k)[i]
        != s.push(k)[j] by {
        if i == s.len() {
            if s.push(k)[j] == k {
                assert(s[j] == k);
            }
        } else if j == s.len() {
            if s.push(k)[i] == k {
                assert(s[i] == k);
            }
        }
    }
}

/// Deleting the one position holding an identity from a duplicate-free list
/// keeps it duplicate-free, and the list then holds exactly the other
/// identities.
proof fn lemma_ids_remove(s: Seq<u64>, i: int, k: u64)
    requires
        s.no_duplicates(),
        0 <= i < s.len(),
        s[i] == k,
    ensures
        s.remove(i).no_duplicates(),
        forall|x: u64| #[trigger] s.remove(i).contains(x) <==> s.contains(x) && x != k,
{
    let t = s.remove(i);
    assert forall|j1: int, j2: int|
        (0 <= j1 < t.len() && 0 <= j2 < t.len() && j1 != j2) implies t[j1] != t[j2] by {
        let m1: int = if j1 < i {
            j1
        } else {
            j1 + 1
        };
        let m2: int = if j2 < i {
            j2
        } else {
            j2 + 1
        };
        assert(t[j1] == s[m1]);
        assert(t[j2] == s[m2]);
    }
    assert forall|x: u64| #[trigger] t.contains(x) implies s.contains(x) && x != k by {
        let j = choose|j: int| 0 <= j < t.len() && t[j] == x;
        let mj: int = if j < i {
            j
        } else {
            j + 1
        };
        assert(t[j] == s[mj]);
        assert(s[mj] == x && mj != i);
    }
    assert forall|x: u64| s.contains(x) && x != k implies #[trigger] t.contains(x) by {
        let j = choose|j: int| 0 <= j < s.len() && s[j] == x;
        let tj: int = if j < i {
            j
        } else {
            j - 1
        };
        assert(t[tj] == s[j]);
    }
}

} // verus!
