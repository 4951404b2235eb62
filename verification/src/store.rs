//! Association sequences: the mathematical model shared by the ledger's
//! keyed stores. A store is a sequence of (key, value) entries; a key's
//! binding is the value of the first entry carrying it.

use vstd::prelude::*;

verus! {

/// The value bound to `k` in `entries`, going by the first entry whose key
/// matches; `None` when no entry has key `k`.
pub open spec fn assoc_lookup<K, V>(entries: Seq<(K, V)>, k: K) -> Option<V>
    decreases entries.len(),
{
    if entries.len() == 0 {
        None
    } else if entries[0].0 == k {
        Some(entries[0].1)
    } else {
        assoc_lookup(entries.drop_first(), k)
    }
}

/// A scan that first finds `k` at position `i` agrees with `assoc_lookup`.
pub proof fn lemma_assoc_lookup_at<K, V>(entries: Seq<(K, V)>, k: K, i: int)
    requires
        0 <= i < entries.len(),
        entries[i].0 == k,
        forall|j: int| 0 <= j < i ==> entries[j].0 != k,
    ensures
        assoc_lookup(entries, k) == Some(entries[i].1),
    decreases i,
{
    if i > 0 {
        assert(forall|j: int| 0 <= j < i - 1 ==> entries.drop_first()[j].0 != k);
        lemma_assoc_lookup_at(entries.drop_first(), k, i - 1);
    }
}

/// A key that no entry carries has no binding.
pub proof fn lemma_assoc_lookup_absent<K, V>(entries: Seq<(K, V)>, k: K)
    requires
        forall|j: int| 0 <= j < entries.len() ==> entries[j].0 != k,
    ensures
        assoc_lookup(entries, k) is None,
    decreases entries.len(),
{
    if entries.len() > 0 {
        assert(forall|j: int|
            0 <= j < entries.len() - 1 ==> entries.drop_first()[j].0 != k);
        lemma_assoc_lookup_absent(entries.drop_first(), k);
    }
}

/// Appending an entry binds its key when that key was absent, and changes no
/// key that was already bound.
pub proof fn lemma_assoc_lookup_push<K, V>(entries: Seq<(K, V)>, k0: K, v0: V, k: K)
    ensures
        assoc_lookup(entries.push((k0, v0)), k) == (if assoc_lookup(entries, k) is Some {
            assoc_lookup(entries, k)
        } else if k == k0 {
            Some(v0)
        } else {
            None::<V>
        }),
    decreases entries.len(),
{
    let pushed = entries.push((k0, v0));
    if entries.len() == 0 {
        assert(pushed.drop_first() =~= Seq::<(K, V)>::empty());
    } else {
        assert(pushed.drop_first() =~= entries.drop_first().push((k0, v0)));
        lemma_assoc_lookup_push(entries.drop_first(), k0, v0, k);
    }
}

/// Replacing the value of the first entry for its key rebinds exactly that
/// key and leaves every other key's binding as it was.
pub proof fn lemma_assoc_lookup_update<K, V>(entries: Seq<(K, V)>, i: int, v0: V, k: K)
    requires
        0 <= i < entries.len(),
        forall|j: int| 0 <= j < i ==> entries[j].0 != entries[i].0,
    ensures
        assoc_lookup(entries.update(i, (entries[i].0, v0)), k) == (if k == entries[i].0 {
            Some(v0)
        } else {
            assoc_lookup(entries, k)
        }),
    decreases i,
{
    let updated = entries.update(i, (entries[i].0, v0));
    if i == 0 {
        assert(updated.drop_first() =~= entries.drop_first());
    } else {
        assert(updated.drop_first() =~= entries.drop_first().update(
            i - 1,
            (entries[i].0, v0),
        ));
        let rest = entries.drop_first();
        assert(forall|j: int| 0 <= j < i - 1 ==> (#[trigger] rest[j]).0 != rest[i - 1].0);
        lemma_assoc_lookup_update(entries.drop_first(), i - 1, v0, k);
    }
}

} // verus!
