//! Lists of entries keyed by strings, with at most one entry per key.
use vstd::prelude::*;

verus! {

/// The value kept under `key` (the last entry holding it).
pub open spec fn lookup<V>(entries: Seq<(Seq<char>, V)>, key: Seq<char>) -> Option<V>
    decreases entries.len(),
{
    if entries.len() == 0 {
        None
    } else if entries.last().0 == key {
        Some(entries.last().1)
    } else {
        lookup(entries.drop_last(), key)
    }
}

/// Whether no key occurs twice.
pub open spec fn distinct_keys<V>(entries: Seq<(Seq<char>, V)>) -> bool {
    forall|i: int, j: int| 0 <= i < j < entries.len() ==> (#[trigger] entries[i]).0 != (#[trigger] entries[j]).0
}

/// In a list with distinct keys, `lookup` finds the entry holding the key.
pub proof fn lemma_lookup_distinct<V>(entries: Seq<(Seq<char>, V)>)
    requires
        distinct_keys(entries),
    ensures
        forall|i: int| 0 <= i < entries.len() ==> lookup(entries, (#[trigger] entries[i]).0) == Some(entries[i].1),
    decreases entries.len(),
{
    if entries.len() > 0 {
        let d = entries.drop_last();
        assert forall|a: int, b: int| 0 <= a < b < d.len() implies (#[trigger] d[a]).0 != (#[trigger] d[b]).0 by {
            assert(entries[a].0 != entries[b].0);
        }
        lemma_lookup_distinct(d);
        assert forall|i: int| 0 <= i < entries.len() implies lookup(entries, (#[trigger] entries[i]).0) == Some(
            entries[i].1,
        ) by {
            if i < entries.len() - 1 {
                assert(entries[i].0 != entries.last().0);
                assert(d[i] == entries[i]);
            }
        }
    }
}

/// A key no entry holds is not found.
pub proof fn lemma_lookup_absent<V>(entries: Seq<(Seq<char>, V)>, key: Seq<char>)
    requires
        forall|i: int| 0 <= i < entries.len() ==> (#[trigger] entries[i]).0 != key,
    ensures
        lookup(entries, key) is None,
    decreases entries.len(),
{
    if entries.len() > 0 {
        let d = entries.drop_last();
        assert forall|i: int| 0 <= i < d.len() implies (#[trigger] d[i]).0 != key by {
            assert(d[i] == entries[i]);
        }
        lemma_lookup_absent(d, key);
    }
}

/// Replacing the state at an entry changes only that key.
pub proof fn lemma_lookup_update<V>(entries: Seq<(Seq<char>, V)>, i: int, key: Seq<char>, a: V)
    requires
        distinct_keys(entries),
        0 <= i < entries.len(),
        entries[i].0 == key,
    ensures
        lookup(entries.update(i, (key, a)), key) == Some(a),
        forall|k: Seq<char>| k != key ==> lookup(entries.update(i, (key, a)), k) == lookup(entries, k),
    decreases entries.len(),
{
    let u = entries.update(i, (key, a));
    if i == entries.len() - 1 {
        assert(u.drop_last() =~= entries.drop_last());
        assert forall|k: Seq<char>| k != key implies lookup(u, k) == lookup(entries, k) by {
            assert(u.last().0 == key);
            assert(entries.last().0 == key);
        }
    } else {
        let d = entries.drop_last();
        assert forall|x: int, y: int| 0 <= x < y < d.len() implies (#[trigger] d[x]).0 != (#[trigger] d[y]).0 by {
            assert(entries[x].0 != entries[y].0);
        }
        assert(u.drop_last() =~= d.update(i, (key, a)));
        lemma_lookup_update(d, i, key, a);
        assert(entries.last().0 != key);
        assert(u.last() == entries.last());
        assert forall|k: Seq<char>| k != key implies lookup(u, k) == lookup(entries, k) by {
            assert(lookup(d.update(i, (key, a)), k) == lookup(d, k));
        }
    }
}

/// Removing an entry forgets its key and changes nothing else.
pub proof fn lemma_lookup_remove<V>(entries: Seq<(Seq<char>, V)>, i: int)
    requires
        distinct_keys(entries),
        0 <= i < entries.len(),
    ensures
        lookup(entries.remove(i), entries[i].0) is None,
        forall|k: Seq<char>| k != entries[i].0 ==> lookup(entries.remove(i), k) == lookup(entries, k),
    decreases entries.len(),
{
    let r = entries.remove(i);
    let key = entries[i].0;
    if i == entries.len() - 1 {
        assert(r =~= entries.drop_last());
        assert forall|j: int| 0 <= j < r.len() implies (#[trigger] r[j]).0 != key by {
            assert(entries[j].0 != entries[i].0);
        }
        lemma_lookup_absent(r, key);
        assert forall|k: Seq<char>| k != key implies lookup(r, k) == lookup(entries, k) by {
            assert(entries.last().0 == key);
        }
    } else {
        let d = entries.drop_last();
        assert forall|x: int, y: int| 0 <= x < y < d.len() implies (#[trigger] d[x]).0 != (#[trigger] d[y]).0 by {
            assert(entries[x].0 != entries[y].0);
        }
        assert(r.drop_last() =~= d.remove(i));
        assert(r.last() == entries.last());
        lemma_lookup_remove(d, i);
        assert(d[i] == entries[i]);
        assert(entries.last().0 != key);
        assert forall|k: Seq<char>| k != key implies lookup(r, k) == lookup(entries, k) by {
            assert(lookup(d.remove(i), k) == lookup(d, k));
        }
    }
}


/// Inserting an entry with a fresh key at any position adds that key and
/// changes nothing else.
pub proof fn lemma_lookup_insert<V>(entries: Seq<(Seq<char>, V)>, i: int, key: Seq<char>, a: V)
    requires
        0 <= i <= entries.len(),
        forall|j: int| 0 <= j < entries.len() ==> (#[trigger] entries[j]).0 != key,
    ensures
        lookup(entries.insert(i, (key, a)), key) == Some(a),
        forall|k: Seq<char>| k != key ==> lookup(entries.insert(i, (key, a)), k) == lookup(entries, k),
    decreases entries.len(),
{
    let n = entries.insert(i, (key, a));
    if i == entries.len() {
        assert(n.drop_last() =~= entries);
        assert forall|k: Seq<char>| k != key implies lookup(n, k) == lookup(entries, k) by {
            assert(n.last().0 == key);
        }
    } else {
        let d = entries.drop_last();
        assert forall|j: int| 0 <= j < d.len() implies (#[trigger] d[j]).0 != key by {
            assert(d[j] == entries[j]);
        }
        assert(n.drop_last() =~= d.insert(i, (key, a)));
        assert(n.last() == entries.last());
        lemma_lookup_insert(d, i, key, a);
        assert(entries.last().0 != key);
        assert forall|k: Seq<char>| k != key implies lookup(n, k) == lookup(entries, k) by {
            assert(lookup(d.insert(i, (key, a)), k) == lookup(d, k));
        }
    }
}

} // verus!
