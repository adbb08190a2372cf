//! Viewing a sequence of keyed entries as a finite map.
//!
//! The ledger stores its entries in vectors; contracts speak of them as maps
//! from identifier to entry.  `key_map` is that abstraction, and the lemmas
//! here relate the vector operations (push, remove) to map operations
//! (insert, remove) whenever the keys are unique.

use vstd::prelude::*;

verus! {

/// The map that a sequence of entries denotes, keyed by `key`.  A later
/// entry with the same key overrides an earlier one; under `unique_keys`
/// that never happens.
pub open spec fn key_map<K, V>(s: Seq<V>, key: spec_fn(V) -> K) -> Map<K, V>
    decreases s.len(),
{
    if s.len() == 0 {
        Map::empty()
    } else {
        key_map(s.drop_last(), key).insert(key(s.last()), s.last())
    }
}

/// No two entries of `s` share a key.
pub open spec fn unique_keys<K, V>(s: Seq<V>, key: spec_fn(V) -> K) -> bool {
    forall|i: int, j: int| 0 <= i < j < s.len() ==> key(s[i]) != key(s[j])
}

/// A key is in the map exactly when some entry carries it.
pub proof fn lemma_key_map_contains<K, V>(s: Seq<V>, key: spec_fn(V) -> K, k: K)
    ensures
        key_map(s, key).contains_key(k) <==> exists|i: int| 0 <= i < s.len() && key(s[i]) == k,
    decreases s.len(),
{
    if s.len() > 0 {
        lemma_key_map_contains(s.drop_last(), key, k);
        if key(s.last()) == k {
            assert(key(s[s.len() - 1]) == k);
        } else if key_map(s, key).contains_key(k) {
            let i = choose|i: int| 0 <= i < s.drop_last().len() && key(s.drop_last()[i]) == k;
            assert(key(s[i]) == k);
        } else if exists|i: int| 0 <= i < s.len() && key(s[i]) == k {
            let i = choose|i: int| 0 <= i < s.len() && key(s[i]) == k;
            assert(key(s.drop_last()[i]) == k);
        }
    }
}

/// Under unique keys, the map sends each entry's key to that entry.
pub proof fn lemma_key_map_index<K, V>(s: Seq<V>, key: spec_fn(V) -> K, i: int)
    requires
        unique_keys(s, key),
        0 <= i < s.len(),
    ensures
        key_map(s, key).contains_key(key(s[i])),
        key_map(s, key)[key(s[i])] == s[i],
    decreases s.len(),
{
    if i == s.len() - 1 {
    } else {
        lemma_key_map_index(s.drop_last(), key, i);
        assert(s.drop_last()[i] == s[i]);
    }
}

/// Pushing an entry inserts it into the map.
pub proof fn lemma_key_map_push<K, V>(s: Seq<V>, key: spec_fn(V) -> K, v: V)
    ensures
        key_map(s.push(v), key) == key_map(s, key).insert(key(v), v),
{
    assert(s.push(v).drop_last() =~= s);
    assert(s.push(v).last() == v);
}

/// Under unique keys, removing the entry at `i` removes its key from the map.
pub proof fn lemma_key_map_remove<K, V>(s: Seq<V>, key: spec_fn(V) -> K, i: int)
    requires
        unique_keys(s, key),
        0 <= i < s.len(),
    ensures
        key_map(s.remove(i), key) == key_map(s, key).remove(key(s[i])),
    decreases s.len(),
{
    lemma_key_map_contains(s.drop_last(), key, key(s.last()));
    if i == s.len() - 1 {
        assert(s.remove(i) =~= s.drop_last());
        assert(!key_map(s.drop_last(), key).contains_key(key(s.last())));
        assert(key_map(s.drop_last(), key).insert(key(s.last()), s.last()).remove(key(s.last()))
            =~= key_map(s.drop_last(), key));
    } else {
        assert(unique_keys(s.drop_last(), key));
        lemma_key_map_remove(s.drop_last(), key, i);
        assert(s.remove(i).drop_last() =~= s.drop_last().remove(i));
        assert(s.remove(i).last() == s.last());
        // the removed key differs from the last entry's key
        assert(key(s[i]) != key(s.last()));
        assert(key_map(s.drop_last(), key).remove(key(s[i])).insert(key(s.last()), s.last())
            =~= key_map(s.drop_last(), key).insert(key(s.last()), s.last()).remove(key(s[i])));
        assert(key_map(s.remove(i), key)
            == key_map(s.drop_last().remove(i), key).insert(key(s.remove(i).last()), s.remove(i).last()));
    }
}

/// Removing an entry keeps the keys unique.
pub proof fn lemma_unique_keys_remove<K, V>(s: Seq<V>, key: spec_fn(V) -> K, i: int)
    requires
        unique_keys(s, key),
        0 <= i < s.len(),
    ensures
        unique_keys(s.remove(i), key),
{
    assert forall|a: int, b: int| 0 <= a < b < s.remove(i).len() implies key(s.remove(i)[a])
        != key(s.remove(i)[b]) by {
        let a0 = if a < i { a } else { a + 1 };
        let b0 = if b < i { b } else { b + 1 };
        assert(s.remove(i)[a] == s[a0]);
        assert(s.remove(i)[b] == s[b0]);
    }
}

/// Pushing an entry with a fresh key keeps the keys unique.
pub proof fn lemma_unique_keys_push<K, V>(s: Seq<V>, key: spec_fn(V) -> K, v: V)
    requires
        unique_keys(s, key),
        !key_map(s, key).contains_key(key(v)),
    ensures
        unique_keys(s.push(v), key),
{
    lemma_key_map_contains(s, key, key(v));
    assert forall|a: int, b: int| 0 <= a < b < s.push(v).len() implies key(s.push(v)[a])
        != key(s.push(v)[b]) by {
        if b == s.len() {
            assert(s.push(v)[a] == s[a]);
        } else {
            assert(s.push(v)[a] == s[a]);
            assert(s.push(v)[b] == s[b]);
        }
    }
}

} // verus!
