//! Tables kept as two lists of equal length, a key and its value at the same
//! place, read as a map.

use vstd::prelude::*;

verus! {

/// The map that the two lists stand for: each key with the value at its place.
pub open spec fn assoc<K, V>(keys: Seq<K>, vals: Seq<V>) -> Map<K, V> {
    Map::new(|k: K| keys.contains(k), |k: K| vals[keys.index_of(k)])
}

/// The key at place `i` maps to the value at place `i`.
pub proof fn lemma_assoc_at<K, V>(keys: Seq<K>, vals: Seq<V>, i: int)
    requires
        keys.no_duplicates(),
        0 <= i < keys.len(),
    ensures
        keys.contains(keys[i]),
        keys.index_of(keys[i]) == i,
        assoc(keys, vals).dom().contains(keys[i]),
        assoc(keys, vals)[keys[i]] == vals[i],
{
    assert(keys.contains(keys[i]));
    let j = keys.index_of(keys[i]);
    assert(0 <= j < keys.len() && keys[j] == keys[i]);
}

/// A key that is not in the list is not in the map.
pub proof fn lemma_assoc_absent<K, V>(keys: Seq<K>, vals: Seq<V>, k: K)
    requires
        !keys.contains(k),
    ensures
        !assoc(keys, vals).dom().contains(k),
{
}

/// A new value at place `i` is a new value for the key at that place.
pub proof fn lemma_assoc_update<K, V>(keys: Seq<K>, vals: Seq<V>, i: int, v: V)
    requires
        keys.no_duplicates(),
        keys.len() == vals.len(),
        0 <= i < keys.len(),
    ensures
        assoc(keys, vals.update(i, v)) == assoc(keys, vals).insert(keys[i], v),
{
    let before = assoc(keys, vals);
    let after = assoc(keys, vals.update(i, v));
    lemma_assoc_at(keys, vals, i);
    assert forall|k: K| after.dom().contains(k) <==> before.insert(keys[i], v).dom().contains(
        k,
    ) by {}
    assert forall|k: K| #[trigger] after.dom().contains(k) implies after[k] == before.insert(
        keys[i],
        v,
    )[k] by {
        let j = keys.index_of(k);
        assert(0 <= j < keys.len() && keys[j] == k);
        if k == keys[i] {
            assert(j == i);
        } else {
            assert(j != i);
        }
    }
    assert(after =~= before.insert(keys[i], v));
}

/// A key and a value added at the end are a new entry of the map.
pub proof fn lemma_assoc_push<K, V>(keys: Seq<K>, vals: Seq<V>, k: K, v: V)
    requires
        keys.no_duplicates(),
        keys.len() == vals.len(),
        !keys.contains(k),
    ensures
        keys.push(k).no_duplicates(),
        assoc(keys.push(k), vals.push(v)) == assoc(keys, vals).insert(k, v),
{
    let keys2 = keys.push(k);
    let vals2 = vals.push(v);
    let before = assoc(keys, vals);
    let after = assoc(keys2, vals2);
    assert forall|i: int, j: int|
        0 <= i < keys2.len() && 0 <= j < keys2.len() && i != j implies keys2[i] != keys2[j] by {
        if i < keys.len() && j < keys.len() {
            assert(keys[i] != keys[j]);
        } else if i < keys.len() {
            assert(keys.contains(keys[i]));
        } else {
            assert(keys.contains(keys[j]));
        }
    }
    assert forall|x: K| after.dom().contains(x) <==> before.insert(k, v).dom().contains(x) by {
        if keys2.contains(x) {
            let j = keys2.index_of(x);
            assert(0 <= j < keys2.len() && keys2[j] == x);
            if j < keys.len() {
                assert(keys[j] == x);
                assert(keys.contains(x));
            }
        }
        if keys.contains(x) {
            let j = keys.index_of(x);
            assert(keys2[j] == x);
        }
        if x == k {
            assert(keys2[keys.len() as int] == x);
        }
    }
    assert forall|x: K| #[trigger] after.dom().contains(x) implies after[x] == before.insert(
        k,
        v,
    )[x] by {
        let j = keys2.index_of(x);
        assert(0 <= j < keys2.len() && keys2[j] == x);
        if x == k {
            assert(keys2[keys.len() as int] == k);
            assert(j == keys.len());
        } else {
            assert(j < keys.len());
            assert(keys[j] == x);
            lemma_assoc_at(keys, vals, j);
        }
    }
    assert(after =~= before.insert(k, v));
}

} // verus!
