//! Sequences of keyed records read as maps.
//!
//! The ledgers keep their records in a vector in which no key occurs twice.
//! This module says which map such a sequence stands for, and how the map
//! changes when a record is replaced or appended.

use vstd::prelude::*;

verus! {

/// Whether some record of `s` has the key `k`.
pub open spec fn has_key<K, V>(s: Seq<(K, V)>, k: K) -> bool {
    exists|i: int| 0 <= i < s.len() && (#[trigger] s[i]).0 == k
}

/// The place of a record with the key `k`, if there is one.
pub open spec fn position<K, V>(s: Seq<(K, V)>, k: K) -> int {
    choose|i: int| 0 <= i < s.len() && (#[trigger] s[i]).0 == k
}

/// No key occurs in two records of `s`.
pub open spec fn distinct_keys<K, V>(s: Seq<(K, V)>) -> bool {
    forall|i: int, j: int|
        0 <= i < j < s.len() ==> (#[trigger] s[i]).0 != (#[trigger] s[j]).0
}

/// The map that sends each key of `s` to the value recorded with it.
pub open spec fn to_map<K, V>(s: Seq<(K, V)>) -> Map<K, V> {
    Map::new(|k: K| has_key(s, k), |k: K| s[position(s, k)].1)
}

/// The record at place `i` is what the map holds for its key.
pub proof fn lemma_record_in_map<K, V>(s: Seq<(K, V)>, i: int)
    requires
        distinct_keys(s),
        0 <= i < s.len(),
    ensures
        to_map(s).contains_key(s[i].0),
        to_map(s)[s[i].0] == s[i].1,
{
}

/// Replacing the value of the record at place `i` replaces the value that
/// the map holds for its key, and nothing else.
pub proof fn lemma_replace_record<K, V>(s: Seq<(K, V)>, i: int, v: V)
    requires
        distinct_keys(s),
        0 <= i < s.len(),
    ensures
        distinct_keys(s.update(i, (s[i].0, v))),
        to_map(s.update(i, (s[i].0, v))) == to_map(s).insert(s[i].0, v),
{
    let k = s[i].0;
    let t = s.update(i, (k, v));
    assert forall|key: K| has_key(t, key) <==> has_key(s, key) by {
        if has_key(s, key) {
            assert(t[position(s, key)].0 == key);
        }
    }
}

/// Appending a record with a new key adds that key and value to the map,
/// and nothing else.
pub proof fn lemma_append_record<K, V>(s: Seq<(K, V)>, k: K, v: V)
    requires
        distinct_keys(s),
        !has_key(s, k),
    ensures
        distinct_keys(s.push((k, v))),
        to_map(s.push((k, v))) == to_map(s).insert(k, v),
{
    let t = s.push((k, v));
    assert(t[s.len() as int].0 == k);
    assert forall|key: K| has_key(t, key) <==> (key == k || has_key(s, key)) by {
        if has_key(s, key) {
            assert(t[position(s, key)].0 == key);
        }
    }
}

/// The map of a sequence has finitely many keys.
pub proof fn lemma_map_is_finite<K, V>(s: Seq<(K, V)>)
    requires
        distinct_keys(s),
    ensures
        to_map(s).dom().finite(),
    decreases s.len(),
{
    if s.len() == 0 {
        assert(to_map(s).dom() =~= Set::<K>::empty());
    } else {
        let front = s.drop_last();
        let last = s.last();
        lemma_map_is_finite(front);
        lemma_append_record(front, last.0, last.1);
        assert(front.push((last.0, last.1)) =~= s);
    }
}

} // verus!
