//! Lookup tables kept as sequences of records, read as maps from each
//! record's key to the last record with that key.
use vstd::prelude::*;

verus! {

/// The map from key to the last record in `s` with that key.
pub open spec fn keyed<T>(s: Seq<T>, key: spec_fn(T) -> Seq<u8>) -> Map<Seq<u8>, T>
    decreases s.len(),
{
    if s.len() == 0 {
        Map::empty()
    } else {
        keyed(s.drop_last(), key).insert(key(s.last()), s.last())
    }
}

/// A record that no later record shares its key with is what the map holds
/// under that key.
pub proof fn lemma_keyed_last_match<T>(s: Seq<T>, key: spec_fn(T) -> Seq<u8>, k: int)
    requires
        0 <= k < s.len(),
        forall|j: int| k < j < s.len() ==> key(#[trigger] s[j]) != key(s[k]),
    ensures
        keyed(s, key).contains_key(key(s[k])),
        keyed(s, key)[key(s[k])] == s[k],
    decreases s.len(),
{
    if k < s.len() - 1 {
        let t = s.drop_last();
        assert forall|j: int| k < j < t.len() implies key(#[trigger] t[j]) != key(t[k]) by {
            assert(t[j] == s[j]);
        }
        lemma_keyed_last_match(t, key, k);
        assert(key(s[s.len() - 1]) != key(s[k]));
    }
}

/// A key that no record has is not in the map.
pub proof fn lemma_keyed_absent<T>(s: Seq<T>, key: spec_fn(T) -> Seq<u8>, id: Seq<u8>)
    requires
        forall|j: int| 0 <= j < s.len() ==> key(#[trigger] s[j]) != id,
    ensures
        !keyed(s, key).contains_key(id),
    decreases s.len(),
{
    if s.len() > 0 {
        let t = s.drop_last();
        assert forall|j: int| 0 <= j < t.len() implies key(#[trigger] t[j]) != id by {
            assert(t[j] == s[j]);
        }
        lemma_keyed_absent(t, key, id);
        assert(key(s[s.len() - 1]) != id);
    }
}

/// Appending a record puts it in the map under its key.
pub proof fn lemma_keyed_push<T>(s: Seq<T>, key: spec_fn(T) -> Seq<u8>, v: T)
    ensures
        keyed(s.push(v), key) == keyed(s, key).insert(key(v), v),
{
    assert(s.push(v).drop_last() =~= s);
}

/// Replacing the last record with a key by another record with that key
/// replaces the map's entry and nothing else.
pub proof fn lemma_keyed_update<T>(s: Seq<T>, key: spec_fn(T) -> Seq<u8>, k: int, v: T)
    requires
        0 <= k < s.len(),
        key(v) == key(s[k]),
        forall|j: int| k < j < s.len() ==> key(#[trigger] s[j]) != key(s[k]),
    ensures
        keyed(s.update(k, v), key) == keyed(s, key).insert(key(v), v),
    decreases s.len(),
{
    let u = s.update(k, v);
    let t = s.drop_last();
    if k == s.len() - 1 {
        assert(u.drop_last() =~= t);
        assert(keyed(u, key) =~= keyed(s, key).insert(key(v), v));
    } else {
        assert(u.drop_last() =~= t.update(k, v));
        assert forall|j: int| k < j < t.len() implies key(#[trigger] t[j]) != key(t[k]) by {
            assert(t[j] == s[j]);
        }
        lemma_keyed_update(t, key, k, v);
        assert(key(s[s.len() - 1]) != key(s[k]));
        assert(u.last() == s.last());
        assert(keyed(u, key) =~= keyed(s, key).insert(key(v), v));
    }
}

} // verus!
