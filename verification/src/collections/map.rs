//! Transforms of the values of a `HashMap` that keep its keys.
use vstd::prelude::*;
use std::collections::HashMap;
use std::hash::{BuildHasher, Hash};
use vstd::std_specs::hash::{builds_valid_hashers, obeys_key_model};

verus! {

/// Whether `entries` lists every entry of `m` exactly once.
pub open spec fn lists_entries<K, V>(entries: Seq<(K, V)>, m: Map<K, V>) -> bool {
    &&& forall|i: int|
        0 <= i < entries.len() ==> m.contains_key((#[trigger] entries[i]).0) && m[entries[i].0]
            == entries[i].1
    &&& forall|i: int, j: int| 0 <= i < j < entries.len() ==> #[trigger] entries[i].0 != #[trigger] entries[j].0
    &&& forall|k: K| #[trigger] m.contains_key(k) ==> exists|i: int| 0 <= i < entries.len() && entries[i].0 == k
}

/// Takes the entries of a map, by value.
///
/// Calls `HashMap::into_iter` and collects what it yields. The contract
/// states what its documentation says: every entry is yielded once. The
/// order is the map's iteration order, which depends on the hasher's state
/// and is left unstated.
#[verifier::external_body]
fn into_entries<K: Eq + Hash, V, S: BuildHasher>(map: HashMap<K, V, S>) -> (entries: Vec<(K, V)>)
    ensures
        obeys_key_model::<K>() && builds_valid_hashers::<S>() ==> lists_entries(entries@, map@),
{
    map.into_iter().collect()
}

/// The hasher builder of a map (`HashMap::hasher`); nothing is stated of it.
#[verifier::external_body]
fn hasher_of<K, V, S>(map: &HashMap<K, V, S>) -> &S {
    map.hasher()
}

/// An empty map with room for `capacity` entries that hashes with `hasher`
/// (`HashMap::with_capacity_and_hasher`, documented to create an empty map).
#[verifier::external_body]
fn empty_with_hasher<K, V, S>(capacity: usize, hasher: S) -> (r: HashMap<K, V, S>)
    ensures
        r@.dom().is_empty(),
{
    HashMap::with_capacity_and_hasher(capacity, hasher)
}

/// Transforms every value of a map while keeping its keys.
///
/// Each value is handed to `transform` once; its key maps to what came back.
/// The result hashes with a clone of the input's hasher builder. What the
/// contract states holds for key types whose `Eq` and `Hash` agree with
/// equality of values (`obeys_key_model`) and hasher builders that build
/// consistent hashers (`builds_valid_hashers`).
pub fn map_values<K: Eq + Hash, V, U, S: BuildHasher + Clone, F: Fn(V) -> U>(
    map: HashMap<K, V, S>,
    transform: F,
) -> (r: HashMap<K, U, S>)
    requires
        forall|v: V| call_requires(transform, (v,)),
    ensures
        obeys_key_model::<K>() && builds_valid_hashers::<S>() ==> {
            &&& forall|k: K| #[trigger] r@.contains_key(k) <==> map@.contains_key(k)
            &&& forall|k: K| r@.contains_key(k) ==> call_ensures(transform, (map@[k],), #[trigger] r@[k])
        },
{
    broadcast use vstd::std_specs::hash::group_hash_axioms;

    let ghost m = map@;
    let hasher = hasher_of(&map).clone();
    let mut output: HashMap<K, U, S> = empty_with_hasher(map.len(), hasher);
    let entries = into_entries(map);
    let ghost es = entries@;
    for entry in it: entries.into_iter()
        invariant
            it.seq() == es,
            forall|v: V| call_requires(transform, (v,)),
            obeys_key_model::<K>() && builds_valid_hashers::<S>() ==> lists_entries(es, m),
            obeys_key_model::<K>() && builds_valid_hashers::<S>() ==> {
                &&& forall|k: K| #[trigger] output@.contains_key(k) <==> exists|i: int|
                    0 <= i < it.index() && es[i].0 == k
                &&& forall|k: K| output@.contains_key(k) ==> call_ensures(transform, (m[k],), #[trigger] output@[k])
            },
    {
        let ghost i = it.index();
        let (key, value) = entry;
        let ghost key0 = key;
        let ghost value0 = value;
        let u = transform(value);
        let ghost u0 = u;
        output.insert(key, u);
        proof {
            if obeys_key_model::<K>() && builds_valid_hashers::<S>() {
                assert(es[i as int] == (key0, value0));
                assert(m[key0] == value0);
                assert(output@[key0] == u0);
                assert(call_ensures(transform, (m[key0],), u0));
                assert forall|k: K| #[trigger] output@.contains_key(k) <==> exists|j: int|
                    0 <= j < i + 1 && es[j].0 == k by {
                    if k == key0 {
                        assert(es[i as int].0 == k);
                    }
                }
            }
        }
    }
    proof {
        if obeys_key_model::<K>() && builds_valid_hashers::<S>() {
            assert forall|k: K| #[trigger] output@.contains_key(k) <==> m.contains_key(k) by {
                if m.contains_key(k) {
                    let j = choose|j: int| 0 <= j < es.len() && es[j].0 == k;
                }
                if output@.contains_key(k) {
                    let j = choose|j: int| 0 <= j < es.len() && es[j].0 == k;
                    assert(m.contains_key(es[j].0));
                }
            }
        }
    }
    output
}

/// Transforms every value of a map, stopping at the first error.
///
/// Values are handed to `transform` in the map's iteration order, which is
/// unspecified; the first error is returned and the partly built map is
/// dropped. On success every key maps to its transformed value, in a map
/// that hashes with a clone of the input's hasher builder. What the contract
/// states holds for key types whose `Eq` and `Hash` agree with equality of
/// values (`obeys_key_model`) and hasher builders that build consistent
/// hashers (`builds_valid_hashers`).
pub fn try_map_values<K: Eq + Hash, V, U, E, S: BuildHasher + Clone, F: Fn(V) -> Result<U, E>>(
    map: HashMap<K, V, S>,
    transform: F,
) -> (r: Result<HashMap<K, U, S>, E>)
    requires
        forall|v: V| call_requires(transform, (v,)),
    ensures
        obeys_key_model::<K>() && builds_valid_hashers::<S>() ==> match r {
            Ok(out) => {
                &&& forall|k: K| #[trigger] out@.contains_key(k) <==> map@.contains_key(k)
                &&& forall|k: K|
                    out@.contains_key(k) ==> call_ensures(
                        transform,
                        (map@[k],),
                        Ok::<U, E>(#[trigger] out@[k]),
                    )
            },
            Err(e) => exists|k: K|
                #[trigger] map@.contains_key(k) && call_ensures(transform, (map@[k],), Err::<U, E>(e)),
        },
{
    broadcast use vstd::std_specs::hash::group_hash_axioms;

    let ghost m = map@;
    let hasher = hasher_of(&map).clone();
    let mut output: HashMap<K, U, S> = empty_with_hasher(map.len(), hasher);
    let entries = into_entries(map);
    let ghost es = entries@;
    for entry in it: entries.into_iter()
        invariant
            m == map@,
            it.seq() == es,
            forall|v: V| call_requires(transform, (v,)),
            obeys_key_model::<K>() && builds_valid_hashers::<S>() ==> lists_entries(es, m),
            obeys_key_model::<K>() && builds_valid_hashers::<S>() ==> {
                &&& forall|k: K| #[trigger] output@.contains_key(k) <==> exists|i: int|
                    0 <= i < it.index() && es[i].0 == k
                &&& forall|k: K|
                    output@.contains_key(k) ==> call_ensures(
                        transform,
                        (m[k],),
                        Ok::<U, E>(#[trigger] output@[k]),
                    )
            },
    {
        let ghost i = it.index();
        let (key, value) = entry;
        let ghost key0 = key;
        let ghost value0 = value;
        let outcome = transform(value);
        let ghost outcome0 = outcome;
        match outcome {
            Ok(u) => {
                output.insert(key, u);
                proof {
                    if obeys_key_model::<K>() && builds_valid_hashers::<S>() {
                        assert(es[i as int] == (key0, value0));
                        assert(m[key0] == value0);
                        assert forall|k: K| #[trigger] output@.contains_key(k) <==> exists|j: int|
                            0 <= j < i + 1 && es[j].0 == k by {
                            if k == key0 {
                                assert(es[i as int].0 == k);
                            }
                        }
                    }
                }
            },
            Err(e) => {
                proof {
                    if obeys_key_model::<K>() && builds_valid_hashers::<S>() {
                        assert(es[i as int] == (key0, value0));
                        assert(m.contains_key(key0));
                        assert(m[key0] == value0);
                        assert(outcome0 == Err::<U, E>(e));
                        assert(call_ensures(transform, (m[key0],), Err::<U, E>(e)));
                    }
                }
                return Err(e);
            },
        }
    }
    proof {
        if obeys_key_model::<K>() && builds_valid_hashers::<S>() {
            assert forall|k: K| #[trigger] output@.contains_key(k) <==> m.contains_key(k) by {
                if m.contains_key(k) {
                    let j = choose|j: int| 0 <= j < es.len() && es[j].0 == k;
                }
                if output@.contains_key(k) {
                    let j = choose|j: int| 0 <= j < es.len() && es[j].0 == k;
                    assert(m.contains_key(es[j].0));
                }
            }
        }
    }
    Ok(output)
}

} // verus!
