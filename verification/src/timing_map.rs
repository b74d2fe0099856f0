//! A `BTreeMap<String, Duration>` seen as a map from key text to nanoseconds.
//!
//! vstd specifies `BTreeMap` only for keys whose `Ord` it knows to be lawful,
//! which `String` is not among; the few operations the library needs are
//! therefore given contracts here, over one name for what such a map holds.
use crate::duration::duration_as_nanos;
use std::collections::BTreeMap;
use std::time::Duration;
use vstd::prelude::*;

verus! {

/// What a `BTreeMap<String, Duration>` holds: each key's text mapped to the
/// length of its duration in nanoseconds.
pub uninterp spec fn timing_map(m: BTreeMap<String, Duration>) -> Map<Seq<char>, u128>;

/// `BTreeMap::new`: a map that holds nothing.
#[verifier::external_body]
pub(crate) fn empty_timing_map() -> (empty: BTreeMap<String, Duration>)
    ensures
        timing_map(empty).dom() == Set::<Seq<char>>::empty(),
{
    BTreeMap::new()
}

/// `BTreeMap::insert`: afterwards `key` maps to `value`, replacing what an
/// equal key mapped to before; every other key keeps its value. `String`
/// orders by content, so keys are equal exactly when their texts are.
#[verifier::external_body]
pub(crate) fn insert_timing(m: &mut BTreeMap<String, Duration>, key: String, value: Duration)
    ensures
        timing_map(*final(m)) == timing_map(*old(m)).insert(key@, duration_as_nanos(value)),
{
    m.insert(key, value);
}

/// `BTreeMap::iter`, each entry copied out: one element per key of the map,
/// each with the key's text and its duration, no text twice.
/// The ascending order in which the entries come out is not stated.
#[verifier::external_body]
pub(crate) fn timing_entries(m: &BTreeMap<String, Duration>) -> (v: Vec<(String, Duration)>)
    ensures
        v@.len() == timing_map(*m).dom().len(),
        forall|i: int|
            0 <= i < v@.len() ==> #[trigger] timing_map(*m).contains_key(v@[i].0@)
                && timing_map(*m)[v@[i].0@] == duration_as_nanos(v@[i].1),
        forall|k: Seq<char>|
            #[trigger] timing_map(*m).contains_key(k) ==> exists|i: int|
                0 <= i < v@.len() && #[trigger] v@[i].0@ == k,
        forall|i: int, j: int| 0 <= i < j < v@.len() ==> v@[i].0@ != v@[j].0@,
{
    m.iter().map(|(k, d)| (k.clone(), *d)).collect()
}

} // verus!
