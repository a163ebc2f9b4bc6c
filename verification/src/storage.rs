use vstd::prelude::*;

use dashmap::DashMap;

use crate::key::ServiceKey;

verus! {

/// `dashmap::DashMap` is the concurrent map every registry and cache
/// of the engine is built on: reads are lock-free on the hot path and
/// writes lock only one shard. Verus sees the type as opaque; what a
/// map holds is captured by `key_map_contents` below, and every
/// operation the engine uses goes through one of the trusted wrappers
/// in this module.
#[verifier::external_type_specification]
#[verifier::external_body]
#[verifier::reject_recursive_types(K)]
#[verifier::reject_recursive_types(V)]
#[verifier::reject_recursive_types(S)]
pub struct ExDashMap<K, V, S>(DashMap<K, V, S>);

/// The mathematical contents of a map from service keys to plain
/// identifiers (constructor or instance identities): a finite map from
/// key views to values.
pub uninterp spec fn key_map_contents(m: DashMap<ServiceKey, u64>) -> Map<(u64, Seq<char>), u64>;

/// The contents of a map with no entries.
pub open spec fn empty_key_map() -> Map<(u64, Seq<char>), u64> {
    Map::empty()
}

/// Relies on `dashmap::DashMap::new`: creates an empty map.
#[verifier::external_body]
pub(crate) fn key_map_new() -> (m: DashMap<ServiceKey, u64>)
    ensures
        key_map_contents(m) == empty_key_map(),
{
    DashMap::new()
}

/// Relies on `dashmap::DashMap::contains_key`: true exactly when the
/// map holds an entry whose key equals `key`.
#[verifier::external_body]
pub(crate) fn key_map_contains(m: &DashMap<ServiceKey, u64>, key: &ServiceKey) -> (r: bool)
    ensures
        r == key_map_contents(*m).contains_key(key@),
{
    m.contains_key(key)
}

/// Relies on `dashmap::DashMap::get`: returns the value stored under
/// `key`, if any.
#[verifier::external_body]
pub(crate) fn key_map_get(m: &DashMap<ServiceKey, u64>, key: &ServiceKey) -> (r: Option<u64>)
    ensures
        r == if key_map_contents(*m).contains_key(key@) {
            Some(key_map_contents(*m)[key@])
        } else {
            None::<u64>
        },
{
    m.get(key).map(|entry| *entry.value())
}

/// Relies on `dashmap::DashMap::insert`: stores `value` under `key`,
/// replacing any previous entry for that key.
#[verifier::external_body]
pub(crate) fn key_map_insert(m: &mut DashMap<ServiceKey, u64>, key: ServiceKey, value: u64)
    ensures
        key_map_contents(*final(m)) == key_map_contents(*old(m)).insert(key@, value),
{
    m.insert(key, value);
}

/// Relies on `dashmap::DashMap::clear`: removes every entry.
#[verifier::external_body]
pub(crate) fn key_map_clear(m: &mut DashMap<ServiceKey, u64>)
    ensures
        key_map_contents(*final(m)) == empty_key_map(),
{
    m.clear();
}

/// Relies on `dashmap::DashMap::len`: the number of entries.
#[verifier::external_body]
pub(crate) fn key_map_len(m: &DashMap<ServiceKey, u64>) -> (r: usize)
    ensures
        r == key_map_contents(*m).dom().len(),
{
    m.len()
}

/// Relies on `dashmap::DashMap::iter`: hands out every entry exactly
/// once, as plain pairs. The iteration order of a hash map is not
/// specified, so the contract pins the pairs down only up to order:
/// every listed pair is in the map, every key of the map is listed,
/// and no key is listed twice.
#[verifier::external_body]
pub(crate) fn key_map_entries(m: &DashMap<ServiceKey, u64>) -> (r: Vec<(ServiceKey, u64)>)
    ensures
        r@.len() == key_map_contents(*m).dom().len(),
        forall|i: int|
            0 <= i < r@.len() ==> key_map_contents(*m).contains_pair(#[trigger] (r@[i].0)@, r@[i].1),
        forall|k: (u64, Seq<char>)|
            key_map_contents(*m).contains_key(k) ==> exists|i: int|
                0 <= i < r@.len() && #[trigger] (r@[i].0)@ == k,
        forall|i: int, j: int| 0 <= i < j < r@.len() ==> (#[trigger] r@[i].0)@ != (#[trigger] r@[j].0)@,
{
    let mut out: Vec<(ServiceKey, u64)> = Vec::new();
    for entry in m.iter() {
        out.push((entry.key().dup(), *entry.value()));
    }
    out
}

} // verus!
