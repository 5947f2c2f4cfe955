//! The hash collections of `bevy_platform` that the lighting pass uses, with
//! the contracts that the verified code relies on.

use crate::grid::{BoardPosition, TileKey};
use bevy_platform::collections::{HashMap, HashSet};
use bevy_platform::hash::FixedHasher;
use vstd::prelude::*;

verus! {

#[verifier::external_type_specification]
#[verifier::external_body]
pub struct ExFixedHasher(FixedHasher);

#[verifier::external_type_specification]
#[verifier::external_body]
#[verifier::reject_recursive_types(T)]
#[verifier::reject_recursive_types(S)]
pub struct ExHashSet<T, S>(HashSet<T, S>);

#[verifier::external_type_specification]
#[verifier::external_body]
#[verifier::reject_recursive_types(K)]
#[verifier::reject_recursive_types(V)]
#[verifier::reject_recursive_types(S)]
pub struct ExHashMap<K, V, S>(HashMap<K, V, S>);

/// The source ids held by a set of light sources.
pub uninterp spec fn source_set(s: HashSet<u32>) -> Set<u32>;

/// The emission state recorded for each light position.
pub uninterp spec fn emitter_states(m: HashMap<BoardPosition, bool>) -> Map<BoardPosition, bool>;

/// Whether the door on each tile is open.
pub uninterp spec fn door_states(m: HashMap<TileKey, bool>) -> Map<TileKey, bool>;

/// Relies on bevy_platform's `HashMap::new`: the new map is empty.
#[verifier::external_body]
pub(crate) fn new_door_map() -> (r: HashMap<TileKey, bool>)
    ensures
        door_states(r) == (Map::<TileKey, bool>::empty()),
{
    HashMap::new()
}

/// Relies on bevy_platform's `HashMap::insert`: the key now maps to the value,
/// replacing any earlier value.
#[verifier::external_body]
pub(crate) fn insert_door(m: &mut HashMap<TileKey, bool>, k: TileKey, v: bool)
    ensures
        door_states(*final(m)) == door_states(*old(m)).insert(k, v),
{
    m.insert(k, v);
}

/// Relies on bevy_platform's `HashSet::new`: the new set is empty.
#[verifier::external_body]
pub(crate) fn new_source_set() -> (r: HashSet<u32>)
    ensures
        source_set(r) == Set::<u32>::empty(),
{
    HashSet::new()
}

/// Relies on bevy_platform's `HashSet::insert`: the value is added to the set.
#[verifier::external_body]
pub(crate) fn insert_source(s: &mut HashSet<u32>, id: u32)
    ensures
        source_set(*final(s)) == source_set(*old(s)).insert(id),
{
    s.insert(id);
}

/// Relies on bevy_platform's `HashSet::contains`: whether the value is in the set.
#[verifier::external_body]
pub(crate) fn contains_source(s: &HashSet<u32>, id: u32) -> (r: bool)
    ensures
        r == source_set(*s).contains(id),
{
    s.contains(&id)
}

/// Relies on bevy_platform's `HashMap::get`: the value stored under the key, if any.
#[verifier::external_body]
pub(crate) fn emitter_state_at(m: &HashMap<BoardPosition, bool>, pos: &BoardPosition) -> (r:
    Option<bool>)
    ensures
        r == (if emitter_states(*m).contains_key(*pos) {
            Some(emitter_states(*m)[*pos])
        } else {
            None
        }),
{
    m.get(pos).copied()
}

} // verus!
