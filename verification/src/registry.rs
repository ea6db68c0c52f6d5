//! The concurrent map behind the session registries. The map is `dashmap`'s;
//! this module names what it holds and states what its calls do to that.
//!
//! A registry maps a session identifier to the process id of the session. The
//! managers change their map only through `&mut`, so that between two calls
//! the map holds what the contracts say.

use dashmap::DashMap;
use vstd::prelude::*;

verus! {

/// `dashmap::DashMap`: the map, of which only `sessions` is known.
#[verifier::external_type_specification]
#[verifier::external_body]
#[verifier::reject_recursive_types(K)]
#[verifier::reject_recursive_types(V)]
#[verifier::reject_recursive_types(S)]
pub struct ExDashMap<K, V, S>(DashMap<K, V, S>);

/// The sessions that a registry map holds: each identifier with its process
/// id.
pub uninterp spec fn sessions(map: DashMap<String, u32>) -> Map<Seq<char>, u32>;

/// Whether a session is registered under the identifier.
pub open spec fn has_session(registry: Map<Seq<char>, u32>, id: Seq<char>) -> bool {
    registry.contains_key(id)
}

/// The registry after a session was registered under the identifier.
pub open spec fn with_session(registry: Map<Seq<char>, u32>, id: Seq<char>, pid: u32) -> Map<
    Seq<char>,
    u32,
> {
    registry.insert(id, pid)
}

/// The registry after the identifier was removed.
pub open spec fn without_session(registry: Map<Seq<char>, u32>, id: Seq<char>) -> Map<
    Seq<char>,
    u32,
> {
    registry.remove(id)
}

/// A session lives from its spawn to its kill. After a spawn under an
/// identifier that was free, the identifier has a session, so that a write to
/// it is delivered; after the kill it has none, so that a write to it is
/// answered `not found`.
pub proof fn lemma_session_lifetime(registry: Map<Seq<char>, u32>, id: Seq<char>, pid: u32)
    requires
        !has_session(registry, id),
    ensures
        has_session(with_session(registry, id, pid), id),
        with_session(registry, id, pid)[id] == pid,
        !has_session(without_session(with_session(registry, id, pid), id), id),
        without_session(with_session(registry, id, pid), id) == registry,
{
}

/// A kill removes the identifier for good: a second kill finds no session
/// under it, whatever the registry held.
pub proof fn lemma_kill_twice(registry: Map<Seq<char>, u32>, id: Seq<char>)
    ensures
        !has_session(without_session(registry, id), id),
        without_session(without_session(registry, id), id) == without_session(registry, id),
{
}

/// Sessions do not touch each other: registering or removing one identifier
/// leaves every other identifier as it was.
pub proof fn lemma_other_sessions(
    registry: Map<Seq<char>, u32>,
    id: Seq<char>,
    pid: u32,
    other: Seq<char>,
)
    requires
        other != id,
    ensures
        has_session(with_session(registry, id, pid), other) == has_session(registry, other),
        has_session(without_session(registry, id), other) == has_session(registry, other),
        has_session(registry, other) ==> with_session(registry, id, pid)[other] == registry[other]
            && without_session(registry, id)[other] == registry[other],
{
}

/// `DashMap::new`: a map that holds nothing.
#[verifier::external_body]
pub(crate) fn map_new() -> (made: DashMap<String, u32>)
    ensures
        sessions(made) == (Map::<Seq<char>, u32>::empty()),
{
    DashMap::new()
}

/// `DashMap::insert`: the key holds the new value afterwards, every other key
/// what it held, and the value that the key held before is returned.
#[verifier::external_body]
pub(crate) fn map_insert(map: &mut DashMap<String, u32>, key: String, value: u32) -> (before: Option<u32>)
    ensures
        sessions(*final(map)) == sessions(*old(map)).insert(key@, value),
        before == if sessions(*old(map)).contains_key(key@) {
            Some(sessions(*old(map))[key@])
        } else {
            None
        },
{
    map.insert(key, value)
}

/// `DashMap::remove`: the key is gone afterwards, every other key holds what
/// it held, and the value that the key held is returned.
#[verifier::external_body]
pub(crate) fn map_remove(map: &mut DashMap<String, u32>, key: &str) -> (before: Option<u32>)
    ensures
        sessions(*final(map)) == sessions(*old(map)).remove(key@),
        before == if sessions(*old(map)).contains_key(key@) {
            Some(sessions(*old(map))[key@])
        } else {
            None
        },
{
    map.remove(key).map(|entry| entry.1)
}

/// `DashMap::get`: the value that the key holds, copied out of the map.
#[verifier::external_body]
pub(crate) fn map_get(map: &DashMap<String, u32>, key: &str) -> (held: Option<u32>)
    ensures
        held == if sessions(*map).contains_key(key@) {
            Some(sessions(*map)[key@])
        } else {
            None
        },
{
    map.get(key).map(|entry| *entry.value())
}

/// `DashMap::contains_key`: whether the key holds a value.
#[verifier::external_body]
pub(crate) fn map_contains_key(map: &DashMap<String, u32>, key: &str) -> (held: bool)
    ensures
        held == sessions(*map).contains_key(key@),
{
    map.contains_key(key)
}

} // verus!
