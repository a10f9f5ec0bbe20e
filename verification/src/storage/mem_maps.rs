//! The two concurrent maps of the in-memory backend and what each of their
//! operations does, stated for a caller that holds the map exclusively.

use vstd::prelude::*;
use crate::types::{Session, SessionView, User, UserView};

verus! {

/// The concurrent hash map of the papaya crate.
#[verifier::external_type_specification]
#[verifier::external_body]
#[verifier::reject_recursive_types(K)]
#[verifier::reject_recursive_types(V)]
#[verifier::reject_recursive_types(S)]
pub struct ExConcurrentMap<K, V, S>(papaya::HashMap<K, V, S>);

/// The users that a map holds, by key.
pub uninterp spec fn stored_users(map: papaya::HashMap<u128, User>) -> Map<u128, UserView>;

/// The sessions that a map holds, by key.
pub uninterp spec fn stored_sessions(map: papaya::HashMap<String, Session>) -> Map<
    Seq<char>,
    SessionView,
>;

/// The map that holds no user.
pub open spec fn no_users() -> Map<u128, UserView> {
    Map::empty()
}

/// The map that holds no session.
pub open spec fn no_sessions() -> Map<Seq<char>, SessionView> {
    Map::empty()
}

/// Whether `entries` lists each entry of `map` once: every item is an entry,
/// every key occurs, and no key occurs twice.
pub open spec fn lists_users(entries: Seq<(u128, User)>, map: Map<u128, UserView>) -> bool {
    &&& forall|i: int|
        0 <= i < entries.len() ==> map.contains_key(#[trigger] entries[i].0) && map[entries[i].0]
            == entries[i].1@
    &&& forall|k: u128| #[trigger]
        map.contains_key(k) ==> exists|i: int| 0 <= i < entries.len() && entries[i].0 == k
    &&& forall|i: int, j: int|
        0 <= i < j < entries.len() ==> #[trigger] entries[i].0 != #[trigger] entries[j].0
}

/// Whether `entries` lists each entry of `map` once: every item is an entry,
/// every key occurs, and no key occurs twice.
pub open spec fn lists_sessions(
    entries: Seq<(String, Session)>,
    map: Map<Seq<char>, SessionView>,
) -> bool {
    &&& forall|i: int|
        0 <= i < entries.len() ==> map.contains_key(#[trigger] entries[i].0@) && map[entries[i].0@]
            == entries[i].1@
    &&& forall|k: Seq<char>| #[trigger]
        map.contains_key(k) ==> exists|i: int| 0 <= i < entries.len() && entries[i].0@ == k
    &&& forall|i: int, j: int|
        0 <= i < j < entries.len() ==> #[trigger] entries[i].0@ != #[trigger] entries[j].0@
}

/// `HashMap::new`: an empty map.
#[verifier::external_body]
pub(crate) fn new_user_map() -> (fresh: papaya::HashMap<u128, User>)
    ensures
        stored_users(fresh) == no_users(),
{
    papaya::HashMap::new()
}

/// `get` through a pinned reference: a copy of the value under `id`, if the
/// map has one.
#[verifier::external_body]
pub(crate) fn user_map_get(map: &papaya::HashMap<u128, User>, id: u128) -> (r: Option<User>)
    ensures
        match r {
            Some(user) => stored_users(*map).contains_key(id) && user@ == stored_users(*map)[id],
            None => !stored_users(*map).contains_key(id),
        },
{
    map.pin().get(&id).cloned()
}

/// `insert` through a pinned reference: afterwards the map holds `user`
/// under `id`, in place of what was there, and its other entries as before.
#[verifier::external_body]
pub(crate) fn user_map_insert(map: &mut papaya::HashMap<u128, User>, id: u128, user: User)
    ensures
        stored_users(*final(map)) == stored_users(*old(map)).insert(id, user@),
{
    map.pin().insert(id, user);
}

/// `remove` through a pinned reference: afterwards the map has no entry
/// under `id`; returns whether it had one.
#[verifier::external_body]
pub(crate) fn user_map_remove(map: &mut papaya::HashMap<u128, User>, id: u128) -> (found: bool)
    ensures
        stored_users(*final(map)) == stored_users(*old(map)).remove(id),
        found == stored_users(*old(map)).contains_key(id),
{
    map.pin().remove(&id).is_some()
}

/// `iter` through a pinned reference, collected: copies of all entries, in
/// the arbitrary order in which the map hands them out.
#[verifier::external_body]
pub(crate) fn user_map_entries(map: &papaya::HashMap<u128, User>) -> (entries: Vec<(u128, User)>)
    ensures
        lists_users(entries@, stored_users(*map)),
{
    map.pin().iter().map(|(id, user)| (*id, user.clone())).collect()
}

/// `HashMap::new`: an empty map.
#[verifier::external_body]
pub(crate) fn new_session_map() -> (fresh: papaya::HashMap<String, Session>)
    ensures
        stored_sessions(fresh) == no_sessions(),
{
    papaya::HashMap::new()
}

/// `get` through a pinned reference: a copy of the value under `token`, if
/// the map has one.
#[verifier::external_body]
pub(crate) fn session_map_get(map: &papaya::HashMap<String, Session>, token: &str) -> (r: Option<
    Session,
>)
    ensures
        match r {
            Some(session) => stored_sessions(*map).contains_key(token@) && session@
                == stored_sessions(*map)[token@],
            None => !stored_sessions(*map).contains_key(token@),
        },
{
    map.pin().get(token).cloned()
}

/// `insert` through a pinned reference: afterwards the map holds `session`
/// under `token`, in place of what was there, and its other entries as
/// before.
#[verifier::external_body]
pub(crate) fn session_map_insert(
    map: &mut papaya::HashMap<String, Session>,
    token: String,
    session: Session,
)
    ensures
        stored_sessions(*final(map)) == stored_sessions(*old(map)).insert(token@, session@),
{
    map.pin().insert(token, session);
}

/// `remove` through a pinned reference: afterwards the map has no entry
/// under `token`; returns whether it had one.
#[verifier::external_body]
pub(crate) fn session_map_remove(map: &mut papaya::HashMap<String, Session>, token: &str) -> (found:
    bool)
    ensures
        stored_sessions(*final(map)) == stored_sessions(*old(map)).remove(token@),
        found == stored_sessions(*old(map)).contains_key(token@),
{
    map.pin().remove(token).is_some()
}

/// `iter` through a pinned reference, collected: copies of all entries, in
/// the arbitrary order in which the map hands them out.
#[verifier::external_body]
pub(crate) fn session_map_entries(map: &papaya::HashMap<String, Session>) -> (entries: Vec<
    (String, Session),
>)
    ensures
        lists_sessions(entries@, stored_sessions(*map)),
{
    map.pin().iter().map(|(token, session)| (token.clone(), session.clone())).collect()
}

} // verus!
