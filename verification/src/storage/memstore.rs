//! The in-memory backend.

use vstd::prelude::*;
use crate::clock::Timestamp;
use crate::credentials::PasswordHash;
use crate::error::AuthError;
use crate::model::{
    lemma_create_user_keeps_wf, lemma_delete_user_keeps_wf, lemma_reaped_keeps_wf,
    lemma_set_password_hash_keeps_wf, lemma_with_session_keeps_wf,
    lemma_without_session_keeps_wf, StoreState,
};
use crate::storage::counting::{lemma_picked_all, lemma_picked_step, lists_keys, picked};
use crate::storage::mem_maps::{
    lists_sessions, lists_users, new_session_map, new_user_map, session_map_entries, session_map_get,
    session_map_insert, session_map_remove, stored_sessions, stored_users, user_map_entries,
    user_map_get, user_map_insert, user_map_remove,
};
use crate::storage::AuthStore;
use crate::types::{Role, Session, SessionId, SessionIp, SessionView, User, UserId, Username};

verus! {

/// A store that keeps everything in two concurrent maps. Nothing survives
/// the process.
pub struct MemoryAuthStore {
    users: papaya::HashMap<u128, User>,
    sessions: papaya::HashMap<String, Session>,
    max_sessions_per_user: usize,
}

/// The keys of a list of entries.
pub open spec fn entry_keys(entries: Seq<(String, Session)>) -> Seq<Seq<char>> {
    Seq::new(entries.len(), |i: int| entries[i].0@)
}

/// A list of all entries of a map lists each key of the map once.
pub proof fn lemma_entry_keys(entries: Seq<(String, Session)>, map: Map<Seq<char>, SessionView>)
    requires
        lists_sessions(entries, map),
    ensures
        lists_keys(entry_keys(entries), map.dom()),
{
    let keys = entry_keys(entries);
    assert forall|i: int| 0 <= i < keys.len() implies map.dom().contains(#[trigger] keys[i]) by {
        assert(map.contains_key(entries[i].0@));
    }
    assert forall|key: Seq<char>| #[trigger] map.dom().contains(key) implies exists|i: int|
        0 <= i < keys.len() && keys[i] == key by {
        assert(map.contains_key(key));
        let i = choose|i: int| 0 <= i < entries.len() && entries[i].0@ == key;
        assert(keys[i] == key);
    }
    assert forall|i: int, j: int| 0 <= i < j < keys.len() implies #[trigger] keys[i]
        != #[trigger] keys[j] by {
        assert(entries[i].0@ != entries[j].0@);
    }
}

impl MemoryAuthStore {
    /// An empty store that allows each user `max_sessions_per_user` live
    /// sessions.
    pub fn new(max_sessions_per_user: usize) -> (store: Self)
        ensures
            store.state() == StoreState::empty(),
            store.session_cap() == max_sessions_per_user,
            store.consistent(),
            !store.may_fault(),
    {
        let store = MemoryAuthStore {
            users: new_user_map(),
            sessions: new_session_map(),
            max_sessions_per_user,
        };
        assert(store.state() =~= StoreState::empty());
        store
    }

    /// An empty store whose limit on live sessions is the largest number
    /// there is.
    pub fn new_unbounded() -> (store: Self)
        ensures
            store.state() == StoreState::empty(),
            store.session_cap() == usize::MAX,
            store.consistent(),
            !store.may_fault(),
    {
        Self::new(usize::MAX)
    }

    /// The user that goes by `username`, if there is one.
    fn find_by_username(&self, username: &Username) -> (r: Option<User>)
        ensures
            match r {
                Some(user) => exists|id: u128|
                    self.state().names_user(username@, id) && user@ == self.state().users[id],
                None => !self.state().has_username(username@),
            },
    {
        let entries = user_map_entries(&self.users);
        let mut i: usize = 0;
        while i < entries.len()
            invariant
                i <= entries.len(),
                lists_users(entries@, self.state().users),
                forall|j: int| 0 <= j < i ==> entries[j].1@.username != username@,
            decreases entries.len() - i,
        {
            if entries[i].1.username.0 == username.0 {
                assert(self.state().users.contains_key(entries[i as int].0));
                assert(self.state().names_user(username@, entries[i as int].0));
                return Some(entries[i].1.clone());
            }
            i += 1;
        }
        assert forall|id: u128| !self.state().names_user(username@, id) by {
            if self.state().users.contains_key(id) {
                let j = choose|j: int| 0 <= j < entries.len() && entries[j].0 == id;
                assert(self.state().users[entries[j].0] == entries[j].1@);
            }
        }
        None
    }

    /// Removes sessions of `owner`: all of them, or with `only_expired`
    /// those that have expired by `now`; the sessions that stay are counted.
    fn sweep(&mut self, owner: UserId, only_expired: bool, now: Timestamp) -> (kept: usize)
        ensures
            final(self).session_cap() == old(self).session_cap(),
            final(self).state().users == old(self).state().users,
            only_expired ==> final(self).state() == old(self).state().reaped(owner.0, now),
            only_expired ==> kept == old(self).state().active_count(owner.0, now),
            !only_expired ==> final(self).state().sessions == old(self).state().sessions.remove_keys(
                Set::new(|sid: Seq<char>| old(self).state().owns(owner.0, sid)),
            ),
    {
        let entries = session_map_entries(&self.sessions);
        let ghost pre = self.state();
        let ghost keys = entry_keys(entries@);
        let ghost stays = |sid: Seq<char>|
            pre.owns(owner.0, sid) && only_expired && pre.sessions[sid].live_at(now);
        let ghost goes = |sid: Seq<char>|
            pre.owns(owner.0, sid) && !(only_expired && pre.sessions[sid].live_at(now));
        let mut kept: usize = 0;
        let mut i: usize = 0;
        proof {
            lemma_entry_keys(entries@, pre.sessions);
            assert(pre.sessions.remove_keys(picked(keys, goes, 0)) =~= pre.sessions);
        }
        while i < entries.len()
            invariant
                i <= entries.len(),
                lists_sessions(entries@, pre.sessions),
                keys == entry_keys(entries@),
                lists_keys(keys, pre.sessions.dom()),
                self.state().users == pre.users,
                self.max_sessions_per_user == old(self).max_sessions_per_user,
                self.state().sessions == pre.sessions.remove_keys(picked(keys, goes, i as nat)),
                kept == picked(keys, stays, i as nat).len(),
                kept <= i,
                stays == |sid: Seq<char>|
                    pre.owns(owner.0, sid) && only_expired && pre.sessions[sid].live_at(now),
                goes == |sid: Seq<char>|
                    pre.owns(owner.0, sid) && !(only_expired && pre.sessions[sid].live_at(now)),
            decreases entries.len() - i,
        {
            proof {
                lemma_picked_step(keys, stays, pre.sessions.dom(), i as nat);
                lemma_picked_step(keys, goes, pre.sessions.dom(), i as nat);
                assert(keys[i as int] == entries[i as int].0@);
                assert(pre.sessions.contains_key(entries[i as int].0@));
            }
            if entries[i].1.user_id == owner {
                if only_expired && entries[i].1.is_live_at(now) {
                    kept += 1;
                } else {
                    session_map_remove(&mut self.sessions, entries[i].0.as_str());
                    assert(self.state().sessions =~= pre.sessions.remove_keys(
                        picked(keys, goes, (i + 1) as nat),
                    ));
                }
            }
            i += 1;
        }
        proof {
            lemma_picked_all(keys, stays, pre.sessions.dom());
            lemma_picked_all(keys, goes, pre.sessions.dom());
            if only_expired {
                assert(picked(keys, stays, keys.len()) =~= pre.active_sessions(owner.0, now));
                assert(picked(keys, goes, keys.len()) =~= pre.expired_sessions(owner.0, now));
                assert(self.state() =~= pre.reaped(owner.0, now));
            } else {
                assert(picked(keys, goes, keys.len()) =~= Set::new(
                    |sid: Seq<char>| pre.owns(owner.0, sid),
                ));
            }
        }
        kept
    }
}

impl Default for MemoryAuthStore {
    /// An empty store without a limit on sessions.
    fn default() -> (store: Self)
        ensures
            store.state() == StoreState::empty(),
            store.session_cap() == usize::MAX,
            store.consistent(),
    {
        Self::new(usize::MAX)
    }
}

impl AuthStore for MemoryAuthStore {
    closed spec fn state(&self) -> StoreState {
        StoreState { users: stored_users(self.users), sessions: stored_sessions(self.sessions) }
    }

    open spec fn consistent(&self) -> bool {
        self.state().wf()
    }

    open spec fn may_fault(&self) -> bool {
        false
    }

    closed spec fn session_cap(&self) -> usize {
        self.max_sessions_per_user
    }

    proof fn lemma_consistent_is_wf(&self) {
    }

    fn max_sessions_per_user(&self) -> (max: usize) {
        self.max_sessions_per_user
    }

    fn create_user_with_id(
        &mut self,
        username: &Username,
        password_hash: PasswordHash,
        role: Role,
        id: UserId,
    ) -> (r: Result<User, AuthError>) {
        if self.find_by_username(username).is_some() {
            return Err(AuthError::UserExists);
        }
        if user_map_get(&self.users, id.0).is_some() {
            return Err(AuthError::Internal("user identifier is already in use".to_owned()));
        }
        let user = User { id, username: username.clone(), password_hash, role };
        user_map_insert(&mut self.users, id.0, user.clone());
        proof {
            if old(self).state().wf() {
                assert(self.state() =~= old(self).state().with_user(user@));
                lemma_create_user_keeps_wf(old(self).state(), user@);
            }
        }
        Ok(user)
    }

    fn get_user_by_id(&self, id: &UserId) -> (r: Result<User, AuthError>) {
        match user_map_get(&self.users, id.0) {
            Some(user) => Ok(user),
            None => Err(AuthError::NotFound),
        }
    }

    fn get_user_by_username(&self, username: &Username) -> (r: Result<User, AuthError>) {
        match self.find_by_username(username) {
            Some(user) => Ok(user),
            None => Err(AuthError::NotFound),
        }
    }

    fn set_password_hash(&mut self, id: &UserId, new_hash: PasswordHash) -> (r: Result<
        PasswordHash,
        AuthError,
    >) {
        match user_map_get(&self.users, id.0) {
            Some(user) => {
                let updated = User {
                    id: user.id,
                    username: user.username,
                    password_hash: new_hash.clone(),
                    role: user.role,
                };
                user_map_insert(&mut self.users, id.0, updated);
                proof {
                    if old(self).state().wf() {
                        assert(self.state() =~= old(self).state().with_password_hash(id.0, new_hash@));
                        lemma_set_password_hash_keeps_wf(
                            old(self).state(),
                            id.0,
                            new_hash@,
                        );
                    }
                }
                Ok(new_hash)
            },
            None => Err(AuthError::NotFound),
        }
    }

    fn delete_user(&mut self, id: &UserId) -> (r: Result<(), AuthError>) {
        if user_map_remove(&mut self.users, id.0) {
            self.sweep(*id, false, Timestamp(0));
            proof {
                if old(self).state().wf() {
                    assert(self.state() =~= old(self).state().without_user(id.0));
                    lemma_delete_user_keeps_wf(old(self).state(), id.0);
                }
            }
            Ok(())
        } else {
            assert(self.state() =~= old(self).state());
            Err(AuthError::NotFound)
        }
    }

    fn issue_session_with(&mut self, id: &UserId, ip: SessionIp, now: Timestamp, token: SessionId) -> (r:
        Result<Session, AuthError>) {
        if user_map_get(&self.users, id.0).is_none() {
            return Err(AuthError::NotFound);
        }
        let active = self.sweep(*id, true, now);
        proof {
            if old(self).state().wf() {
                lemma_reaped_keeps_wf(old(self).state(), id.0, now);
            }
        }
        if active >= self.max_sessions_per_user {
            return Err(AuthError::SessionLimitReached);
        }
        if session_map_get(&self.sessions, token.as_str()).is_some() {
            return Err(AuthError::Internal("session token is already in use".to_owned()));
        }
        let session = Session {
            id: token,
            user_id: *id,
            ip,
            created_at: now,
            expires_at: now.plus_session_duration(),
        };
        session_map_insert(&mut self.sessions, session.id.0.clone(), session.clone());
        proof {
            if old(self).state().wf() {
                assert(self.state() =~= old(self).state().reaped(id.0, now).with_session(session@));
                lemma_with_session_keeps_wf(
                    old(self).state().reaped(id.0, now),
                    session@,
                );
            }
        }
        Ok(session)
    }

    fn fetch_session_at(&mut self, token: &SessionId, now: Timestamp) -> (r: Result<
        Session,
        AuthError,
    >) {
        match session_map_get(&self.sessions, token.as_str()) {
            Some(session) => {
                if session.is_live_at(now) {
                    Ok(session)
                } else {
                    session_map_remove(&mut self.sessions, token.as_str());
                    proof {
                        if old(self).state().wf() {
                            assert(self.state() =~= old(self).state().without_session(token@));
                            lemma_without_session_keeps_wf(old(self).state(), token@);
                        }
                    }
                    Err(AuthError::InvalidSession)
                }
            },
            None => Err(AuthError::InvalidSession),
        }
    }

    fn extend_session_at(&mut self, token: &SessionId, now: Timestamp) -> (r: Result<
        Session,
        AuthError,
    >) {
        match session_map_get(&self.sessions, token.as_str()) {
            Some(session) => {
                if session.is_live_at(now) {
                    let extended = Session {
                        id: session.id,
                        user_id: session.user_id,
                        ip: session.ip,
                        created_at: session.created_at,
                        expires_at: now.plus_session_duration(),
                    };
                    session_map_insert(&mut self.sessions, token.0.clone(), extended.clone());
                    proof {
                        if old(self).state().wf() {
                            assert(self.state() =~= old(self).state().with_session(extended@));
                            lemma_with_session_keeps_wf(old(self).state(), extended@);
                        }
                    }
                    Ok(extended)
                } else {
                    session_map_remove(&mut self.sessions, token.as_str());
                    proof {
                        if old(self).state().wf() {
                            assert(self.state() =~= old(self).state().without_session(token@));
                            lemma_without_session_keeps_wf(old(self).state(), token@);
                        }
                    }
                    Err(AuthError::InvalidSession)
                }
            },
            None => Err(AuthError::InvalidSession),
        }
    }

    fn revoke_session(&mut self, token: &SessionId) -> (r: Result<(), AuthError>) {
        if session_map_remove(&mut self.sessions, token.as_str()) {
            proof {
                if old(self).state().wf() {
                    assert(self.state() =~= old(self).state().without_session(token@));
                    lemma_without_session_keeps_wf(old(self).state(), token@);
                }
            }
            Ok(())
        } else {
            assert(self.state() =~= old(self).state());
            Err(AuthError::InvalidSession)
        }
    }
}

} // verus!
