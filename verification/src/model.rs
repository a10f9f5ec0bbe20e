//! The mathematical model of a store: which users and sessions it holds, and
//! what each operation of the store contract does to them.

use vstd::prelude::*;
use crate::clock::Timestamp;
use crate::error::AuthError;
use crate::credentials::PasswordHash;
use crate::types::{Role, Session, SessionIp, SessionView, User, UserView};

verus! {

/// Everything a store holds: its users by identifier and its sessions by
/// token.
#[verifier::ext_equal]
pub struct StoreState {
    pub users: Map<u128, UserView>,
    pub sessions: Map<Seq<char>, SessionView>,
}

/// How an operation ends, leaving aside what a success carries.
pub enum Verdict {
    Done,
    UserExists,
    NotFound,
    InvalidSession,
    SessionLimitReached,
    Faulted,
}

/// The verdict that a result stands for.
pub open spec fn verdict_of<T>(r: Result<T, AuthError>) -> Verdict {
    match r {
        Ok(_) => Verdict::Done,
        Err(AuthError::UserExists) => Verdict::UserExists,
        Err(AuthError::NotFound) => Verdict::NotFound,
        Err(AuthError::InvalidSession) => Verdict::InvalidSession,
        Err(AuthError::SessionLimitReached) => Verdict::SessionLimitReached,
        Err(AuthError::Internal(_)) => Verdict::Faulted,
    }
}

/// The record of a user that is about to be created.
pub open spec fn new_user(
    id: u128,
    username: Seq<char>,
    password_hash: Seq<char>,
    role: Role,
) -> UserView {
    UserView { id, username, password_hash, role }
}

/// The record of a session issued at `now`: it expires one session lifetime
/// later.
pub open spec fn new_session(
    id: Seq<char>,
    user_id: u128,
    ip: SessionIp,
    now: Timestamp,
) -> SessionView {
    SessionView { id, user_id, ip, created_at: now, expires_at: now.session_end() }
}

impl StoreState {
    /// The store that holds nothing.
    pub open spec fn empty() -> StoreState {
        StoreState { users: Map::empty(), sessions: Map::empty() }
    }

    /// The invariant of a store: finitely many records, each filed under its
    /// own identifier; no username used twice; every session owned by a user
    /// that exists.
    pub open spec fn wf(self) -> bool {
        &&& self.users.dom().finite()
        &&& self.sessions.dom().finite()
        &&& forall|id: u128| #[trigger]
            self.users.contains_key(id) ==> self.users[id].id == id
        &&& forall|a: u128, b: u128|
            #![trigger self.users[a], self.users[b]]
            self.users.contains_key(a) && self.users.contains_key(b) && self.users[a].username
                == self.users[b].username ==> a == b
        &&& forall|sid: Seq<char>| #[trigger]
            self.sessions.contains_key(sid) ==> self.sessions[sid].id == sid
                && self.users.contains_key(self.sessions[sid].user_id)
    }

    /// Whether some user goes by `name`.
    pub open spec fn has_username(self, name: Seq<char>) -> bool {
        exists|id: u128| self.names_user(name, id)
    }

    /// Whether the user filed under `id` goes by `name`.
    pub open spec fn names_user(self, name: Seq<char>, id: u128) -> bool {
        self.users.contains_key(id) && self.users[id].username == name
    }

    /// Whether `sid` names a session of user `uid`.
    pub open spec fn owns(self, uid: u128, sid: Seq<char>) -> bool {
        self.sessions.contains_key(sid) && self.sessions[sid].user_id == uid
    }

    /// The sessions of `uid` that are live at `now`.
    pub open spec fn active_sessions(self, uid: u128, now: Timestamp) -> Set<Seq<char>> {
        Set::new(|sid: Seq<char>| self.owns(uid, sid) && self.sessions[sid].live_at(now))
    }

    /// The sessions of `uid` that have expired by `now`.
    pub open spec fn expired_sessions(self, uid: u128, now: Timestamp) -> Set<Seq<char>> {
        Set::new(|sid: Seq<char>| self.owns(uid, sid) && !self.sessions[sid].live_at(now))
    }

    /// How many sessions of `uid` are live at `now`.
    pub open spec fn active_count(self, uid: u128, now: Timestamp) -> nat {
        self.active_sessions(uid, now).len()
    }

    /// The store with `user` filed under its identifier.
    pub open spec fn with_user(self, user: UserView) -> StoreState {
        StoreState { users: self.users.insert(user.id, user), ..self }
    }

    /// The store with `session` filed under its token.
    pub open spec fn with_session(self, session: SessionView) -> StoreState {
        StoreState { sessions: self.sessions.insert(session.id, session), ..self }
    }

    /// The store without the session `sid`.
    pub open spec fn without_session(self, sid: Seq<char>) -> StoreState {
        StoreState { sessions: self.sessions.remove(sid), ..self }
    }

    /// The store without the sessions of `uid` that have expired by `now`.
    pub open spec fn reaped(self, uid: u128, now: Timestamp) -> StoreState {
        StoreState {
            sessions: self.sessions.remove_keys(self.expired_sessions(uid, now)),
            ..self
        }
    }

    /// The store in which user `id` has the password hash `password_hash`.
    pub open spec fn with_password_hash(self, id: u128, password_hash: Seq<char>) -> StoreState {
        StoreState {
            users: self.users.insert(id, self.users[id].with_password_hash(password_hash)),
            ..self
        }
    }

    /// The store without user `uid` and without every session that `uid`
    /// owns.
    pub open spec fn without_user(self, uid: u128) -> StoreState {
        StoreState {
            users: self.users.remove(uid),
            sessions: self.sessions.remove_keys(Set::new(|sid: Seq<char>| self.owns(uid, sid))),
        }
    }

    /// How creating a user ends: the name must be free, and so must the
    /// identifier drawn for the new user.
    pub open spec fn create_user_verdict(self, username: Seq<char>, id: u128) -> Verdict {
        if self.has_username(username) {
            Verdict::UserExists
        } else if self.users.contains_key(id) {
            Verdict::Faulted
        } else {
            Verdict::Done
        }
    }

    /// How issuing a session ends: the user must exist and have fewer than
    /// `max` live sessions, and the token drawn must be unused once the
    /// user's expired sessions are gone.
    pub open spec fn issue_session_verdict(
        self,
        uid: u128,
        now: Timestamp,
        sid: Seq<char>,
        max: usize,
    ) -> Verdict {
        if !self.users.contains_key(uid) {
            Verdict::NotFound
        } else if self.active_count(uid, now) >= max {
            Verdict::SessionLimitReached
        } else if self.reaped(uid, now).sessions.contains_key(sid) {
            Verdict::Faulted
        } else {
            Verdict::Done
        }
    }

    /// Whether `sid` names a session that is live at `now`.
    pub open spec fn session_valid(self, sid: Seq<char>, now: Timestamp) -> bool {
        self.sessions.contains_key(sid) && self.sessions[sid].live_at(now)
    }

    /// How fetching or extending a session ends.
    pub open spec fn session_verdict(self, sid: Seq<char>, now: Timestamp) -> Verdict {
        if self.session_valid(sid, now) {
            Verdict::Done
        } else {
            Verdict::InvalidSession
        }
    }

    /// The store after session `sid` was looked at at `now`: a session found
    /// expired is gone, everything else stays.
    pub open spec fn after_fetch(self, sid: Seq<char>, now: Timestamp) -> StoreState {
        if self.sessions.contains_key(sid) && !self.sessions[sid].live_at(now) {
            self.without_session(sid)
        } else {
            self
        }
    }

    /// The store after an attempt to extend session `sid` at `now`: a live
    /// session expires one lifetime after `now`, a session found expired is
    /// gone, everything else stays.
    pub open spec fn after_extend(self, sid: Seq<char>, now: Timestamp) -> StoreState {
        if self.session_valid(sid, now) {
            self.with_session(self.sessions[sid].with_expiry(now.session_end()))
        } else {
            self.after_fetch(sid, now)
        }
    }
}

/// Whether a result reports a fault of the backend.
pub open spec fn is_fault<T>(r: Result<T, AuthError>) -> bool {
    r matches Err(AuthError::Internal(_))
}

/// What creating a user does: on success the new record is returned and
/// filed; otherwise nothing changes.
pub open spec fn create_user_post(
    pre: StoreState,
    post: StoreState,
    username: Seq<char>,
    password_hash: Seq<char>,
    role: Role,
    id: u128,
    r: Result<User, AuthError>,
) -> bool {
    &&& verdict_of(r) == pre.create_user_verdict(username, id)
    &&& match r {
        Ok(user) => user@ == new_user(id, username, password_hash, role) && post
            == pre.with_user(user@),
        Err(_) => post == pre,
    }
}

/// What looking a user up by identifier returns.
pub open spec fn get_user_by_id_post(pre: StoreState, id: u128, r: Result<User, AuthError>) -> bool {
    match r {
        Ok(user) => pre.users.contains_key(id) && user@ == pre.users[id],
        Err(AuthError::NotFound) => !pre.users.contains_key(id),
        Err(_) => false,
    }
}

/// What looking a user up by name returns.
pub open spec fn get_user_by_username_post(
    pre: StoreState,
    username: Seq<char>,
    r: Result<User, AuthError>,
) -> bool {
    match r {
        Ok(user) => pre.names_user(username, user@.id) && user@ == pre.users[user@.id],
        Err(AuthError::NotFound) => !pre.has_username(username),
        Err(_) => false,
    }
}

/// What replacing a password hash does: the new hash is returned and the
/// rest of the user's record stays as it was.
pub open spec fn set_password_hash_post(
    pre: StoreState,
    post: StoreState,
    id: u128,
    new_hash: Seq<char>,
    r: Result<PasswordHash, AuthError>,
) -> bool {
    match r {
        Ok(hash) => pre.users.contains_key(id) && hash@ == new_hash && post
            == pre.with_password_hash(id, new_hash),
        Err(AuthError::NotFound) => !pre.users.contains_key(id) && post == pre,
        Err(_) => false,
    }
}

/// What deleting a user does: the user goes, and every session of that user
/// goes with it.
pub open spec fn delete_user_post(
    pre: StoreState,
    post: StoreState,
    id: u128,
    r: Result<(), AuthError>,
) -> bool {
    match r {
        Ok(()) => pre.users.contains_key(id) && post == pre.without_user(id),
        Err(AuthError::NotFound) => !pre.users.contains_key(id) && post == pre,
        Err(_) => false,
    }
}

/// What issuing a session does. On success the user's expired sessions are
/// gone and the new session is filed. A refusal leaves the store as it was,
/// or as it was without the user's expired sessions.
pub open spec fn issue_session_post(
    pre: StoreState,
    post: StoreState,
    uid: u128,
    ip: SessionIp,
    now: Timestamp,
    sid: Seq<char>,
    max: usize,
    r: Result<Session, AuthError>,
) -> bool {
    &&& verdict_of(r) == pre.issue_session_verdict(uid, now, sid, max)
    &&& match r {
        Ok(session) => session@ == new_session(sid, uid, ip, now) && post == pre.reaped(
            uid,
            now,
        ).with_session(session@),
        Err(AuthError::NotFound) => post == pre,
        Err(_) => post == pre || post == pre.reaped(uid, now),
    }
}

/// What fetching a session does: a live session is returned as stored; a
/// session found expired is removed.
pub open spec fn fetch_session_post(
    pre: StoreState,
    post: StoreState,
    sid: Seq<char>,
    now: Timestamp,
    r: Result<Session, AuthError>,
) -> bool {
    &&& verdict_of(r) == pre.session_verdict(sid, now)
    &&& post == pre.after_fetch(sid, now)
    &&& r matches Ok(session) ==> session@ == pre.sessions[sid]
}

/// What extending a session does: a live session gets a new expiry, one
/// lifetime after `now`, and is returned so; a session found expired is
/// removed.
pub open spec fn extend_session_post(
    pre: StoreState,
    post: StoreState,
    sid: Seq<char>,
    now: Timestamp,
    r: Result<Session, AuthError>,
) -> bool {
    &&& verdict_of(r) == pre.session_verdict(sid, now)
    &&& post == pre.after_extend(sid, now)
    &&& r matches Ok(session) ==> session@ == pre.sessions[sid].with_expiry(now.session_end())
}

/// What revoking a session does: a session that exists is removed, live or
/// not.
pub open spec fn revoke_session_post(
    pre: StoreState,
    post: StoreState,
    sid: Seq<char>,
    r: Result<(), AuthError>,
) -> bool {
    match r {
        Ok(()) => pre.sessions.contains_key(sid) && post == pre.without_session(sid),
        Err(AuthError::InvalidSession) => !pre.sessions.contains_key(sid) && post == pre,
        Err(_) => false,
    }
}

/// What a call of `create_user_with_id` may do on a backend: what creating a
/// user does; or, where the backend can fail, end in a fault, having done
/// nothing or the whole of it.
pub open spec fn create_user_outcome(
    pre: StoreState,
    post: StoreState,
    may_fault: bool,
    username: Seq<char>,
    password_hash: Seq<char>,
    role: Role,
    id: u128,
    r: Result<User, AuthError>,
) -> bool {
    ||| create_user_post(pre, post, username, password_hash, role, id, r)
    ||| may_fault && is_fault(r) && (post == pre || exists|done: Result<User, AuthError>|
        create_user_post(pre, post, username, password_hash, role, id, done))
}

/// What a call of `get_user_by_id` may do on a backend.
pub open spec fn get_user_by_id_outcome(
    pre: StoreState,
    may_fault: bool,
    id: u128,
    r: Result<User, AuthError>,
) -> bool {
    ||| get_user_by_id_post(pre, id, r)
    ||| may_fault && is_fault(r)
}

/// What a call of `get_user_by_username` may do on a backend.
pub open spec fn get_user_by_username_outcome(
    pre: StoreState,
    may_fault: bool,
    username: Seq<char>,
    r: Result<User, AuthError>,
) -> bool {
    ||| get_user_by_username_post(pre, username, r)
    ||| may_fault && is_fault(r)
}

/// What a call of `set_password_hash` may do on a backend: what replacing
/// the hash does; or, where the backend can fail, end in a fault, having
/// done nothing or the whole of it.
pub open spec fn set_password_hash_outcome(
    pre: StoreState,
    post: StoreState,
    may_fault: bool,
    id: u128,
    new_hash: Seq<char>,
    r: Result<PasswordHash, AuthError>,
) -> bool {
    ||| set_password_hash_post(pre, post, id, new_hash, r)
    ||| may_fault && is_fault(r) && (post == pre || exists|done: Result<PasswordHash, AuthError>|
        set_password_hash_post(pre, post, id, new_hash, done))
}

/// What a call of `delete_user` may do on a backend: what deleting a user
/// does; or, where the backend can fail, end in a fault, having done nothing
/// or the whole of it.
pub open spec fn delete_user_outcome(
    pre: StoreState,
    post: StoreState,
    may_fault: bool,
    id: u128,
    r: Result<(), AuthError>,
) -> bool {
    ||| delete_user_post(pre, post, id, r)
    ||| may_fault && is_fault(r) && (post == pre || exists|done: Result<(), AuthError>|
        delete_user_post(pre, post, id, done))
}

/// What a call of `issue_session_with` may do on a backend: what issuing a
/// session does; or, where the backend can fail, end in a fault, having done
/// nothing or the whole of it.
pub open spec fn issue_session_outcome(
    pre: StoreState,
    post: StoreState,
    may_fault: bool,
    uid: u128,
    ip: SessionIp,
    now: Timestamp,
    sid: Seq<char>,
    max: usize,
    r: Result<Session, AuthError>,
) -> bool {
    ||| issue_session_post(pre, post, uid, ip, now, sid, max, r)
    ||| may_fault && is_fault(r) && (post == pre || exists|done: Result<Session, AuthError>|
        issue_session_post(pre, post, uid, ip, now, sid, max, done))
}

/// What a call of `fetch_session_at` may do on a backend: what fetching a
/// session does; or, where the backend can fail, end in a fault, having done
/// nothing or the whole of it.
pub open spec fn fetch_session_outcome(
    pre: StoreState,
    post: StoreState,
    may_fault: bool,
    sid: Seq<char>,
    now: Timestamp,
    r: Result<Session, AuthError>,
) -> bool {
    ||| fetch_session_post(pre, post, sid, now, r)
    ||| may_fault && is_fault(r) && (post == pre || exists|done: Result<Session, AuthError>|
        fetch_session_post(pre, post, sid, now, done))
}

/// What a call of `extend_session_at` may do on a backend: what extending a
/// session does; or, where the backend can fail, end in a fault, having done
/// nothing or the whole of it.
pub open spec fn extend_session_outcome(
    pre: StoreState,
    post: StoreState,
    may_fault: bool,
    sid: Seq<char>,
    now: Timestamp,
    r: Result<Session, AuthError>,
) -> bool {
    ||| extend_session_post(pre, post, sid, now, r)
    ||| may_fault && is_fault(r) && (post == pre || exists|done: Result<Session, AuthError>|
        extend_session_post(pre, post, sid, now, done))
}

/// What a call of `revoke_session` may do on a backend: what revoking a
/// session does; or, where the backend can fail, end in a fault, having done
/// nothing or the whole of it.
pub open spec fn revoke_session_outcome(
    pre: StoreState,
    post: StoreState,
    may_fault: bool,
    sid: Seq<char>,
    r: Result<(), AuthError>,
) -> bool {
    ||| revoke_session_post(pre, post, sid, r)
    ||| may_fault && is_fault(r) && (post == pre || exists|done: Result<(), AuthError>|
        revoke_session_post(pre, post, sid, done))
}

/// Filing a new user under a free identifier and a free name keeps a store
/// well-formed.
pub proof fn lemma_create_user_keeps_wf(pre: StoreState, user: UserView)
    requires
        pre.wf(),
        !pre.has_username(user.username),
        !pre.users.contains_key(user.id),
    ensures
        pre.with_user(user).wf(),
{
    let post = pre.with_user(user);
    assert forall|a: u128, b: u128|
        #![trigger post.users[a], post.users[b]]
        post.users.contains_key(a) && post.users.contains_key(b) && post.users[a].username
            == post.users[b].username implies a == b by {
        if a != b {
            if a == user.id {
                assert(pre.names_user(user.username, b));
            } else if b == user.id {
                assert(pre.names_user(user.username, a));
            }
        }
    }
}

/// Replacing the password hash of a user keeps a store well-formed.
pub proof fn lemma_set_password_hash_keeps_wf(pre: StoreState, id: u128, password_hash: Seq<char>)
    requires
        pre.wf(),
        pre.users.contains_key(id),
    ensures
        pre.with_password_hash(id, password_hash).wf(),
{
    let post = pre.with_password_hash(id, password_hash);
    assert forall|a: u128, b: u128|
        #![trigger post.users[a], post.users[b]]
        post.users.contains_key(a) && post.users.contains_key(b) && post.users[a].username
            == post.users[b].username implies a == b by {
        assert(post.users[a].username == pre.users[a].username);
        assert(post.users[b].username == pre.users[b].username);
    }
}

/// Removing a session keeps a store well-formed.
pub proof fn lemma_without_session_keeps_wf(pre: StoreState, sid: Seq<char>)
    requires
        pre.wf(),
    ensures
        pre.without_session(sid).wf(),
{
}

/// Removing the expired sessions of a user keeps a store well-formed.
pub proof fn lemma_reaped_keeps_wf(pre: StoreState, uid: u128, now: Timestamp)
    requires
        pre.wf(),
    ensures
        pre.reaped(uid, now).wf(),
{
    assert(pre.reaped(uid, now).sessions.dom() =~= pre.sessions.dom().difference(
        pre.expired_sessions(uid, now),
    ));
}

/// Filing a session of an existing user under its own token keeps a store
/// well-formed.
pub proof fn lemma_with_session_keeps_wf(pre: StoreState, session: SessionView)
    requires
        pre.wf(),
        pre.users.contains_key(session.user_id),
    ensures
        pre.with_session(session).wf(),
{
}

/// Deleting a user together with the user's sessions keeps a store
/// well-formed: no session is left without its owner.
pub proof fn lemma_delete_user_keeps_wf(pre: StoreState, uid: u128)
    requires
        pre.wf(),
    ensures
        pre.without_user(uid).wf(),
{
    assert(pre.without_user(uid).sessions.dom() =~= pre.sessions.dom().difference(
        Set::new(|sid: Seq<char>| pre.owns(uid, sid)),
    ));
}

} // verus!
