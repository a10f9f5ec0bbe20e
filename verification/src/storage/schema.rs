//! How the five tables stand for a store: the users and sessions that the
//! rows hold, when the indexes agree with them, and what the row changes of
//! each operation mean for the store.

use vstd::prelude::*;
use vstd::set_lib::lemma_set_subset_finite;
use crate::clock::Timestamp;
use crate::model::StoreState;
use crate::storage::codec::{session_of_row, session_row, user_of_row, user_row};
use crate::storage::tables::{row_at, Tables};
use crate::types::{SessionView, UserView};

verus! {

impl Tables {
    /// The user that the row under `id` holds, if there is such a row and it
    /// decodes.
    pub open spec fn user_in(self, id: u128) -> Option<UserView> {
        if self.users.contains_key(id) {
            user_of_row(self.users[id])
        } else {
            None
        }
    }

    /// The session that the row under `token` holds, if there is such a row
    /// and it decodes.
    pub open spec fn session_in(self, token: Seq<char>) -> Option<SessionView> {
        if self.sessions.contains_key(token) {
            session_of_row(self.sessions[token])
        } else {
            None
        }
    }

    /// The users and sessions that the rows hold.
    pub open spec fn state(self) -> StoreState {
        StoreState {
            users: Map::new(
                |id: u128| self.user_in(id) is Some,
                |id: u128| self.user_in(id)->Some_0,
            ),
            sessions: Map::new(
                |token: Seq<char>| self.session_in(token) is Some,
                |token: Seq<char>| self.session_in(token)->Some_0,
            ),
        }
    }

    /// Whether the tables agree with each other: every row decodes to a
    /// record filed under its own key; the username index has exactly one
    /// entry per user, under the user's name; every session belongs to a
    /// user that exists; and the two session indexes have exactly one entry
    /// per session, under its owner.
    pub open spec fn consistent(self) -> bool {
        &&& self.users.dom().finite()
        &&& self.sessions.dom().finite()
        &&& forall|id: u128| #[trigger]
            self.users.contains_key(id) ==> {
                &&& self.user_in(id) matches Some(user)
                &&& user.id == id
                &&& self.usernames.contains_key(user.username)
                &&& self.usernames[user.username] == id
            }
        &&& forall|name: Seq<char>| #[trigger]
            self.usernames.contains_key(name) ==> {
                &&& self.user_in(self.usernames[name]) matches Some(user)
                &&& user.username == name
            }
        &&& forall|token: Seq<char>| #[trigger]
            self.sessions.contains_key(token) ==> {
                &&& self.session_in(token) matches Some(session)
                &&& session.id == token
                &&& self.users.contains_key(session.user_id)
                &&& self.session_user.contains_key(token)
                &&& self.session_user[token] == session.user_id
                &&& self.user_sessions.contains((session.user_id, token))
            }
        &&& forall|token: Seq<char>| #[trigger]
            self.session_user.contains_key(token) ==> self.sessions.contains_key(token)
        &&& forall|uid: u128, token: Seq<char>| #[trigger]
            self.user_sessions.contains((uid, token)) ==> {
                &&& self.session_in(token) matches Some(session)
                &&& session.user_id == uid
            }
    }

    /// The tables with the row of a user and the user's index entry.
    pub open spec fn with_user_row(self, id: u128, name: Seq<char>, row: Seq<u8>) -> Tables {
        Tables { users: self.users.insert(id, row), usernames: self.usernames.insert(name, id), ..self }
    }

    /// The tables with another row under the user id `id`.
    pub open spec fn with_user_row_replaced(self, id: u128, row: Seq<u8>) -> Tables {
        Tables { users: self.users.insert(id, row), ..self }
    }

    /// The tables with the row of a session and its two index entries.
    pub open spec fn with_session_row(self, uid: u128, token: Seq<char>, row: Seq<u8>) -> Tables {
        Tables {
            sessions: self.sessions.insert(token, row),
            user_sessions: self.user_sessions.insert((uid, token)),
            session_user: self.session_user.insert(token, uid),
            ..self
        }
    }

    /// The tables with another row under the token `token`.
    pub open spec fn with_session_row_replaced(self, token: Seq<char>, row: Seq<u8>) -> Tables {
        Tables { sessions: self.sessions.insert(token, row), ..self }
    }

    /// The tables without the session `token` of user `uid`: its row and its
    /// two index entries.
    pub open spec fn without_session(self, uid: u128, token: Seq<char>) -> Tables {
        Tables {
            sessions: self.sessions.remove(token),
            user_sessions: self.user_sessions.remove((uid, token)),
            session_user: self.session_user.remove(token),
            ..self
        }
    }

    /// The tables without what they hold of `token` under the owner that
    /// the session-to-user index names; where the index names none, the
    /// tables as they are.
    pub open spec fn without_indexed_session(self, token: Seq<char>) -> Tables {
        if self.session_user.contains_key(token) {
            self.without_session(self.session_user[token], token)
        } else {
            self
        }
    }

    /// The tables without the sessions `tokens` of user `uid`: their rows
    /// and their index entries.
    pub open spec fn without_sessions(self, uid: u128, tokens: Set<Seq<char>>) -> Tables {
        Tables {
            sessions: self.sessions.remove_keys(tokens),
            user_sessions: self.user_sessions.filter(
                |pair: (u128, Seq<char>)| !(pair.0 == uid && tokens.contains(pair.1)),
            ),
            session_user: self.session_user.remove_keys(tokens),
            ..self
        }
    }

    /// The tokens that the index pairs with user `uid`.
    pub open spec fn indexed_tokens(self, uid: u128) -> Set<Seq<char>> {
        Set::new(|token: Seq<char>| self.user_sessions.contains((uid, token)))
    }

    /// The tables without anything that the session tables hold of the
    /// tokens indexed under user `uid`.
    pub open spec fn without_sessions_of(self, uid: u128) -> Tables {
        Tables {
            sessions: self.sessions.remove_keys(self.indexed_tokens(uid)),
            user_sessions: self.user_sessions.filter(|pair: (u128, Seq<char>)| pair.0 != uid),
            session_user: self.session_user.remove_keys(self.indexed_tokens(uid)),
            ..self
        }
    }

    /// The tables without user `id`, whose name is `name`: the user's row
    /// and index entry, and all that the session tables hold of the tokens
    /// indexed under the user.
    pub open spec fn without_user(self, id: u128, name: Seq<char>) -> Tables {
        Tables {
            users: self.users.remove(id),
            usernames: self.usernames.remove(name),
            ..self.without_sessions_of(id)
        }
    }

    /// Whether `token` is indexed under `uid` without a live session behind
    /// it: its row is missing, or holds a session that has expired by `now`.
    pub open spec fn stale(self, uid: u128, token: Seq<char>, now: Timestamp) -> bool {
        self.user_sessions.contains((uid, token)) && !(self.session_in(token) matches Some(session)
            && session.live_at(now))
    }

    /// The tokens indexed under `uid` that are stale at `now`.
    pub open spec fn stale_tokens(self, uid: u128, now: Timestamp) -> Set<Seq<char>> {
        Set::new(|token: Seq<char>| self.stale(uid, token, now))
    }

    /// The tokens indexed under `uid` whose session is live at `now`.
    pub open spec fn live_tokens(self, uid: u128, now: Timestamp) -> Set<Seq<char>> {
        Set::new(
            |token: Seq<char>|
                self.user_sessions.contains((uid, token)) && !self.stale(uid, token, now),
        )
    }
}

/// Tables that agree with each other hold a well-formed store.
pub proof fn lemma_consistent_state_wf(t: Tables)
    requires
        t.consistent(),
    ensures
        t.state().wf(),
        forall|id: u128| t.state().users.contains_key(id) <==> t.users.contains_key(id),
        forall|token: Seq<char>|
            t.state().sessions.contains_key(token) <==> t.sessions.contains_key(token),
        forall|name: Seq<char>| t.state().has_username(name) <==> t.usernames.contains_key(name),
{
    let s = t.state();
    assert(s.users.dom() =~= t.users.dom());
    assert(s.sessions.dom() =~= t.sessions.dom());
    assert forall|a: u128, b: u128|
        #![trigger s.users[a], s.users[b]]
        s.users.contains_key(a) && s.users.contains_key(b) && s.users[a].username
            == s.users[b].username implies a == b by {
        assert(t.users.contains_key(a));
        assert(t.users.contains_key(b));
    }
    assert forall|name: Seq<char>| s.has_username(name) <==> t.usernames.contains_key(name) by {
        if s.has_username(name) {
            let id = choose|id: u128| s.names_user(name, id);
            assert(t.users.contains_key(id));
        }
        if t.usernames.contains_key(name) {
            assert(s.names_user(name, t.usernames[name]));
        }
    }
}

/// Putting the row and the index entry of a new user into consistent
/// tables files the user in the store and keeps the tables consistent.
pub proof fn lemma_user_row_refines(pre: Tables, user: UserView)
    requires
        pre.consistent(),
        !pre.usernames.contains_key(user.username),
        !pre.users.contains_key(user.id),
        user_of_row(user_row(user)) == Some(user),
    ensures
        pre.with_user_row(user.id, user.username, user_row(user)).consistent(),
        pre.with_user_row(user.id, user.username, user_row(user)).state() == pre.state().with_user(
            user,
        ),
{
    let post = pre.with_user_row(user.id, user.username, user_row(user));
    assert forall|id: u128| #[trigger] post.users.contains_key(id) implies {
        &&& post.user_in(id) matches Some(found)
        &&& found.id == id
        &&& post.usernames.contains_key(found.username)
        &&& post.usernames[found.username] == id
    } by {
        if id != user.id {
            assert(pre.users.contains_key(id));
        }
    }
    assert forall|name: Seq<char>| #[trigger] post.usernames.contains_key(name) implies {
        &&& post.user_in(post.usernames[name]) matches Some(found)
        &&& found.username == name
    } by {
        if name != user.username {
            assert(pre.usernames.contains_key(name));
        }
    }
    assert forall|token: Seq<char>| #[trigger] post.sessions.contains_key(token) implies {
        &&& post.session_in(token) matches Some(session)
        &&& session.id == token
        &&& post.users.contains_key(session.user_id)
        &&& post.session_user.contains_key(token)
        &&& post.session_user[token] == session.user_id
        &&& post.user_sessions.contains((session.user_id, token))
    } by {
        assert(pre.sessions.contains_key(token));
    }
    assert forall|uid: u128, token: Seq<char>| #[trigger]
        post.user_sessions.contains((uid, token)) implies {
        &&& post.session_in(token) matches Some(session)
        &&& session.user_id == uid
    } by {
        assert(pre.user_sessions.contains((uid, token)));
    }
    assert(post.state().users =~= pre.state().with_user(user).users);
    assert(post.state().sessions =~= pre.state().with_user(user).sessions);
}

/// Replacing the row of a user by one that differs in the password hash
/// only replaces the hash in the store and keeps the tables consistent.
pub proof fn lemma_user_row_replaced_refines(pre: Tables, id: u128, password_hash: Seq<char>)
    requires
        pre.consistent(),
        pre.users.contains_key(id),
        user_of_row(user_row(pre.user_in(id)->Some_0.with_password_hash(password_hash))) == Some(
            pre.user_in(id)->Some_0.with_password_hash(password_hash),
        ),
    ensures
        pre.with_user_row_replaced(
            id,
            user_row(pre.user_in(id)->Some_0.with_password_hash(password_hash)),
        ).consistent(),
        pre.with_user_row_replaced(
            id,
            user_row(pre.user_in(id)->Some_0.with_password_hash(password_hash)),
        ).state() == pre.state().with_password_hash(id, password_hash),
{
    let updated = pre.user_in(id)->Some_0.with_password_hash(password_hash);
    let post = pre.with_user_row_replaced(id, user_row(updated));
    assert forall|other: u128| #[trigger] post.users.contains_key(other) implies {
        &&& post.user_in(other) matches Some(found)
        &&& found.id == other
        &&& post.usernames.contains_key(found.username)
        &&& post.usernames[found.username] == other
    } by {
        assert(pre.users.contains_key(other));
    }
    assert forall|name: Seq<char>| #[trigger] post.usernames.contains_key(name) implies {
        &&& post.user_in(post.usernames[name]) matches Some(found)
        &&& found.username == name
    } by {
        assert(pre.usernames.contains_key(name));
    }
    assert forall|token: Seq<char>| #[trigger] post.sessions.contains_key(token) implies {
        &&& post.session_in(token) matches Some(session)
        &&& session.id == token
        &&& post.users.contains_key(session.user_id)
        &&& post.session_user.contains_key(token)
        &&& post.session_user[token] == session.user_id
        &&& post.user_sessions.contains((session.user_id, token))
    } by {
        assert(pre.sessions.contains_key(token));
    }
    assert forall|uid: u128, token: Seq<char>| #[trigger]
        post.user_sessions.contains((uid, token)) implies {
        &&& post.session_in(token) matches Some(session)
        &&& session.user_id == uid
    } by {
        assert(pre.user_sessions.contains((uid, token)));
    }
    assert(post.state().users =~= pre.state().with_password_hash(id, password_hash).users);
    assert(post.state().sessions =~= pre.state().sessions);
}

/// In consistent tables the tokens indexed under a user are the tokens of
/// the user's sessions: the live ones are the user's live sessions, the
/// stale ones the expired sessions.
pub proof fn lemma_index_matches_sessions(t: Tables, uid: u128, now: Timestamp)
    requires
        t.consistent(),
    ensures
        t.indexed_tokens(uid) == Set::new(|token: Seq<char>| t.state().owns(uid, token)),
        t.live_tokens(uid, now) == t.state().active_sessions(uid, now),
        t.stale_tokens(uid, now) == t.state().expired_sessions(uid, now),
        t.live_tokens(uid, now).finite(),
{
    lemma_consistent_state_wf(t);
    assert forall|token: Seq<char>|
        t.user_sessions.contains((uid, token)) <==> t.state().owns(uid, token) by {
        if t.state().owns(uid, token) {
            assert(t.sessions.contains_key(token));
        }
    }
    assert(t.indexed_tokens(uid) =~= Set::new(|token: Seq<char>| t.state().owns(uid, token)));
    assert(t.live_tokens(uid, now) =~= t.state().active_sessions(uid, now));
    assert(t.stale_tokens(uid, now) =~= t.state().expired_sessions(uid, now));
    lemma_set_subset_finite(t.state().sessions.dom(), t.state().active_sessions(uid, now));
}

/// Removing sessions of a user from all three session tables removes them
/// from the store and keeps the tables consistent.
pub proof fn lemma_without_sessions_refines(pre: Tables, uid: u128, tokens: Set<Seq<char>>)
    requires
        pre.consistent(),
        forall|token: Seq<char>| tokens.contains(token) ==> pre.user_sessions.contains((uid, token)),
    ensures
        pre.without_sessions(uid, tokens).consistent(),
        pre.without_sessions(uid, tokens).state().users == pre.state().users,
        pre.without_sessions(uid, tokens).state().sessions == pre.state().sessions.remove_keys(
            tokens,
        ),
{
    let post = pre.without_sessions(uid, tokens);
    assert(post.sessions.dom() =~= pre.sessions.dom().difference(tokens));
    assert forall|id: u128| #[trigger] post.users.contains_key(id) implies {
        &&& post.user_in(id) matches Some(found)
        &&& found.id == id
        &&& post.usernames.contains_key(found.username)
        &&& post.usernames[found.username] == id
    } by {
        assert(pre.users.contains_key(id));
    }
    assert forall|name: Seq<char>| #[trigger] post.usernames.contains_key(name) implies {
        &&& post.user_in(post.usernames[name]) matches Some(found)
        &&& found.username == name
    } by {
        assert(pre.usernames.contains_key(name));
    }
    assert forall|token: Seq<char>| #[trigger] post.sessions.contains_key(token) implies {
        &&& post.session_in(token) matches Some(session)
        &&& session.id == token
        &&& post.users.contains_key(session.user_id)
        &&& post.session_user.contains_key(token)
        &&& post.session_user[token] == session.user_id
        &&& post.user_sessions.contains((session.user_id, token))
    } by {
        assert(pre.sessions.contains_key(token));
    }
    assert forall|token: Seq<char>| #[trigger] post.session_user.contains_key(token) implies
        post.sessions.contains_key(token) by {
        assert(pre.session_user.contains_key(token));
    }
    assert forall|other: u128, token: Seq<char>| #[trigger]
        post.user_sessions.contains((other, token)) implies {
        &&& post.session_in(token) matches Some(session)
        &&& session.user_id == other
    } by {
        assert(pre.user_sessions.contains((other, token)));
        if tokens.contains(token) {
            assert(pre.user_sessions.contains((uid, token)));
        }
    }
    assert(post.state().users =~= pre.state().users);
    assert(post.state().sessions =~= pre.state().sessions.remove_keys(tokens));
}

/// Putting the row and the two index entries of a new session into
/// consistent tables files the session in the store and keeps the tables
/// consistent.
pub proof fn lemma_session_row_refines(pre: Tables, session: SessionView)
    requires
        pre.consistent(),
        pre.users.contains_key(session.user_id),
        !pre.sessions.contains_key(session.id),
        session_of_row(session_row(session)) == Some(session),
    ensures
        pre.with_session_row(session.user_id, session.id, session_row(session)).consistent(),
        pre.with_session_row(session.user_id, session.id, session_row(session)).state()
            == pre.state().with_session(session),
{
    let post = pre.with_session_row(session.user_id, session.id, session_row(session));
    assert forall|id: u128| #[trigger] post.users.contains_key(id) implies {
        &&& post.user_in(id) matches Some(found)
        &&& found.id == id
        &&& post.usernames.contains_key(found.username)
        &&& post.usernames[found.username] == id
    } by {
        assert(pre.users.contains_key(id));
    }
    assert forall|name: Seq<char>| #[trigger] post.usernames.contains_key(name) implies {
        &&& post.user_in(post.usernames[name]) matches Some(found)
        &&& found.username == name
    } by {
        assert(pre.usernames.contains_key(name));
    }
    assert forall|token: Seq<char>| #[trigger] post.sessions.contains_key(token) implies {
        &&& post.session_in(token) matches Some(held)
        &&& held.id == token
        &&& post.users.contains_key(held.user_id)
        &&& post.session_user.contains_key(token)
        &&& post.session_user[token] == held.user_id
        &&& post.user_sessions.contains((held.user_id, token))
    } by {
        if token != session.id {
            assert(pre.sessions.contains_key(token));
        }
    }
    assert forall|token: Seq<char>| #[trigger] post.session_user.contains_key(token) implies
        post.sessions.contains_key(token) by {
        if token != session.id {
            assert(pre.session_user.contains_key(token));
        }
    }
    assert forall|uid: u128, token: Seq<char>| #[trigger]
        post.user_sessions.contains((uid, token)) implies {
        &&& post.session_in(token) matches Some(held)
        &&& held.user_id == uid
    } by {
        if (uid, token) != (session.user_id, session.id) {
            assert(pre.user_sessions.contains((uid, token)));
        }
    }
    assert(post.state().users =~= pre.state().users);
    assert(post.state().sessions =~= pre.state().with_session(session).sessions);
}

/// Replacing the row of a session by one that differs in the expiry only
/// replaces the session in the store and keeps the tables consistent.
pub proof fn lemma_session_row_replaced_refines(pre: Tables, token: Seq<char>, expires_at: Timestamp)
    requires
        pre.consistent(),
        pre.sessions.contains_key(token),
        session_of_row(session_row(pre.session_in(token)->Some_0.with_expiry(expires_at))) == Some(
            pre.session_in(token)->Some_0.with_expiry(expires_at),
        ),
    ensures
        pre.with_session_row_replaced(
            token,
            session_row(pre.session_in(token)->Some_0.with_expiry(expires_at)),
        ).consistent(),
        pre.with_session_row_replaced(
            token,
            session_row(pre.session_in(token)->Some_0.with_expiry(expires_at)),
        ).state() == pre.state().with_session(
            pre.session_in(token)->Some_0.with_expiry(expires_at),
        ),
{
    let updated = pre.session_in(token)->Some_0.with_expiry(expires_at);
    let post = pre.with_session_row_replaced(token, session_row(updated));
    assert(post.sessions.dom() =~= pre.sessions.dom());
    assert forall|id: u128| #[trigger] post.users.contains_key(id) implies {
        &&& post.user_in(id) matches Some(found)
        &&& found.id == id
        &&& post.usernames.contains_key(found.username)
        &&& post.usernames[found.username] == id
    } by {
        assert(pre.users.contains_key(id));
    }
    assert forall|name: Seq<char>| #[trigger] post.usernames.contains_key(name) implies {
        &&& post.user_in(post.usernames[name]) matches Some(found)
        &&& found.username == name
    } by {
        assert(pre.usernames.contains_key(name));
    }
    assert forall|other: Seq<char>| #[trigger] post.sessions.contains_key(other) implies {
        &&& post.session_in(other) matches Some(held)
        &&& held.id == other
        &&& post.users.contains_key(held.user_id)
        &&& post.session_user.contains_key(other)
        &&& post.session_user[other] == held.user_id
        &&& post.user_sessions.contains((held.user_id, other))
    } by {
        assert(pre.sessions.contains_key(other));
    }
    assert forall|other: Seq<char>| #[trigger] post.session_user.contains_key(other) implies
        post.sessions.contains_key(other) by {
        assert(pre.session_user.contains_key(other));
    }
    assert forall|uid: u128, other: Seq<char>| #[trigger]
        post.user_sessions.contains((uid, other)) implies {
        &&& post.session_in(other) matches Some(held)
        &&& held.user_id == uid
    } by {
        assert(pre.user_sessions.contains((uid, other)));
    }
    assert(post.state().users =~= pre.state().users);
    assert(post.state().sessions =~= pre.state().with_session(updated).sessions);
}

/// Removing a session from all three session tables, under the owner that
/// the session-to-user index names, removes it from the store and keeps the
/// tables consistent.
pub proof fn lemma_without_session_refines(pre: Tables, token: Seq<char>)
    requires
        pre.consistent(),
        pre.session_user.contains_key(token),
    ensures
        pre.sessions.contains_key(token),
        pre.without_session(pre.session_user[token], token).consistent(),
        pre.without_session(pre.session_user[token], token).state() == pre.state().without_session(
            token,
        ),
{
    let uid = pre.session_user[token];
    let post = pre.without_session(uid, token);
    assert(pre.sessions.contains_key(token));
    assert forall|id: u128| #[trigger] post.users.contains_key(id) implies {
        &&& post.user_in(id) matches Some(found)
        &&& found.id == id
        &&& post.usernames.contains_key(found.username)
        &&& post.usernames[found.username] == id
    } by {
        assert(pre.users.contains_key(id));
    }
    assert forall|name: Seq<char>| #[trigger] post.usernames.contains_key(name) implies {
        &&& post.user_in(post.usernames[name]) matches Some(found)
        &&& found.username == name
    } by {
        assert(pre.usernames.contains_key(name));
    }
    assert forall|other: Seq<char>| #[trigger] post.sessions.contains_key(other) implies {
        &&& post.session_in(other) matches Some(held)
        &&& held.id == other
        &&& post.users.contains_key(held.user_id)
        &&& post.session_user.contains_key(other)
        &&& post.session_user[other] == held.user_id
        &&& post.user_sessions.contains((held.user_id, other))
    } by {
        assert(pre.sessions.contains_key(other));
    }
    assert forall|other: Seq<char>| #[trigger] post.session_user.contains_key(other) implies
        post.sessions.contains_key(other) by {
        assert(pre.session_user.contains_key(other));
    }
    assert forall|owner: u128, other: Seq<char>| #[trigger]
        post.user_sessions.contains((owner, other)) implies {
        &&& post.session_in(other) matches Some(held)
        &&& held.user_id == owner
    } by {
        assert(pre.user_sessions.contains((owner, other)));
    }
    assert(post.state().users =~= pre.state().users);
    assert(post.state().sessions =~= pre.state().without_session(token).sessions);
}

/// Removing a user's row and index entry together with every session
/// indexed under the user removes the user and the user's sessions from the
/// store and keeps the tables consistent.
pub proof fn lemma_without_user_refines(pre: Tables, id: u128)
    requires
        pre.consistent(),
        pre.users.contains_key(id),
    ensures
        pre.without_user(id, pre.user_in(id)->Some_0.username).consistent(),
        pre.without_user(id, pre.user_in(id)->Some_0.username).state() == pre.state().without_user(
            id,
        ),
{
    let name = pre.user_in(id)->Some_0.username;
    let post = pre.without_user(id, name);
    lemma_consistent_state_wf(pre);
    assert(post.sessions.dom() =~= pre.sessions.dom().difference(pre.indexed_tokens(id)));
    assert forall|other: u128| #[trigger] post.users.contains_key(other) implies {
        &&& post.user_in(other) matches Some(found)
        &&& found.id == other
        &&& post.usernames.contains_key(found.username)
        &&& post.usernames[found.username] == other
    } by {
        assert(pre.users.contains_key(other));
    }
    assert forall|other: Seq<char>| #[trigger] post.usernames.contains_key(other) implies {
        &&& post.user_in(post.usernames[other]) matches Some(found)
        &&& found.username == other
    } by {
        assert(pre.usernames.contains_key(other));
    }
    assert forall|token: Seq<char>| #[trigger] post.sessions.contains_key(token) implies {
        &&& post.session_in(token) matches Some(held)
        &&& held.id == token
        &&& post.users.contains_key(held.user_id)
        &&& post.session_user.contains_key(token)
        &&& post.session_user[token] == held.user_id
        &&& post.user_sessions.contains((held.user_id, token))
    } by {
        assert(pre.sessions.contains_key(token));
    }
    assert forall|token: Seq<char>| #[trigger] post.session_user.contains_key(token) implies
        post.sessions.contains_key(token) by {
        assert(pre.session_user.contains_key(token));
    }
    assert forall|owner: u128, token: Seq<char>| #[trigger]
        post.user_sessions.contains((owner, token)) implies {
        &&& post.session_in(token) matches Some(held)
        &&& held.user_id == owner
    } by {
        assert(pre.user_sessions.contains((owner, token)));
    }
    assert(post.state().users =~= pre.state().without_user(id).users);
    assert forall|token: Seq<char>|
        pre.indexed_tokens(id).contains(token) <==> pre.state().owns(id, token) by {
        if pre.state().owns(id, token) {
            assert(pre.sessions.contains_key(token));
        }
    }
    assert(post.state().sessions =~= pre.state().without_user(id).sessions);
}

/// What is gone from the tables with a user, and what stays. The user's
/// row and the entry of the user's name are gone, and so is all that the
/// three session tables held of the tokens indexed under the user. The rows
/// and names of other users stay, and so do the sessions of other users in
/// all three tables.
pub proof fn theorem_deleted_user_rows(t: Tables, id: u128, name: Seq<char>)
    ensures
        !t.without_user(id, name).users.contains_key(id),
        !t.without_user(id, name).usernames.contains_key(name),
        forall|token: Seq<char>|
            !(#[trigger] t.without_user(id, name).user_sessions.contains((id, token))),
        forall|token: Seq<char>| #[trigger]
            t.user_sessions.contains((id, token)) ==> !t.without_user(
                id,
                name,
            ).sessions.contains_key(token) && !t.without_user(id, name).session_user.contains_key(
                token,
            ),
        forall|other: u128|
            other != id ==> row_at(#[trigger] t.without_user(id, name).users, other) == row_at(
                t.users,
                other,
            ),
        forall|other: Seq<char>|
            other != name ==> row_at(#[trigger] t.without_user(id, name).usernames, other)
                == row_at(t.usernames, other),
        forall|token: Seq<char>|
            !t.user_sessions.contains((id, token)) ==> row_at(
                #[trigger] t.without_user(id, name).sessions,
                token,
            ) == row_at(t.sessions, token) && row_at(
                t.without_user(id, name).session_user,
                token,
            ) == row_at(t.session_user, token),
        forall|other: u128, token: Seq<char>|
            other != id ==> #[trigger] t.without_user(id, name).user_sessions.contains(
                (other, token),
            ) == t.user_sessions.contains((other, token)),
{
}

/// What is gone from the tables with a session that was found expired or
/// was revoked, and what stays. The row of the token and both its index
/// entries are gone. Users and names stay, and so do all other sessions in
/// all three tables.
pub proof fn theorem_discarded_session_rows(t: Tables, token: Seq<char>)
    requires
        t.session_user.contains_key(token),
    ensures
        !t.without_indexed_session(token).sessions.contains_key(token),
        !t.without_indexed_session(token).session_user.contains_key(token),
        !t.without_indexed_session(token).user_sessions.contains((t.session_user[token], token)),
        t.without_indexed_session(token).users == t.users,
        t.without_indexed_session(token).usernames == t.usernames,
        forall|other: Seq<char>|
            other != token ==> row_at(#[trigger] t.without_indexed_session(token).sessions, other)
                == row_at(t.sessions, other) && row_at(
                t.without_indexed_session(token).session_user,
                other,
            ) == row_at(t.session_user, other),
        forall|uid: u128, other: Seq<char>|
            other != token ==> #[trigger] t.without_indexed_session(token).user_sessions.contains(
                (uid, other),
            ) == t.user_sessions.contains((uid, other)),
{
}

/// What the tables hold after a user was created, and what stays. The row
/// under the identifier decodes to the user, and the name leads to the
/// identifier: both are written together. Everything else stays.
pub proof fn theorem_created_user_rows(t: Tables, user: UserView)
    requires
        user_of_row(user_row(user)) == Some(user),
    ensures
        t.with_user_row(user.id, user.username, user_row(user)).user_in(user.id) == Some(user),
        row_at(t.with_user_row(user.id, user.username, user_row(user)).usernames, user.username)
            == Some(user.id),
        forall|other: u128|
            other != user.id ==> row_at(
                #[trigger] t.with_user_row(user.id, user.username, user_row(user)).users,
                other,
            ) == row_at(t.users, other),
        forall|other: Seq<char>|
            other != user.username ==> row_at(
                #[trigger] t.with_user_row(user.id, user.username, user_row(user)).usernames,
                other,
            ) == row_at(t.usernames, other),
        t.with_user_row(user.id, user.username, user_row(user)).sessions == t.sessions,
        t.with_user_row(user.id, user.username, user_row(user)).user_sessions == t.user_sessions,
        t.with_user_row(user.id, user.username, user_row(user)).session_user == t.session_user,
{
}

/// Tokens that are indexed under a user without a live session behind them
/// never count: the live tokens of a user are those whose row holds a
/// session that has not expired, and sweeping the stale ones away leaves
/// exactly the live ones indexed.
pub proof fn theorem_stale_tokens_never_count(t: Tables, uid: u128, now: Timestamp)
    ensures
        forall|token: Seq<char>| #[trigger]
            t.live_tokens(uid, now).contains(token) <==> t.user_sessions.contains((uid, token)) && (
            t.session_in(token) matches Some(session) && session.live_at(now)),
        t.without_sessions(uid, t.stale_tokens(uid, now)).indexed_tokens(uid) == t.live_tokens(
            uid,
            now,
        ),
{
    assert(t.without_sessions(uid, t.stale_tokens(uid, now)).indexed_tokens(uid)
        =~= t.live_tokens(uid, now));
}

} // verus!
