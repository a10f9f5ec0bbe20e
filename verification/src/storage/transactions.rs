//! What each store operation does inside one write transaction: which rows
//! of the five tables it reads and which it changes.

use vstd::prelude::*;
use crate::clock::Timestamp;
use crate::credentials::PasswordHash;
use crate::error::AuthError;
use crate::model::{new_session, new_user};
use crate::storage::codec::{
    decode_session, decode_user, encode_session, encode_user, session_of_row, session_row,
    user_of_row, user_row,
};
use crate::storage::counting::{lemma_picked, lemma_picked_all, lemma_picked_step, lists_keys, picked};
use crate::storage::tables::{
    engine_error_text, lists_tokens, session_user_get, session_user_insert, session_user_remove,
    sessions_get, sessions_insert, sessions_remove, txn_tables, user_sessions_get,
    user_sessions_insert, user_sessions_remove, user_sessions_remove_all, usernames_get,
    usernames_insert, usernames_remove, users_get, users_insert, users_remove, Tables,
};
use crate::types::{Role, Session, SessionId, SessionIp, User, UserId, Username};

verus! {

/// The error that reports a failure of the engine.
pub fn engine_fault(e: &redb::Error) -> (fault: AuthError)
    ensures
        fault is Internal,
{
    AuthError::Internal(engine_error_text(e))
}

/// Removes the session `token` of user `uid` from the session table and
/// from both indexes.
pub fn remove_session(txn: &mut redb::WriteTransaction, uid: u128, token: &str) -> (r: Result<
    (),
    AuthError,
>)
    ensures
        match r {
            Ok(()) => txn_tables(*final(txn)) == txn_tables(*old(txn)).without_session(uid, token@),
            Err(e) => e is Internal,
        },
{
    match sessions_remove(txn, token) {
        Ok(()) => {},
        Err(e) => {
            return Err(engine_fault(&e));
        },
    }
    match user_sessions_remove(txn, uid, token) {
        Ok(()) => {},
        Err(e) => {
            return Err(engine_fault(&e));
        },
    }
    match session_user_remove(txn, token) {
        Ok(()) => {},
        Err(e) => {
            return Err(engine_fault(&e));
        },
    }
    assert(txn_tables(*txn) =~= txn_tables(*old(txn)).without_session(uid, token@));
    Ok(())
}

/// Inside a write transaction: creates a user under `id`, with a row in the
/// user table and an entry in the username index. Refuses a name that the
/// index holds with `UserExists`, and an identifier that the user table
/// holds with `Internal`.
pub fn create_user_in(
    txn: &mut redb::WriteTransaction,
    username: &Username,
    password_hash: PasswordHash,
    role: Role,
    id: UserId,
) -> (r: Result<User, AuthError>)
    ensures
        match r {
            Ok(user) => {
                &&& !txn_tables(*old(txn)).usernames.contains_key(username@)
                &&& !txn_tables(*old(txn)).users.contains_key(id.0)
                &&& user@ == new_user(id.0, username@, password_hash@, role)
                &&& user_of_row(user_row(user@)) == Some(user@)
                &&& txn_tables(*final(txn)) == txn_tables(*old(txn)).with_user_row(
                    id.0,
                    username@,
                    user_row(user@),
                )
            },
            Err(AuthError::UserExists) => txn_tables(*old(txn)).usernames.contains_key(username@),
            Err(e) => e is Internal,
        },
{
    match usernames_get(txn, username.as_str()) {
        Ok(Some(_)) => {
            return Err(AuthError::UserExists);
        },
        Ok(None) => {},
        Err(e) => {
            return Err(engine_fault(&e));
        },
    }
    match users_get(txn, id.0) {
        Ok(Some(_)) => {
            return Err(AuthError::Internal("user identifier is already in use".to_owned()));
        },
        Ok(None) => {},
        Err(e) => {
            return Err(engine_fault(&e));
        },
    }
    let user = User { id, username: username.clone(), password_hash, role };
    let row = match encode_user(&user) {
        Ok(row) => row,
        Err(e) => {
            return Err(e);
        },
    };
    match users_insert(txn, id.0, row) {
        Ok(()) => {},
        Err(e) => {
            return Err(engine_fault(&e));
        },
    }
    match usernames_insert(txn, username.as_str(), id.0) {
        Ok(()) => {},
        Err(e) => {
            return Err(engine_fault(&e));
        },
    }
    assert(txn_tables(*txn) =~= txn_tables(*old(txn)).with_user_row(
        id.0,
        username@,
        user_row(user@),
    ));
    Ok(user)
}

/// Inside a write transaction: revokes the session `token`, whose owner the
/// session-to-user index names. Refuses a token that the index does not
/// hold with `InvalidSession`.
pub fn revoke_session_in(txn: &mut redb::WriteTransaction, token: &SessionId) -> (r: Result<
    (),
    AuthError,
>)
    ensures
        match r {
            Ok(()) => {
                &&& txn_tables(*old(txn)).session_user.contains_key(token@)
                &&& txn_tables(*final(txn)) == txn_tables(*old(txn)).without_session(
                    txn_tables(*old(txn)).session_user[token@],
                    token@,
                )
            },
            Err(AuthError::InvalidSession) => !txn_tables(*old(txn)).session_user.contains_key(
                token@,
            ),
            Err(e) => e is Internal,
        },
{
    let uid = match session_user_get(txn, token.as_str()) {
        Ok(Some(uid)) => uid,
        Ok(None) => {
            return Err(AuthError::InvalidSession);
        },
        Err(e) => {
            return Err(engine_fault(&e));
        },
    };
    remove_session(txn, uid, token.as_str())
}

/// The tokens of a list, as mathematical values.
pub open spec fn token_keys(tokens: Seq<String>) -> Seq<Seq<char>> {
    Seq::new(tokens.len(), |i: int| tokens[i]@)
}

/// The tokens that occur in a list.
pub open spec fn token_set(tokens: Seq<String>) -> Set<Seq<char>> {
    Set::new(|token: Seq<char>| exists|i: int| 0 <= i < tokens.len() && #[trigger] tokens[i]@ == token)
}

/// A list of the tokens indexed under a user lists each of them once.
pub proof fn lemma_token_keys(tokens: Seq<String>, t: Tables, uid: u128)
    requires
        lists_tokens(tokens, t.user_sessions, uid),
    ensures
        lists_keys(token_keys(tokens), t.indexed_tokens(uid)),
        token_set(tokens) == t.indexed_tokens(uid),
{
    let keys = token_keys(tokens);
    assert forall|key: Seq<char>| #[trigger] t.indexed_tokens(uid).contains(key) implies exists|
        i: int,
    | 0 <= i < keys.len() && keys[i] == key by {
        let i = choose|i: int| 0 <= i < tokens.len() && tokens[i]@ == key;
        assert(keys[i] == key);
    }
    assert forall|i: int, j: int| 0 <= i < j < keys.len() implies #[trigger] keys[i]
        != #[trigger] keys[j] by {
        assert(tokens[i]@ != tokens[j]@);
    }
    assert(token_set(tokens) =~= t.indexed_tokens(uid));
}

/// Removes the sessions `tokens` of user `uid` from the session table and
/// from both indexes.
pub fn remove_sessions_batch(txn: &mut redb::WriteTransaction, uid: u128, tokens: &Vec<String>) -> (r:
    Result<(), AuthError>)
    ensures
        match r {
            Ok(()) => txn_tables(*final(txn)) == txn_tables(*old(txn)).without_sessions(
                uid,
                token_set(tokens@),
            ),
            Err(e) => e is Internal,
        },
{
    let ghost pre = txn_tables(*txn);
    let ghost all = |token: Seq<char>| true;
    let mut i: usize = 0;
    proof {
        assert(pre.without_sessions(uid, picked(token_keys(tokens@), all, 0)) =~= pre);
    }
    while i < tokens.len()
        invariant
            i <= tokens.len(),
            all == |token: Seq<char>| true,
            txn_tables(*txn) == pre.without_sessions(
                uid,
                picked(token_keys(tokens@), all, i as nat),
            ),
        decreases tokens.len() - i,
    {
        match remove_session(txn, uid, tokens[i].as_str()) {
            Ok(()) => {},
            Err(e) => {
                return Err(e);
            },
        }
        proof {
            assert(token_keys(tokens@)[i as int] == tokens[i as int]@);
            assert(txn_tables(*txn) =~= pre.without_sessions(
                uid,
                picked(token_keys(tokens@), all, (i + 1) as nat),
            ));
        }
        i += 1;
    }
    proof {
        lemma_picked(token_keys(tokens@), all, tokens@.len());
        assert forall|token: Seq<char>|
            picked(token_keys(tokens@), all, tokens@.len()).contains(token) <==> token_set(
                tokens@,
            ).contains(token) by {
            if picked(token_keys(tokens@), all, tokens@.len()).contains(token) {
                let j = choose|j: int|
                    0 <= j < tokens@.len() && #[trigger] token_keys(tokens@)[j] == token;
                assert(tokens@[j]@ == token);
            }
            if token_set(tokens@).contains(token) {
                let j = choose|j: int| 0 <= j < tokens@.len() && #[trigger] tokens@[j]@ == token;
                assert(token_keys(tokens@)[j] == token);
            }
        }
        assert(picked(token_keys(tokens@), all, tokens@.len()) =~= token_set(tokens@));
    }
    Ok(())
}

/// Removes every session indexed under user `uid`: the rows, the entries
/// of the session-to-user index, and then all of the user's entries in the
/// user-to-sessions index at once.
pub fn remove_all_user_sessions(txn: &mut redb::WriteTransaction, uid: u128) -> (r: Result<
    (),
    AuthError,
>)
    ensures
        match r {
            Ok(()) => txn_tables(*final(txn)) == txn_tables(*old(txn)).without_sessions_of(uid),
            Err(e) => e is Internal,
        },
{
    let ghost pre = txn_tables(*txn);
    let tokens = match user_sessions_get(txn, uid) {
        Ok(tokens) => tokens,
        Err(e) => {
            return Err(engine_fault(&e));
        },
    };
    let ghost all = |token: Seq<char>| true;
    let ghost keys = token_keys(tokens@);
    let mut i: usize = 0;
    proof {
        assert(txn_tables(*txn) =~= (Tables {
            sessions: pre.sessions.remove_keys(picked(keys, all, 0)),
            session_user: pre.session_user.remove_keys(picked(keys, all, 0)),
            ..pre
        }));
    }
    while i < tokens.len()
        invariant
            i <= tokens.len(),
            all == |token: Seq<char>| true,
            keys == token_keys(tokens@),
            txn_tables(*txn) == (Tables {
                sessions: pre.sessions.remove_keys(picked(keys, all, i as nat)),
                session_user: pre.session_user.remove_keys(picked(keys, all, i as nat)),
                ..pre
            }),
        decreases tokens.len() - i,
    {
        match sessions_remove(txn, tokens[i].as_str()) {
            Ok(()) => {},
            Err(e) => {
                return Err(engine_fault(&e));
            },
        }
        match session_user_remove(txn, tokens[i].as_str()) {
            Ok(()) => {},
            Err(e) => {
                return Err(engine_fault(&e));
            },
        }
        proof {
            assert(keys[i as int] == tokens[i as int]@);
            assert(txn_tables(*txn) =~= (Tables {
                sessions: pre.sessions.remove_keys(picked(keys, all, (i + 1) as nat)),
                session_user: pre.session_user.remove_keys(picked(keys, all, (i + 1) as nat)),
                ..pre
            }));
        }
        i += 1;
    }
    match user_sessions_remove_all(txn, uid) {
        Ok(()) => {},
        Err(e) => {
            return Err(engine_fault(&e));
        },
    }
    proof {
        lemma_token_keys(tokens@, pre, uid);
        lemma_picked_all(keys, all, pre.indexed_tokens(uid));
        assert(picked(keys, all, keys.len()) =~= pre.indexed_tokens(uid));
        assert(txn_tables(*txn) =~= pre.without_sessions_of(uid));
    }
    Ok(())
}

/// Inside a write transaction: replaces the password hash in the row of
/// user `id`. Refuses an identifier without a row with `NotFound`.
pub fn set_password_hash_in(
    txn: &mut redb::WriteTransaction,
    id: &UserId,
    new_hash: PasswordHash,
) -> (r: Result<PasswordHash, AuthError>)
    ensures
        match r {
            Ok(hash) => {
                &&& txn_tables(*old(txn)).user_in(id.0) matches Some(user)
                &&& hash@ == new_hash@
                &&& user_of_row(user_row(user.with_password_hash(new_hash@))) == Some(
                    user.with_password_hash(new_hash@),
                )
                &&& txn_tables(*final(txn)) == txn_tables(*old(txn)).with_user_row_replaced(
                    id.0,
                    user_row(user.with_password_hash(new_hash@)),
                )
            },
            Err(AuthError::NotFound) => !txn_tables(*old(txn)).users.contains_key(id.0),
            Err(e) => e is Internal,
        },
{
    let row = match users_get(txn, id.0) {
        Ok(Some(row)) => row,
        Ok(None) => {
            return Err(AuthError::NotFound);
        },
        Err(e) => {
            return Err(engine_fault(&e));
        },
    };
    let user = match decode_user(row.as_slice()) {
        Ok(user) => user,
        Err(e) => {
            return Err(e);
        },
    };
    let updated = User {
        id: user.id,
        username: user.username,
        password_hash: new_hash.clone(),
        role: user.role,
    };
    let new_row = match encode_user(&updated) {
        Ok(new_row) => new_row,
        Err(e) => {
            return Err(e);
        },
    };
    match users_insert(txn, id.0, new_row) {
        Ok(()) => {},
        Err(e) => {
            return Err(engine_fault(&e));
        },
    }
    assert(txn_tables(*txn) =~= txn_tables(*old(txn)).with_user_row_replaced(
        id.0,
        user_row(updated@),
    ));
    Ok(new_hash)
}

/// Inside a write transaction: deletes user `id`: the user's row, the
/// entry of the user's name in the username index, and every session
/// indexed under the user. Refuses an identifier without a row with
/// `NotFound`.
pub fn delete_user_in(txn: &mut redb::WriteTransaction, id: &UserId) -> (r: Result<(), AuthError>)
    ensures
        match r {
            Ok(()) => {
                &&& txn_tables(*old(txn)).user_in(id.0) matches Some(user)
                &&& txn_tables(*final(txn)) == txn_tables(*old(txn)).without_user(
                    id.0,
                    user.username,
                )
            },
            Err(AuthError::NotFound) => !txn_tables(*old(txn)).users.contains_key(id.0),
            Err(e) => e is Internal,
        },
{
    let row = match users_remove(txn, id.0) {
        Ok(Some(row)) => row,
        Ok(None) => {
            return Err(AuthError::NotFound);
        },
        Err(e) => {
            return Err(engine_fault(&e));
        },
    };
    let user = match decode_user(row.as_slice()) {
        Ok(user) => user,
        Err(e) => {
            return Err(e);
        },
    };
    match usernames_remove(txn, user.username.as_str()) {
        Ok(()) => {},
        Err(e) => {
            return Err(engine_fault(&e));
        },
    }
    match remove_all_user_sessions(txn, id.0) {
        Ok(()) => {},
        Err(e) => {
            return Err(e);
        },
    }
    assert(txn_tables(*txn) =~= txn_tables(*old(txn)).without_user(id.0, user@.username));
    Ok(())
}

/// Inside a write transaction: issues to user `id` the session `token`,
/// created at `now`.
///
/// The tokens indexed under the user are sorted into live and stale ones; a
/// token whose row is missing counts as stale. The stale ones are removed
/// from all three session tables. Then the live ones are counted against
/// `max`, and the new session gets its row and its two index entries.
///
/// Refuses a user without a row with `NotFound`, a user with `max` live
/// sessions or more with `SessionLimitReached`, and a token that the
/// session table holds with `Internal`.
pub fn issue_session_in(
    txn: &mut redb::WriteTransaction,
    id: &UserId,
    ip: SessionIp,
    now: Timestamp,
    token: SessionId,
    max: usize,
) -> (r: Result<Session, AuthError>)
    requires
        now.can_start_session(),
    ensures
        match r {
            Ok(session) => {
                let pre = txn_tables(*old(txn));
                let swept = pre.without_sessions(id.0, pre.stale_tokens(id.0, now));
                &&& pre.users.contains_key(id.0)
                &&& pre.live_tokens(id.0, now).finite()
                &&& pre.live_tokens(id.0, now).len() < max
                &&& !swept.sessions.contains_key(token@)
                &&& session@ == new_session(token@, id.0, ip, now)
                &&& session_of_row(session_row(session@)) == Some(session@)
                &&& txn_tables(*final(txn)) == swept.with_session_row(
                    id.0,
                    token@,
                    session_row(session@),
                )
            },
            Err(AuthError::NotFound) => !txn_tables(*old(txn)).users.contains_key(id.0),
            Err(AuthError::SessionLimitReached) => {
                let pre = txn_tables(*old(txn));
                &&& pre.users.contains_key(id.0)
                &&& pre.live_tokens(id.0, now).finite()
                &&& pre.live_tokens(id.0, now).len() >= max
            },
            Err(e) => e is Internal,
        },
{
    let ghost pre = txn_tables(*txn);
    match users_get(txn, id.0) {
        Ok(Some(_)) => {},
        Ok(None) => {
            return Err(AuthError::NotFound);
        },
        Err(e) => {
            return Err(engine_fault(&e));
        },
    }
    let tokens = match user_sessions_get(txn, id.0) {
        Ok(tokens) => tokens,
        Err(e) => {
            return Err(engine_fault(&e));
        },
    };
    let ghost keys = token_keys(tokens@);
    let ghost live = |t: Seq<char>| pre.session_in(t) matches Some(session) && session.live_at(now);
    let ghost stale = |t: Seq<char>|
        !(pre.session_in(t) matches Some(session) && session.live_at(now));
    let mut active: usize = 0;
    let mut expired: Vec<String> = Vec::new();
    let mut i: usize = 0;
    proof {
        lemma_token_keys(tokens@, pre, id.0);
        assert(token_set(expired@) =~= picked(keys, stale, 0));
    }
    while i < tokens.len()
        invariant
            i <= tokens.len(),
            txn_tables(*txn) == pre,
            keys == token_keys(tokens@),
            lists_keys(keys, pre.indexed_tokens(id.0)),
            live == |t: Seq<char>|
                pre.session_in(t) matches Some(session) && session.live_at(now),
            stale == |t: Seq<char>|
                !(pre.session_in(t) matches Some(session) && session.live_at(now)),
            active == picked(keys, live, i as nat).len(),
            active <= i,
            token_set(expired@) == picked(keys, stale, i as nat),
        decreases tokens.len() - i,
    {
        proof {
            lemma_picked_step(keys, live, pre.indexed_tokens(id.0), i as nat);
            lemma_picked_step(keys, stale, pre.indexed_tokens(id.0), i as nat);
            assert(keys[i as int] == tokens[i as int]@);
        }
        let ghost expired_before = expired@;
        let is_live = match sessions_get(txn, tokens[i].as_str()) {
            Ok(Some(row)) => match decode_session(row.as_slice()) {
                Ok(session) => session.is_live_at(now),
                Err(e) => {
                    return Err(e);
                },
            },
            Ok(None) => false,
            Err(e) => {
                return Err(engine_fault(&e));
            },
        };
        if is_live {
            active += 1;
        } else {
            expired.push(tokens[i].clone());
            proof {
                let added = tokens[i as int]@;
                assert(expired@[expired@.len() - 1]@ == added);
                assert forall|t: Seq<char>|
                    token_set(expired@).contains(t) <==> picked(
                        keys,
                        stale,
                        (i + 1) as nat,
                    ).contains(t) by {
                    if token_set(expired@).contains(t) {
                        let j = choose|j: int|
                            0 <= j < expired@.len() && #[trigger] expired@[j]@ == t;
                        if j < expired_before.len() {
                            assert(expired_before[j]@ == t);
                            assert(token_set(expired_before).contains(t));
                        }
                    }
                    if picked(keys, stale, (i + 1) as nat).contains(t) {
                        if t != added {
                            assert(token_set(expired_before).contains(t));
                            let j = choose|j: int|
                                0 <= j < expired_before.len() && #[trigger] expired_before[j]@
                                    == t;
                            assert(expired@[j]@ == t);
                        }
                    }
                }
                assert(token_set(expired@) =~= picked(keys, stale, (i + 1) as nat));
            }
        }
        i += 1;
    }
    proof {
        lemma_picked_all(keys, live, pre.indexed_tokens(id.0));
        lemma_picked_all(keys, stale, pre.indexed_tokens(id.0));
        assert(picked(keys, live, keys.len()) =~= pre.live_tokens(id.0, now));
        assert(picked(keys, stale, keys.len()) =~= pre.stale_tokens(id.0, now));
    }
    match remove_sessions_batch(txn, id.0, &expired) {
        Ok(()) => {},
        Err(e) => {
            return Err(e);
        },
    }
    if active >= max {
        return Err(AuthError::SessionLimitReached);
    }
    match sessions_get(txn, token.as_str()) {
        Ok(Some(_)) => {
            return Err(AuthError::Internal("session token is already in use".to_owned()));
        },
        Ok(None) => {},
        Err(e) => {
            return Err(engine_fault(&e));
        },
    }
    let session = Session {
        id: token,
        user_id: *id,
        ip,
        created_at: now,
        expires_at: now.plus_session_duration(),
    };
    let row = match encode_session(&session) {
        Ok(row) => row,
        Err(e) => {
            return Err(e);
        },
    };
    match sessions_insert(txn, session.id.as_str(), row) {
        Ok(()) => {},
        Err(e) => {
            return Err(engine_fault(&e));
        },
    }
    match user_sessions_insert(txn, id.0, session.id.as_str()) {
        Ok(()) => {},
        Err(e) => {
            return Err(engine_fault(&e));
        },
    }
    match session_user_insert(txn, session.id.as_str(), id.0) {
        Ok(()) => {},
        Err(e) => {
            return Err(engine_fault(&e));
        },
    }
    assert(txn_tables(*txn) =~= pre.without_sessions(
        id.0,
        pre.stale_tokens(id.0, now),
    ).with_session_row(id.0, session@.id, session_row(session@)));
    Ok(session)
}

/// Inside a write transaction: removes what the session tables hold of
/// `token`, provided the session-to-user index names an owner for it.
pub fn cleanup_session_in(txn: &mut redb::WriteTransaction, token: &SessionId) -> (r: Result<
    (),
    AuthError,
>)
    ensures
        match r {
            Ok(()) => txn_tables(*final(txn)) == txn_tables(*old(txn)).without_indexed_session(
                token@,
            ),
            Err(e) => e is Internal,
        },
{
    match session_user_get(txn, token.as_str()) {
        Ok(Some(uid)) => remove_session(txn, uid, token.as_str()),
        Ok(None) => Ok(()),
        Err(e) => Err(engine_fault(&e)),
    }
}

/// Inside a write transaction: moves the expiry of the session `token` to
/// one session lifetime after `now`, provided its row holds a session that
/// is live at `now`. Refuses a token without a row, and one whose session
/// has expired, with `InvalidSession`.
pub fn extend_session_in(txn: &mut redb::WriteTransaction, token: &SessionId, now: Timestamp) -> (r:
    Result<Session, AuthError>)
    requires
        now.can_start_session(),
    ensures
        match r {
            Ok(session) => {
                let pre = txn_tables(*old(txn));
                &&& pre.session_in(token@) matches Some(stored)
                &&& stored.live_at(now)
                &&& session@ == stored.with_expiry(now.session_end())
                &&& session_of_row(session_row(session@)) == Some(session@)
                &&& txn_tables(*final(txn)) == pre.with_session_row_replaced(
                    token@,
                    session_row(session@),
                )
            },
            Err(AuthError::InvalidSession) => {
                let pre = txn_tables(*old(txn));
                !pre.sessions.contains_key(token@) || (pre.session_in(token@) matches Some(stored)
                    && !stored.live_at(now))
            },
            Err(e) => e is Internal,
        },
{
    let row = match sessions_get(txn, token.as_str()) {
        Ok(Some(row)) => row,
        Ok(None) => {
            return Err(AuthError::InvalidSession);
        },
        Err(e) => {
            return Err(engine_fault(&e));
        },
    };
    let stored = match decode_session(row.as_slice()) {
        Ok(stored) => stored,
        Err(e) => {
            return Err(e);
        },
    };
    if !stored.is_live_at(now) {
        return Err(AuthError::InvalidSession);
    }
    let session = Session {
        id: stored.id,
        user_id: stored.user_id,
        ip: stored.ip,
        created_at: stored.created_at,
        expires_at: now.plus_session_duration(),
    };
    let new_row = match encode_session(&session) {
        Ok(new_row) => new_row,
        Err(e) => {
            return Err(e);
        },
    };
    match sessions_insert(txn, token.as_str(), new_row) {
        Ok(()) => {},
        Err(e) => {
            return Err(engine_fault(&e));
        },
    }
    assert(txn_tables(*txn) =~= txn_tables(*old(txn)).with_session_row_replaced(
        token@,
        session_row(session@),
    ));
    Ok(session)
}

} // verus!
