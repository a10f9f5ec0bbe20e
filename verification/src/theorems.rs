//! What follows from the store contract for any backend: statements about
//! sequences of operations, proved from what each operation promises.

use vstd::prelude::*;
use vstd::set_lib::lemma_set_subset_finite;
use crate::clock::Timestamp;
use crate::credentials::{argon2_accepts, PasswordHash};
use crate::error::AuthError;
use crate::model::{
    create_user_outcome, create_user_post, delete_user_outcome, delete_user_post,
    extend_session_outcome, extend_session_post, fetch_session_outcome, fetch_session_post,
    get_user_by_id_outcome, get_user_by_id_post, get_user_by_username_outcome,
    get_user_by_username_post, is_fault, issue_session_outcome, issue_session_post,
    new_user, revoke_session_outcome, set_password_hash_outcome,
    lemma_create_user_keeps_wf, lemma_delete_user_keeps_wf, lemma_reaped_keeps_wf,
    lemma_set_password_hash_keeps_wf, lemma_with_session_keeps_wf,
    lemma_without_session_keeps_wf, revoke_session_post, set_password_hash_post, StoreState,
};
use crate::types::{Role, Session, SessionIp, User};

verus! {

/// The live sessions of a user in a well-formed store are finitely many.
pub proof fn lemma_active_sessions_finite(s: StoreState, uid: u128, now: Timestamp)
    requires
        s.wf(),
    ensures
        s.active_sessions(uid, now).finite(),
{
    lemma_set_subset_finite(s.sessions.dom(), s.active_sessions(uid, now));
}

/// Removing a user's expired sessions changes neither which of the user's
/// sessions are live nor anything about other sessions.
pub proof fn lemma_reaped_keeps_active(s: StoreState, uid: u128, now: Timestamp)
    ensures
        s.reaped(uid, now).active_sessions(uid, now) == s.active_sessions(uid, now),
        s.reaped(uid, now).users == s.users,
{
    assert(s.reaped(uid, now).active_sessions(uid, now) =~= s.active_sessions(uid, now));
}

/// A user that was created is found under its name, with the record that
/// creation returned. In particular the stored hash is the one that was
/// handed in: it accepts exactly the passwords which that hash accepts.
pub proof fn theorem_created_user_is_found(
    pre: StoreState,
    post: StoreState,
    username: Seq<char>,
    password_hash: Seq<char>,
    role: Role,
    id: u128,
    created: Result<User, AuthError>,
    found: Result<User, AuthError>,
)
    requires
        pre.wf(),
        create_user_post(pre, post, username, password_hash, role, id, created),
        created is Ok,
        get_user_by_username_post(post, username, found),
    ensures
        post.wf(),
        found is Ok,
        found->Ok_0@ == created->Ok_0@,
        found->Ok_0@.role == role,
        found->Ok_0@.password_hash == password_hash,
        forall|password: Seq<u8>|
            argon2_accepts(found->Ok_0@.password_hash, password) == argon2_accepts(
                password_hash,
                password,
            ),
{
    lemma_create_user_keeps_wf(pre, created->Ok_0@);
    assert(post.names_user(username, id));
}

/// A hash made from a password accepts that password, also after it went
/// through a store: creating a user with it and looking the user up by name
/// gives back a hash on which `verify` answers true for the password.
pub proof fn theorem_stored_hash_accepts_its_password(
    pre: StoreState,
    post: StoreState,
    username: Seq<char>,
    hash: PasswordHash,
    password: Seq<u8>,
    role: Role,
    id: u128,
    created: Result<User, AuthError>,
    found: Result<User, AuthError>,
)
    requires
        pre.wf(),
        argon2_accepts(hash@, password),
        create_user_post(pre, post, username, hash@, role, id, created),
        created is Ok,
        get_user_by_username_post(post, username, found),
    ensures
        found is Ok,
        argon2_accepts(found->Ok_0.password_hash@, password),
{
    theorem_created_user_is_found(pre, post, username, hash@, role, id, created, found);
}

/// A name can be given once. After a user was created, creating another
/// under the same name fails with `UserExists` and changes nothing, and the
/// store holds exactly one user of that name.
pub proof fn theorem_username_is_unique(
    pre: StoreState,
    mid: StoreState,
    post: StoreState,
    username: Seq<char>,
    first_hash: Seq<char>,
    first_role: Role,
    first_id: u128,
    first: Result<User, AuthError>,
    second_hash: Seq<char>,
    second_role: Role,
    second_id: u128,
    second: Result<User, AuthError>,
)
    requires
        pre.wf(),
        create_user_post(pre, mid, username, first_hash, first_role, first_id, first),
        first is Ok,
        create_user_post(mid, post, username, second_hash, second_role, second_id, second),
    ensures
        second == Err::<User, AuthError>(AuthError::UserExists),
        post == mid,
        post.wf(),
        post.names_user(username, first_id),
        forall|id: u128| post.names_user(username, id) ==> id == first_id,
{
    lemma_create_user_keeps_wf(pre, first->Ok_0@);
    assert(mid.names_user(username, first_id));
    assert forall|id: u128| post.names_user(username, id) implies id == first_id by {
        assert(post.users[id].username == post.users[first_id].username);
    }
}

/// Below the limit a session is issued: a user that exists and has fewer
/// live sessions than the store allows gets the session, provided the token
/// is unused, and then has one live session more.
pub proof fn theorem_issue_below_limit(
    pre: StoreState,
    post: StoreState,
    uid: u128,
    ip: SessionIp,
    now: Timestamp,
    sid: Seq<char>,
    max: usize,
    r: Result<Session, AuthError>,
)
    requires
        pre.wf(),
        now.can_start_session(),
        pre.users.contains_key(uid),
        pre.active_count(uid, now) < max,
        !pre.reaped(uid, now).sessions.contains_key(sid),
        issue_session_post(pre, post, uid, ip, now, sid, max, r),
    ensures
        r is Ok,
        post.wf(),
        post.session_valid(sid, now),
        post.active_sessions(uid, now) == pre.active_sessions(uid, now).insert(sid),
        post.active_count(uid, now) == pre.active_count(uid, now) + 1,
{
    lemma_active_sessions_finite(pre, uid, now);
    lemma_reaped_keeps_active(pre, uid, now);
    lemma_reaped_keeps_wf(pre, uid, now);
    lemma_with_session_keeps_wf(pre.reaped(uid, now), r->Ok_0@);
    assert(post.active_sessions(uid, now) =~= pre.active_sessions(uid, now).insert(sid));
}

/// At the limit no session is issued: a user with as many live sessions as
/// the store allows is refused with `SessionLimitReached`, and has as many
/// live sessions afterwards as before.
pub proof fn theorem_issue_at_limit(
    pre: StoreState,
    post: StoreState,
    uid: u128,
    ip: SessionIp,
    now: Timestamp,
    sid: Seq<char>,
    max: usize,
    r: Result<Session, AuthError>,
)
    requires
        pre.wf(),
        pre.users.contains_key(uid),
        pre.active_count(uid, now) >= max,
        issue_session_post(pre, post, uid, ip, now, sid, max, r),
    ensures
        r == Err::<Session, AuthError>(AuthError::SessionLimitReached),
        post.wf(),
        post.active_sessions(uid, now) == pre.active_sessions(uid, now),
{
    lemma_reaped_keeps_active(pre, uid, now);
    lemma_reaped_keeps_wf(pre, uid, now);
}

/// Revoking a live session of a user leaves the user with one live session
/// less.
pub proof fn theorem_revoke_frees_a_slot(
    pre: StoreState,
    post: StoreState,
    uid: u128,
    now: Timestamp,
    sid: Seq<char>,
    r: Result<(), AuthError>,
)
    requires
        pre.wf(),
        pre.owns(uid, sid),
        pre.session_valid(sid, now),
        revoke_session_post(pre, post, sid, r),
    ensures
        r is Ok,
        post.wf(),
        post.active_sessions(uid, now) == pre.active_sessions(uid, now).remove(sid),
        post.active_count(uid, now) == pre.active_count(uid, now) - 1,
{
    lemma_active_sessions_finite(pre, uid, now);
    assert(post.active_sessions(uid, now) =~= pre.active_sessions(uid, now).remove(sid));
}

/// A user at the limit who revokes one live session can be issued exactly
/// one more: the next issuance succeeds and the one after it is refused
/// with `SessionLimitReached`.
pub proof fn theorem_revoke_permits_exactly_one_more(
    full: StoreState,
    freed: StoreState,
    refilled: StoreState,
    last: StoreState,
    uid: u128,
    ip: SessionIp,
    now: Timestamp,
    max: usize,
    revoked: Seq<char>,
    revocation: Result<(), AuthError>,
    first_token: Seq<char>,
    first: Result<Session, AuthError>,
    second_token: Seq<char>,
    second: Result<Session, AuthError>,
)
    requires
        full.wf(),
        now.can_start_session(),
        full.active_count(uid, now) == max,
        full.owns(uid, revoked),
        full.session_valid(revoked, now),
        revoke_session_post(full, freed, revoked, revocation),
        !freed.reaped(uid, now).sessions.contains_key(first_token),
        issue_session_post(freed, refilled, uid, ip, now, first_token, max, first),
        issue_session_post(refilled, last, uid, ip, now, second_token, max, second),
    ensures
        revocation is Ok,
        first is Ok,
        second == Err::<Session, AuthError>(AuthError::SessionLimitReached),
{
    theorem_revoke_frees_a_slot(full, freed, uid, now, revoked, revocation);
    theorem_issue_below_limit(freed, refilled, uid, ip, now, first_token, max, first);
    theorem_issue_at_limit(refilled, last, uid, ip, now, second_token, max, second);
}

/// An expired session cannot be fetched, and fetching it removes it: the
/// fetch fails with `InvalidSession`, and so does every later fetch of the
/// same token, whatever the time.
pub proof fn theorem_expired_session_is_gone(
    pre: StoreState,
    mid: StoreState,
    post: StoreState,
    sid: Seq<char>,
    now: Timestamp,
    later: Timestamp,
    first: Result<Session, AuthError>,
    second: Result<Session, AuthError>,
)
    requires
        pre.sessions.contains_key(sid),
        !pre.sessions[sid].live_at(now),
        fetch_session_post(pre, mid, sid, now, first),
        fetch_session_post(mid, post, sid, later, second),
    ensures
        first == Err::<Session, AuthError>(AuthError::InvalidSession),
        !mid.sessions.contains_key(sid),
        second == Err::<Session, AuthError>(AuthError::InvalidSession),
        !post.sessions.contains_key(sid),
{
}

/// Extending a live session moves its expiry to one session lifetime after
/// the time of the call, which is later than the old expiry whenever the
/// clock has advanced since the expiry was last set.
pub proof fn theorem_extend_pushes_expiry(
    pre: StoreState,
    post: StoreState,
    sid: Seq<char>,
    now: Timestamp,
    r: Result<Session, AuthError>,
)
    requires
        pre.session_valid(sid, now),
        now.session_end().is_after(pre.sessions[sid].expires_at),
        extend_session_post(pre, post, sid, now, r),
    ensures
        r is Ok,
        r->Ok_0@.expires_at.is_after(pre.sessions[sid].expires_at),
        post.sessions.contains_key(r->Ok_0@.id),
        post.sessions[r->Ok_0@.id] == r->Ok_0@,
        post.sessions[r->Ok_0@.id].expires_at == now.session_end(),
{
}

/// An expired session cannot be extended, and the attempt removes it: the
/// call fails with `InvalidSession`, and a fetch of the same token at any
/// later time fails with `InvalidSession` too.
pub proof fn theorem_extend_expired_removes(
    pre: StoreState,
    mid: StoreState,
    post: StoreState,
    sid: Seq<char>,
    now: Timestamp,
    later: Timestamp,
    extension: Result<Session, AuthError>,
    fetch: Result<Session, AuthError>,
)
    requires
        pre.sessions.contains_key(sid),
        !pre.sessions[sid].live_at(now),
        extend_session_post(pre, mid, sid, now, extension),
        fetch_session_post(mid, post, sid, later, fetch),
    ensures
        extension == Err::<Session, AuthError>(AuthError::InvalidSession),
        !mid.sessions.contains_key(sid),
        fetch == Err::<Session, AuthError>(AuthError::InvalidSession),
{
}

/// Deleting a user removes the user and every session of that user: the
/// user is no longer found, and a session issued to the user before cannot
/// be fetched afterwards.
pub proof fn theorem_delete_user_purges_sessions(
    pre: StoreState,
    mid: StoreState,
    post: StoreState,
    uid: u128,
    sid: Seq<char>,
    now: Timestamp,
    deletion: Result<(), AuthError>,
    lookup: Result<User, AuthError>,
    fetch: Result<Session, AuthError>,
)
    requires
        pre.wf(),
        pre.owns(uid, sid),
        delete_user_post(pre, mid, uid, deletion),
        get_user_by_id_post(mid, uid, lookup),
        fetch_session_post(mid, post, sid, now, fetch),
    ensures
        deletion is Ok,
        mid.wf(),
        !mid.users.contains_key(uid),
        forall|other: Seq<char>| !mid.owns(uid, other),
        lookup == Err::<User, AuthError>(AuthError::NotFound),
        fetch == Err::<Session, AuthError>(AuthError::InvalidSession),
{
    lemma_delete_user_keeps_wf(pre, uid);
}

/// Creating a user keeps the invariant of a store, whatever the outcome.
pub proof fn theorem_create_user_keeps_invariant(
    pre: StoreState,
    post: StoreState,
    username: Seq<char>,
    password_hash: Seq<char>,
    role: Role,
    id: u128,
    r: Result<User, AuthError>,
)
    requires
        pre.wf(),
        create_user_post(pre, post, username, password_hash, role, id, r),
    ensures
        post.wf(),
{
    if r is Ok {
        lemma_create_user_keeps_wf(pre, r->Ok_0@);
    }
}

/// Replacing a password hash keeps the invariant of a store, whatever the
/// outcome, and touches neither another user nor any session.
pub proof fn theorem_set_password_hash_keeps_invariant(
    pre: StoreState,
    post: StoreState,
    id: u128,
    new_hash: Seq<char>,
    r: Result<PasswordHash, AuthError>,
)
    requires
        pre.wf(),
        set_password_hash_post(pre, post, id, new_hash, r),
    ensures
        post.wf(),
        post.sessions == pre.sessions,
        forall|other: u128| other != id ==> post.users.contains_key(other) == pre.users.contains_key(
            other,
        ) && (pre.users.contains_key(other) ==> post.users[other] == pre.users[other]),
        r is Ok ==> post.users[id].username == pre.users[id].username && post.users[id].role
            == pre.users[id].role && post.users[id].password_hash == new_hash,
{
    if r is Ok {
        lemma_set_password_hash_keeps_wf(pre, id, new_hash);
    }
}

/// Deleting a user keeps the invariant of a store, whatever the outcome: no
/// session is left behind without its owner.
pub proof fn theorem_delete_user_keeps_invariant(
    pre: StoreState,
    post: StoreState,
    id: u128,
    r: Result<(), AuthError>,
)
    requires
        pre.wf(),
        delete_user_post(pre, post, id, r),
    ensures
        post.wf(),
        forall|sid: Seq<char>| #[trigger]
            post.sessions.contains_key(sid) ==> post.users.contains_key(post.sessions[sid].user_id),
{
    lemma_delete_user_keeps_wf(pre, id);
}

/// Issuing a session keeps the invariant of a store, whatever the outcome.
pub proof fn theorem_issue_session_keeps_invariant(
    pre: StoreState,
    post: StoreState,
    uid: u128,
    ip: SessionIp,
    now: Timestamp,
    sid: Seq<char>,
    max: usize,
    r: Result<Session, AuthError>,
)
    requires
        pre.wf(),
        issue_session_post(pre, post, uid, ip, now, sid, max, r),
    ensures
        post.wf(),
        post.users == pre.users,
{
    lemma_reaped_keeps_wf(pre, uid, now);
    if r is Ok {
        lemma_with_session_keeps_wf(pre.reaped(uid, now), r->Ok_0@);
    }
}

/// Fetching, extending and revoking a session keep the invariant of a
/// store, whatever the outcome, and leave the users as they are.
pub proof fn theorem_session_operations_keep_invariant(
    pre: StoreState,
    post: StoreState,
    sid: Seq<char>,
    now: Timestamp,
    fetched: Result<Session, AuthError>,
    revoked: Result<(), AuthError>,
)
    requires
        pre.wf(),
        fetch_session_post(pre, post, sid, now, fetched) || extend_session_post(
            pre,
            post,
            sid,
            now,
            fetched,
        ) || revoke_session_post(pre, post, sid, revoked),
    ensures
        post.wf(),
        post.users == pre.users,
{
    lemma_without_session_keeps_wf(pre, sid);
    if pre.session_valid(sid, now) {
        lemma_with_session_keeps_wf(
            pre,
            pre.sessions[sid].with_expiry(now.session_end()),
        );
    }
}

/// On every backend, an operation that does not end in a fault does what
/// the store contract says of it: what holds of the operations of a backend
/// that cannot fail holds of every result of any backend that is no fault.
pub proof fn theorem_writes_without_fault(
    pre: StoreState,
    post: StoreState,
    may_fault: bool,
    username: Seq<char>,
    password_hash: Seq<char>,
    role: Role,
    id: u128,
    created: Result<User, AuthError>,
    replaced: Result<PasswordHash, AuthError>,
    deleted: Result<(), AuthError>,
)
    ensures
        !is_fault(created) && create_user_outcome(
            pre,
            post,
            may_fault,
            username,
            password_hash,
            role,
            id,
            created,
        ) ==> create_user_post(pre, post, username, password_hash, role, id, created),
        !is_fault(replaced) && set_password_hash_outcome(
            pre,
            post,
            may_fault,
            id,
            password_hash,
            replaced,
        ) ==> set_password_hash_post(pre, post, id, password_hash, replaced),
        !is_fault(deleted) && delete_user_outcome(pre, post, may_fault, id, deleted)
            ==> delete_user_post(pre, post, id, deleted),
{
}

/// The same for the operations on sessions.
pub proof fn theorem_sessions_without_fault(
    pre: StoreState,
    post: StoreState,
    may_fault: bool,
    uid: u128,
    ip: SessionIp,
    now: Timestamp,
    sid: Seq<char>,
    max: usize,
    issued: Result<Session, AuthError>,
    fetched: Result<Session, AuthError>,
    extended: Result<Session, AuthError>,
    revoked: Result<(), AuthError>,
)
    ensures
        !is_fault(issued) && issue_session_outcome(
            pre,
            post,
            may_fault,
            uid,
            ip,
            now,
            sid,
            max,
            issued,
        ) ==> issue_session_post(pre, post, uid, ip, now, sid, max, issued),
        !is_fault(fetched) && fetch_session_outcome(pre, post, may_fault, sid, now, fetched)
            ==> fetch_session_post(pre, post, sid, now, fetched),
        !is_fault(extended) && extend_session_outcome(pre, post, may_fault, sid, now, extended)
            ==> extend_session_post(pre, post, sid, now, extended),
        !is_fault(revoked) && revoke_session_outcome(pre, post, may_fault, sid, revoked)
            ==> revoke_session_post(pre, post, sid, revoked),
{
}

/// The same for the two lookups.
pub proof fn theorem_lookups_without_fault(
    pre: StoreState,
    may_fault: bool,
    id: u128,
    username: Seq<char>,
    by_id: Result<User, AuthError>,
    by_name: Result<User, AuthError>,
)
    ensures
        !is_fault(by_id) && get_user_by_id_outcome(pre, may_fault, id, by_id)
            ==> get_user_by_id_post(pre, id, by_id),
        !is_fault(by_name) && get_user_by_username_outcome(pre, may_fault, username, by_name)
            ==> get_user_by_username_post(pre, username, by_name),
{
}

/// After a fault the store is as it was, or as after the whole operation:
/// a fault never leaves half of an operation behind, and never breaks the
/// invariant of a store.
pub proof fn theorem_faults_are_all_or_nothing(
    pre: StoreState,
    post: StoreState,
    may_fault: bool,
    username: Seq<char>,
    password_hash: Seq<char>,
    role: Role,
    id: u128,
    created: Result<User, AuthError>,
    deleted: Result<(), AuthError>,
)
    requires
        pre.wf(),
    ensures
        create_user_outcome(pre, post, may_fault, username, password_hash, role, id, created)
            ==> post.wf() && (post == pre || post == pre.with_user(
            new_user(id, username, password_hash, role),
        )),
        delete_user_outcome(pre, post, may_fault, id, deleted) ==> post.wf() && (post == pre
            || post == pre.without_user(id)),
{
    if create_user_outcome(pre, post, may_fault, username, password_hash, role, id, created) {
        if post != pre {
            lemma_create_user_keeps_wf(pre, new_user(id, username, password_hash, role));
        }
    }
    if delete_user_outcome(pre, post, may_fault, id, deleted) {
        lemma_delete_user_keeps_wf(pre, id);
    }
}

} // verus!
