//! Registration and login on top of a store: what a request is answered
//! with.

use vstd::prelude::*;
use vstd::string::StringSliceAdditionalSpecFns;
use vstd::utf8::encode_utf8;
use crate::app_error::{
    auth_error_notice, internal_notice, server_error_notice, AppError, ServerError,
};
use crate::credentials::{argon2_accepts, PasswordHash};
use crate::clock::Timestamp;
use crate::error::AuthError;
use crate::identifiers::is_token_text;
use crate::model::{
    create_user_outcome, create_user_post, fetch_session_outcome, is_fault, issue_session_outcome,
    issue_session_post, lemma_create_user_keeps_wf, new_session, new_user, StoreState,
};
use crate::storage::AuthStore;
use crate::types::{Role, Session, SessionId, SessionIp, User, UserId, Username};

verus! {

/// The body of a registration or login request.
#[derive(Debug)]
pub struct AuthRequest {
    pub username: Username,
    pub password: String,
}

/// The body of the answer to a successful registration or login.
#[derive(Debug)]
pub struct AuthResponse {
    pub username: Username,
    pub role: Role,
    pub session: Session,
}

/// Who is behind a session.
#[derive(Debug)]
pub struct CurrentUser {
    pub username: String,
    pub role: Role,
    pub user_id: UserId,
}

/// Status of a request that was malformed or asks for what exists already.
pub const STATUS_BAD_REQUEST: u16 = 400;

/// Status of a request whose credentials were not accepted.
pub const STATUS_UNAUTHORIZED: u16 = 401;

/// Status of a request that presented an invalid session.
pub const STATUS_FORBIDDEN: u16 = 403;

/// Status of a request that ran into a limit.
pub const STATUS_TOO_MANY_REQUESTS: u16 = 429;

/// Status of a request that failed for reasons of the server.
pub const STATUS_INTERNAL_SERVER_ERROR: u16 = 500;

/// The status that each kind of store error is answered with.
pub open spec fn status_of(e: AuthError) -> u16 {
    match e {
        AuthError::UserExists => STATUS_BAD_REQUEST,
        AuthError::NotFound => STATUS_UNAUTHORIZED,
        AuthError::InvalidSession => STATUS_FORBIDDEN,
        AuthError::SessionLimitReached => STATUS_TOO_MANY_REQUESTS,
        AuthError::Internal(_) => STATUS_INTERNAL_SERVER_ERROR,
    }
}

/// The status that a store error is answered with.
pub fn status_code(e: &AuthError) -> (status: u16)
    ensures
        status == status_of(*e),
{
    match e {
        AuthError::UserExists => STATUS_BAD_REQUEST,
        AuthError::NotFound => STATUS_UNAUTHORIZED,
        AuthError::InvalidSession => STATUS_FORBIDDEN,
        AuthError::SessionLimitReached => STATUS_TOO_MANY_REQUESTS,
        AuthError::Internal(_) => STATUS_INTERNAL_SERVER_ERROR,
    }
}

/// Whether the store holds a user of this name whose hash accepts the
/// password.
pub open spec fn credentials_accepted(s: StoreState, username: Seq<char>, password: Seq<u8>) -> bool {
    exists|id: u128|
        s.names_user(username, id) && argon2_accepts(s.users[id].password_hash, password)
}

/// Whether `session` is a session of the user `username` that the store
/// holds as returned.
pub open spec fn session_of_user(s: StoreState, username: Seq<char>, session: Session) -> bool {
    &&& s.names_user(username, session@.user_id)
    &&& s.sessions.contains_key(session@.id)
    &&& s.sessions[session@.id] == session@
}

/// Why a user is turned away before any session is issued.
#[derive(Debug)]
pub enum LoginFailure {
    /// The lookup of the user failed, with this error.
    Store(AuthError),
    /// The user was found, and the password was not accepted.
    WrongPassword,
}

/// What a lookup and a password come to: the user, where the lookup found
/// one whose hash accepts the password; `WrongPassword`, where it found one
/// whose hash does not; the error of the lookup, where it found none.
pub open spec fn credential_check_post(
    lookup: Result<User, AuthError>,
    password: Seq<u8>,
    r: Result<User, LoginFailure>,
) -> bool {
    match lookup {
        Ok(user) => if argon2_accepts(user@.password_hash, password) {
            match r {
                Ok(found) => found@ == user@,
                Err(_) => false,
            }
        } else {
            r matches Err(LoginFailure::WrongPassword)
        },
        Err(e) => match r {
            Err(LoginFailure::Store(reported)) => reported == e,
            _ => false,
        },
    }
}

/// Decides, from the result of looking a user up and from the password
/// presented, whether the user may be issued a session.
pub fn check_credentials(lookup: Result<User, AuthError>, password: &str) -> (r: Result<
    User,
    LoginFailure,
>)
    ensures
        credential_check_post(lookup, password.spec_bytes(), r),
{
    match lookup {
        Ok(user) => {
            if user.password_hash.verify(password) {
                Ok(user)
            } else {
                Err(LoginFailure::WrongPassword)
            }
        },
        Err(e) => Err(LoginFailure::Store(e)),
    }
}

/// The status that a login turned away is answered with: 401 for a wrong
/// password, and for an error of the store the status of that error.
pub open spec fn refusal_status_of(failure: LoginFailure) -> u16 {
    match failure {
        LoginFailure::Store(e) => status_of(e),
        LoginFailure::WrongPassword => STATUS_UNAUTHORIZED,
    }
}

/// The status that a login turned away is answered with.
pub fn refusal_status(failure: &LoginFailure) -> (status: u16)
    ensures
        status == refusal_status_of(*failure),
{
    match failure {
        LoginFailure::Store(e) => status_code(e),
        LoginFailure::WrongPassword => STATUS_UNAUTHORIZED,
    }
}

/// What a user turned away is told: that the credentials are invalid, for a
/// wrong password, and for an error of the store the notice of that error.
pub open spec fn refusal_notice_of(failure: LoginFailure) -> Seq<char> {
    match failure {
        LoginFailure::Store(e) => auth_error_notice(e),
        LoginFailure::WrongPassword => server_error_notice(ServerError::InvalidCreds),
    }
}

/// What a user turned away is told.
pub fn refusal_notice(failure: &LoginFailure) -> (shown: AppError)
    ensures
        shown@ == refusal_notice_of(*failure),
{
    match failure {
        LoginFailure::Store(e) => AppError::from_auth_error(e),
        LoginFailure::WrongPassword => AppError::from_server_error(ServerError::InvalidCreds),
    }
}

/// The answer to a request on behalf of `user`, given how the issuance of a
/// session ended: the user's name and role with the session, or the status
/// of the error.
pub fn session_reply(user: User, issued: Result<Session, AuthError>) -> (r: Result<
    AuthResponse,
    u16,
>)
    ensures
        match issued {
            Ok(session) => match r {
                Ok(response) => {
                    &&& response.username@ == user@.username
                    &&& response.role == user@.role
                    &&& response.session@ == session@
                },
                Err(_) => false,
            },
            Err(e) => r matches Err(status) && status == status_of(e),
        },
{
    match issued {
        Ok(session) => Ok(AuthResponse { username: user.username, role: user.role, session }),
        Err(e) => Err(status_code(&e)),
    }
}

/// The status that turns a registration away at once, given the result of
/// looking the requested name up: 400 where the name is taken.
pub fn registration_refusal(lookup: &Result<User, AuthError>) -> (r: Option<u16>)
    ensures
        r == if lookup is Ok {
            Some(STATUS_BAD_REQUEST)
        } else {
            None::<u16>
        },
{
    match lookup {
        Ok(_) => Some(STATUS_BAD_REQUEST),
        Err(_) => None,
    }
}

/// One way in which an issuance to user `uid` that did not return a session
/// may have left the store: without the user's sessions that had expired by
/// `now`; or, on a backend that can fail, with the session issued on top.
pub open spec fn issuance_trace(
    pre: StoreState,
    post: StoreState,
    may_fault: bool,
    uid: u128,
    ip: SessionIp,
    now: Timestamp,
    token: Seq<char>,
) -> bool {
    ||| post == pre.reaped(uid, now)
    ||| may_fault && post == pre.reaped(uid, now).with_session(new_session(token, uid, ip, now))
}

/// How an issuance to user `uid` that did not return a session leaves the
/// store: as it was, or in one of the ways of [`issuance_trace`].
pub open spec fn issuance_aftermath(
    pre: StoreState,
    post: StoreState,
    may_fault: bool,
    uid: u128,
    ip: SessionIp,
) -> bool {
    post == pre || exists|now: Timestamp, token: Seq<char>| #[trigger]
        issuance_trace(pre, post, may_fault, uid, ip, now, token)
}

/// How an issuance to the user named `username` that did not return a
/// session leaves the store.
pub open spec fn user_issuance_aftermath(
    pre: StoreState,
    post: StoreState,
    may_fault: bool,
    username: Seq<char>,
    ip: SessionIp,
) -> bool {
    post == pre || exists|id: u128| #[trigger]
        pre.names_user(username, id) && issuance_aftermath(pre, post, may_fault, id, ip)
}

/// What follows for the store from an issuance that returned an error: a
/// refusal leaves the store as it was or without the user's expired
/// sessions; only a fault of a backend that can fail may have issued the
/// session all the same. No issuance is refused for a name in use or an
/// invalid session, and for an unknown user only where there is none.
pub proof fn lemma_failed_issuance(
    pre: StoreState,
    post: StoreState,
    may_fault: bool,
    uid: u128,
    ip: SessionIp,
    cap: usize,
    r: Result<Session, AuthError>,
)
    requires
        r is Err,
        (is_fault(r) && post == pre) || (exists|now: Timestamp, token: Seq<char>|
            now.can_start_session() && is_token_text(token) && issue_session_outcome(
                pre,
                post,
                may_fault,
                uid,
                ip,
                now,
                token,
                cap,
                r,
            )),
    ensures
        issuance_aftermath(pre, post, may_fault, uid, ip),
        !is_fault(r) ==> issuance_aftermath(pre, post, false, uid, ip),
        r matches Err(AuthError::NotFound) ==> !pre.users.contains_key(uid),
        !(r matches Err(AuthError::UserExists)),
        !(r matches Err(AuthError::InvalidSession)),
{
    if !(is_fault(r) && post == pre) {
        let (now, token) = choose|now: Timestamp, token: Seq<char>|
            now.can_start_session() && is_token_text(token) && issue_session_outcome(
                pre,
                post,
                may_fault,
                uid,
                ip,
                now,
                token,
                cap,
                r,
            );
        if issue_session_post(pre, post, uid, ip, now, token, cap, r) {
            if post != pre {
                assert(issuance_trace(pre, post, false, uid, ip, now, token));
                assert(issuance_trace(pre, post, may_fault, uid, ip, now, token));
            }
        } else {
            if post != pre {
                let done = choose|done: Result<Session, AuthError>|
                    issue_session_post(pre, post, uid, ip, now, token, cap, done);
                assert(issuance_trace(pre, post, may_fault, uid, ip, now, token));
            }
        }
    }
}

/// How a login turned away leaves things, by the status of the answer.
/// 401: the credentials were not accepted, and the store is as it was. 429:
/// they were accepted and the user is at the session limit; the store is as
/// it was or without the user's expired sessions. 500: the backend can
/// fail, or the credentials were accepted and the issuance ended in a
/// fault; the store is as after an issuance that returned no session.
pub open spec fn login_refusal_post(
    pre: StoreState,
    post: StoreState,
    may_fault: bool,
    username: Seq<char>,
    password: Seq<u8>,
    ip: SessionIp,
    status: u16,
) -> bool {
    ||| status == STATUS_UNAUTHORIZED && !credentials_accepted(pre, username, password) && post
        == pre
    ||| status == STATUS_TOO_MANY_REQUESTS && credentials_accepted(pre, username, password)
        && user_issuance_aftermath(pre, post, false, username, ip)
    ||| status == STATUS_INTERNAL_SERVER_ERROR && (may_fault || credentials_accepted(
        pre,
        username,
        password,
    )) && user_issuance_aftermath(pre, post, may_fault, username, ip)
}

/// How an attempt to authenticate ends on a store in state `pre`: with a
/// session of the user, held by the store in state `post`; or with a
/// notice. A name that is not known and a password that is not accepted
/// each have their notice, and leave the store as it was. A user at the
/// session limit is told so. The notice of an internal error is given only
/// where the backend can fail or where the credentials were accepted and
/// the issuance ended in a fault.
pub open spec fn authenticate_user_post(
    pre: StoreState,
    post: StoreState,
    may_fault: bool,
    username: Seq<char>,
    password: Seq<u8>,
    ip: SessionIp,
    r: Result<Session, AppError>,
) -> bool {
    match r {
        Ok(session) => credentials_accepted(pre, username, password) && session_of_user(
            post,
            username,
            session,
        ),
        Err(e) => {
            ||| e@ == auth_error_notice(AuthError::NotFound) && !pre.has_username(username) && post
                == pre
            ||| e@ == server_error_notice(ServerError::InvalidCreds) && pre.has_username(username)
                && !credentials_accepted(pre, username, password) && post == pre
            ||| e@ == auth_error_notice(AuthError::SessionLimitReached) && credentials_accepted(
                pre,
                username,
                password,
            ) && user_issuance_aftermath(pre, post, false, username, ip)
            ||| e@ == internal_notice() && (may_fault || credentials_accepted(
                pre,
                username,
                password,
            )) && user_issuance_aftermath(pre, post, may_fault, username, ip)
        },
    }
}

/// In a well-formed store the user found under a name is the only one of
/// that name, so the credentials are accepted exactly when that user's hash
/// accepts the password.
pub proof fn lemma_named_user_decides(s: StoreState, username: Seq<char>, id: u128, password: Seq<u8>)
    requires
        s.wf(),
        s.names_user(username, id),
    ensures
        s.has_username(username),
        credentials_accepted(s, username, password) == argon2_accepts(
            s.users[id].password_hash,
            password,
        ),
{
    assert forall|other: u128| s.names_user(username, other) implies other == id by {
        assert(s.users[other].username == s.users[id].username);
    }
}

/// Checks a username and a password against the store and, where they are
/// accepted, issues a session to the user. On a backend that cannot fail, a
/// name that is not known and a password that is not accepted are always
/// answered with their notices.
pub fn authenticate_user<S: AuthStore>(store: &mut S, username: &str, password: &str, ip: SessionIp) -> (r:
    Result<Session, AppError>)
    ensures
        final(store).session_cap() == old(store).session_cap(),
        final(store).may_fault() == old(store).may_fault(),
        old(store).consistent() ==> final(store).consistent(),
        old(store).consistent() ==> authenticate_user_post(
            old(store).state(),
            final(store).state(),
            old(store).may_fault(),
            username@,
            password.spec_bytes(),
            ip,
            r,
        ),
        old(store).consistent() && !old(store).may_fault() && !old(store).state().has_username(
            username@,
        ) ==> (r matches Err(e) && e@ == auth_error_notice(AuthError::NotFound))
            && final(store).state() == old(store).state(),
        old(store).consistent() && !old(store).may_fault() && old(store).state().has_username(
            username@,
        ) && !credentials_accepted(old(store).state(), username@, password.spec_bytes()) ==> (r matches Err(
            e,
        ) && e@ == server_error_notice(ServerError::InvalidCreds))
            && final(store).state() == old(store).state(),
{
    let name = Username(username.to_owned());
    let lookup = store.get_user_by_username(&name);
    let ghost looked_up = lookup;
    let user = match check_credentials(lookup, password) {
        Ok(user) => user,
        Err(failure) => {
            proof {
                if store.consistent() {
                    store.lemma_consistent_is_wf();
                    if looked_up is Ok {
                        lemma_named_user_decides(
                            store.state(),
                            username@,
                            looked_up->Ok_0@.id,
                            password.spec_bytes(),
                        );
                    }
                }
            }
            return Err(refusal_notice(&failure));
        },
    };
    proof {
        if store.consistent() {
            store.lemma_consistent_is_wf();
            lemma_named_user_decides(store.state(), username@, user@.id, password.spec_bytes());
        }
    }
    let issued = store.issue_session(&user.id, ip);
    proof {
        if old(store).consistent() && issued is Err {
            lemma_failed_issuance(
                old(store).state(),
                store.state(),
                old(store).may_fault(),
                user@.id,
                ip,
                old(store).session_cap(),
                issued,
            );
            assert(old(store).state().names_user(username@, user@.id));
        }
    }
    match issued {
        Ok(session) => Ok(session),
        Err(e) => Err(AppError::from_auth_error(&e)),
    }
}

/// Answers a login request: the user's name and role together with a new
/// session, or the status that tells why not. A name that is not known and a
/// password that is not accepted are both answered with 401, always so on a
/// backend that cannot fail, and the store is then as it was.
pub fn login<S: AuthStore>(store: &mut S, request: &AuthRequest, ip: SessionIp) -> (r: Result<
    AuthResponse,
    u16,
>)
    ensures
        final(store).session_cap() == old(store).session_cap(),
        final(store).may_fault() == old(store).may_fault(),
        old(store).consistent() ==> final(store).consistent(),
        old(store).consistent() ==> match r {
            Ok(response) => {
                &&& credentials_accepted(
                    old(store).state(),
                    request.username@,
                    encode_utf8(request.password@),
                )
                &&& response.username@ == request.username@
                &&& session_of_user(final(store).state(), request.username@, response.session)
                &&& response.role == old(store).state().users[response.session@.user_id].role
            },
            Err(status) => login_refusal_post(
                old(store).state(),
                final(store).state(),
                old(store).may_fault(),
                request.username@,
                encode_utf8(request.password@),
                ip,
                status,
            ),
        },
        old(store).consistent() && !old(store).may_fault() && !credentials_accepted(
            old(store).state(),
            request.username@,
            encode_utf8(request.password@),
        ) ==> (r matches Err(status) && status == STATUS_UNAUTHORIZED) && final(store).state()
            == old(store).state(),
{
    let lookup = store.get_user_by_username(&request.username);
    let ghost looked_up = lookup;
    let user = match check_credentials(lookup, request.password.as_str()) {
        Ok(user) => user,
        Err(failure) => {
            proof {
                if store.consistent() {
                    store.lemma_consistent_is_wf();
                    if looked_up is Ok {
                        lemma_named_user_decides(
                            store.state(),
                            request.username@,
                            looked_up->Ok_0@.id,
                            encode_utf8(request.password@),
                        );
                    }
                }
            }
            return Err(refusal_status(&failure));
        },
    };
    proof {
        if store.consistent() {
            store.lemma_consistent_is_wf();
            lemma_named_user_decides(
                store.state(),
                request.username@,
                user@.id,
                encode_utf8(request.password@),
            );
        }
    }
    let issued = store.issue_session(&user.id, ip);
    proof {
        if old(store).consistent() && issued is Err {
            lemma_failed_issuance(
                old(store).state(),
                store.state(),
                old(store).may_fault(),
                user@.id,
                ip,
                old(store).session_cap(),
                issued,
            );
            assert(old(store).state().names_user(request.username@, user@.id));
        }
    }
    session_reply(user, issued)
}

/// One way in which a registration that was not answered with a session may
/// have left the store: with the user created under `id` and with the hash
/// `hash`, which accepts the password, and then as after an issuance to
/// that user that returned no session.
pub open spec fn registration_trace(
    pre: StoreState,
    post: StoreState,
    may_fault: bool,
    username: Seq<char>,
    password: Seq<u8>,
    ip: SessionIp,
    id: u128,
    hash: Seq<char>,
) -> bool {
    &&& !pre.has_username(username)
    &&& !pre.users.contains_key(id)
    &&& argon2_accepts(hash, password)
    &&& issuance_aftermath(
        pre.with_user(new_user(id, username, hash, Role::User)),
        post,
        may_fault,
        id,
        ip,
    )
}

/// How a registration turned away leaves things, by the status of the
/// answer. 400: the name is taken, and the store is as it was. 429: the
/// user was created and is at the session limit. 500: the backend can fail,
/// or the name was free and hashing, creation or issuance ended in a fault;
/// the store is as it was, or the user was created.
pub open spec fn register_refusal_post(
    pre: StoreState,
    post: StoreState,
    may_fault: bool,
    username: Seq<char>,
    password: Seq<u8>,
    ip: SessionIp,
    status: u16,
) -> bool {
    ||| status == STATUS_BAD_REQUEST && pre.has_username(username) && post == pre
    ||| status == STATUS_TOO_MANY_REQUESTS && exists|id: u128, hash: Seq<char>| #[trigger]
        registration_trace(pre, post, false, username, password, ip, id, hash)
    ||| status == STATUS_INTERNAL_SERVER_ERROR && (may_fault || !pre.has_username(username)) && (
    post == pre || exists|id: u128, hash: Seq<char>| #[trigger]
        registration_trace(pre, post, may_fault, username, password, ip, id, hash))
}

/// Answers a registration request: creates a user with the role `User`
/// under the requested name, with a fresh hash of the requested password,
/// and issues a first session. A name that is taken is answered with 400,
/// always so on a backend that cannot fail, and the store is then as it
/// was.
pub fn register<S: AuthStore>(store: &mut S, request: &AuthRequest, ip: SessionIp) -> (r: Result<
    AuthResponse,
    u16,
>)
    ensures
        final(store).session_cap() == old(store).session_cap(),
        final(store).may_fault() == old(store).may_fault(),
        old(store).consistent() ==> final(store).consistent(),
        old(store).consistent() ==> match r {
            Ok(response) => {
                &&& !old(store).state().has_username(request.username@)
                &&& response.username@ == request.username@
                &&& response.role == Role::User
                &&& session_of_user(final(store).state(), request.username@, response.session)
                &&& credentials_accepted(
                    final(store).state(),
                    request.username@,
                    encode_utf8(request.password@),
                )
            },
            Err(status) => register_refusal_post(
                old(store).state(),
                final(store).state(),
                old(store).may_fault(),
                request.username@,
                encode_utf8(request.password@),
                ip,
                status,
            ),
        },
        old(store).consistent() && !old(store).may_fault() && old(store).state().has_username(
            request.username@,
        ) ==> (r matches Err(status) && status == STATUS_BAD_REQUEST) && final(store).state()
            == old(store).state(),
{
    let lookup = store.get_user_by_username(&request.username);
    proof {
        if store.consistent() {
            store.lemma_consistent_is_wf();
            if lookup is Ok {
                assert(store.state().names_user(request.username@, lookup->Ok_0@.id));
            }
        }
    }
    match registration_refusal(&lookup) {
        Some(status) => {
            return Err(status);
        },
        None => {},
    }
    let hash = match PasswordHash::from_password(request.password.as_str()) {
        Ok(hash) => hash,
        Err(e) => {
            return Err(status_code(&e));
        },
    };
    let ghost hash_text = hash@;
    let created = store.create_standard_user(&request.username, hash);
    let ghost mid = store.state();
    let user = match created {
        Ok(user) => user,
        Err(e) => {
            proof {
                if old(store).consistent() {
                    let pre = old(store).state();
                    let id = choose|id: u128|
                        create_user_outcome(
                            pre,
                            mid,
                            old(store).may_fault(),
                            request.username@,
                            hash_text,
                            Role::User,
                            id,
                            created,
                        );
                    if mid != pre {
                        let done = choose|done: Result<User, AuthError>|
                            create_user_post(
                                pre,
                                mid,
                                request.username@,
                                hash_text,
                                Role::User,
                                id,
                                done,
                            );
                        assert(registration_trace(
                            pre,
                            mid,
                            old(store).may_fault(),
                            request.username@,
                            encode_utf8(request.password@),
                            ip,
                            id,
                            hash_text,
                        ));
                    }
                }
            }
            return Err(status_code(&e));
        },
    };
    proof {
        if old(store).consistent() {
            assert(store.state().names_user(request.username@, user@.id));
            lemma_create_user_keeps_wf(old(store).state(), user@);
        }
    }
    let issued = store.issue_session(&user.id, ip);
    proof {
        if old(store).consistent() {
            if issued is Err {
                lemma_failed_issuance(
                    mid,
                    store.state(),
                    old(store).may_fault(),
                    user@.id,
                    ip,
                    old(store).session_cap(),
                    issued,
                );
                assert(mid == old(store).state().with_user(
                    new_user(user@.id, request.username@, hash_text, Role::User),
                ));
                if !is_fault(issued) {
                    assert(registration_trace(
                        old(store).state(),
                        store.state(),
                        false,
                        request.username@,
                        encode_utf8(request.password@),
                        ip,
                        user@.id,
                        hash_text,
                    ));
                }
                assert(registration_trace(
                    old(store).state(),
                    store.state(),
                    old(store).may_fault(),
                    request.username@,
                    encode_utf8(request.password@),
                    ip,
                    user@.id,
                    hash_text,
                ));
            } else {
                assert(store.state().names_user(request.username@, user@.id));
            }
        }
    }
    session_reply(user, issued)
}

/// What presenting the token `sid` at `now` does. A session that is live
/// at `now` is handed out as stored, and the store stays as it was. Where
/// there is no such session, nothing is handed out, and a session found
/// expired is gone. A backend that can fail may hand out nothing although
/// the session is live; the store is then as it was, or as after a fetch.
pub open spec fn presented_session_post(
    pre: StoreState,
    post: StoreState,
    may_fault: bool,
    sid: Seq<char>,
    now: Timestamp,
    r: Option<Session>,
) -> bool {
    match r {
        Some(session) => {
            &&& pre.session_valid(sid, now)
            &&& session@ == pre.sessions[sid]
            &&& post == pre
        },
        None => {
            ||| !pre.session_valid(sid, now) && post == pre.after_fetch(sid, now)
            ||| may_fault && (post == pre || post == pre.after_fetch(sid, now))
        },
    }
}

/// The session that a request presents, as of now: the session behind the
/// token of the request, provided there is a token and it names a valid
/// session. A request without a token presents none.
pub fn fetch_session<S: AuthStore>(store: &mut S, token: Option<&SessionId>) -> (r: Option<Session>)
    ensures
        final(store).session_cap() == old(store).session_cap(),
        final(store).may_fault() == old(store).may_fault(),
        old(store).consistent() ==> final(store).consistent(),
        token is None ==> r is None && final(store).state() == old(store).state(),
        old(store).consistent() ==> (r matches Some(session) ==> {
            &&& token matches Some(presented)
            &&& final(store).state() == old(store).state()
            &&& old(store).state().sessions.contains_key(presented@)
            &&& old(store).state().sessions[presented@] == session@
        }),
        old(store).consistent() ==> match token {
            Some(presented) => exists|now: Timestamp|
                presented_session_post(
                    old(store).state(),
                    final(store).state(),
                    old(store).may_fault(),
                    presented@,
                    now,
                    r,
                ),
            None => r is None,
        },
{
    match token {
        Some(presented) => {
            let fetched = store.fetch_session(presented);
            let ghost outcome = fetched;
            let r = match fetched {
                Ok(session) => Some(session),
                Err(_) => None,
            };
            proof {
                if old(store).consistent() {
                    let now = choose|now: Timestamp|
                        fetch_session_outcome(
                            old(store).state(),
                            store.state(),
                            old(store).may_fault(),
                            presented@,
                            now,
                            outcome,
                        );
                    assert(presented_session_post(
                        old(store).state(),
                        store.state(),
                        old(store).may_fault(),
                        presented@,
                        now,
                        r,
                    ));
                }
            }
            r
        },
        None => None,
    }
}

/// Whether `who` tells of user `uid` what the store holds: identifier, name
/// and role.
pub open spec fn tells_of_user(s: StoreState, uid: u128, who: CurrentUser) -> bool {
    &&& s.users.contains_key(uid)
    &&& who.user_id.0 == uid
    &&& who.username@ == s.users[uid].username
    &&& who.role == s.users[uid].role
}

/// What asking at `now` who is behind the token `sid` does. Behind a
/// session that is live at `now` is its owner, and the store stays as it
/// was. Where there is no such session, nobody is named, and a session
/// found expired is gone. A backend that can fail may name nobody although
/// the session is live; the store is then as it was, or as after a fetch.
pub open spec fn current_user_post(
    pre: StoreState,
    post: StoreState,
    may_fault: bool,
    sid: Seq<char>,
    now: Timestamp,
    r: Option<CurrentUser>,
) -> bool {
    match r {
        Some(who) => {
            &&& pre.session_valid(sid, now)
            &&& tells_of_user(pre, pre.sessions[sid].user_id, who)
            &&& post == pre
        },
        None => {
            ||| !pre.session_valid(sid, now) && post == pre.after_fetch(sid, now)
            ||| may_fault && (post == pre || post == pre.after_fetch(sid, now))
        },
    }
}

/// Who is behind the session that a request presents, as of now: the user
/// that owns it, provided there is a token and it names a valid session. A
/// request without a token names nobody.
pub fn get_current_user<S: AuthStore>(store: &mut S, token: Option<&SessionId>) -> (r: Option<
    CurrentUser,
>)
    ensures
        final(store).session_cap() == old(store).session_cap(),
        final(store).may_fault() == old(store).may_fault(),
        old(store).consistent() ==> final(store).consistent(),
        token is None ==> r is None && final(store).state() == old(store).state(),
        old(store).consistent() ==> (r matches Some(who) ==> {
            &&& token matches Some(presented)
            &&& final(store).state() == old(store).state()
            &&& old(store).state().sessions.contains_key(presented@)
            &&& old(store).state().sessions[presented@].user_id == who.user_id.0
            &&& old(store).state().users.contains_key(who.user_id.0)
            &&& old(store).state().users[who.user_id.0].username == who.username@
            &&& old(store).state().users[who.user_id.0].role == who.role
        }),
        old(store).consistent() ==> match token {
            Some(presented) => exists|now: Timestamp|
                current_user_post(
                    old(store).state(),
                    final(store).state(),
                    old(store).may_fault(),
                    presented@,
                    now,
                    r,
                ),
            None => r is None,
        },
{
    proof {
        if store.consistent() {
            store.lemma_consistent_is_wf();
        }
    }
    let presented = match token {
        Some(presented) => presented,
        None => {
            return None;
        },
    };
    let session = match fetch_session(store, token) {
        Some(session) => session,
        None => {
            proof {
                if old(store).consistent() {
                    let now = choose|now: Timestamp|
                        presented_session_post(
                            old(store).state(),
                            store.state(),
                            old(store).may_fault(),
                            presented@,
                            now,
                            None::<Session>,
                        );
                    assert(current_user_post(
                        old(store).state(),
                        store.state(),
                        old(store).may_fault(),
                        presented@,
                        now,
                        None::<CurrentUser>,
                    ));
                }
            }
            return None;
        },
    };
    let ghost now = choose|now: Timestamp|
        presented_session_post(
            old(store).state(),
            store.state(),
            old(store).may_fault(),
            presented@,
            now,
            Some(session),
        );
    let found = store.get_user_by_id(&session.user_id);
    let r = match found {
        Ok(user) => Some(
            CurrentUser { username: user.username.0, role: user.role, user_id: user.id },
        ),
        Err(_) => None,
    };
    proof {
        if old(store).consistent() {
            assert(current_user_post(
                old(store).state(),
                store.state(),
                old(store).may_fault(),
                presented@,
                now,
                r,
            ));
        }
    }
    r
}

/// Ends the session that a request presents. A request without a token, or
/// with one that names no session, changes nothing.
pub fn logout<S: AuthStore>(store: &mut S, token: Option<&SessionId>)
    ensures
        final(store).session_cap() == old(store).session_cap(),
        final(store).may_fault() == old(store).may_fault(),
        old(store).consistent() ==> final(store).consistent(),
        token is None ==> final(store).state() == old(store).state(),
        old(store).consistent() ==> (token matches Some(presented) ==> {
            ||| final(store).state() == old(store).state().without_session(presented@)
            ||| old(store).may_fault() && final(store).state() == old(store).state()
        }),
{
    match token {
        Some(presented) => {
            let r = store.revoke_session(presented);
            proof {
                if old(store).consistent() {
                    let pre = old(store).state();
                    assert(pre.without_session(presented@).sessions =~= pre.sessions.remove(
                        presented@,
                    ));
                    if !pre.sessions.contains_key(presented@) {
                        assert(pre.without_session(presented@) =~= pre);
                    }
                }
            }
        },
        None => {},
    }
}

} // verus!
