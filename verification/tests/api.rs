use bento::api::{
    authenticate_user, check_credentials, fetch_session, get_current_user, login, logout,
    refusal_notice, refusal_status, register, registration_refusal, session_reply, status_code,
    AuthRequest, LoginFailure,
    STATUS_BAD_REQUEST, STATUS_TOO_MANY_REQUESTS, STATUS_UNAUTHORIZED,
};
use bento::credentials::PasswordHash;
use bento::error::AuthError;
use bento::storage::memstore::MemoryAuthStore;
use bento::storage::redbstore::RedbAuthStore;
use bento::storage::AuthStore;
use bento::clock::Timestamp;
use bento::types::{IpAddress, Role, Session, SessionId, SessionIp, User, UserId, Username};

fn ip() -> SessionIp {
    SessionIp(IpAddress::V6(1))
}

fn request(username: &str, password: &str) -> AuthRequest {
    AuthRequest { username: Username(username.to_string()), password: password.to_string() }
}

#[test]
fn each_store_error_has_its_status() {
    assert_eq!(status_code(&AuthError::UserExists), 400);
    assert_eq!(status_code(&AuthError::NotFound), 401);
    assert_eq!(status_code(&AuthError::InvalidSession), 403);
    assert_eq!(status_code(&AuthError::SessionLimitReached), 429);
    assert_eq!(status_code(&AuthError::Internal("x".to_string())), 500);
}

#[test]
fn register_then_login() {
    let mut store = MemoryAuthStore::new(2);
    let registered = register(&mut store, &request("alice", "secret"), ip()).expect("register");
    assert_eq!(registered.username, Username("alice".to_string()));
    assert_eq!(registered.role, Role::User);
    assert_eq!(registered.session.ip, ip());
    let logged_in = login(&mut store, &request("alice", "secret"), ip()).expect("login");
    assert_eq!(logged_in.username, Username("alice".to_string()));
    assert_eq!(logged_in.role, Role::User);
    assert_eq!(logged_in.session.user_id, registered.session.user_id);
    assert_ne!(logged_in.session.id, registered.session.id);
    // Two live sessions: the limit is reached.
    assert_eq!(
        login(&mut store, &request("alice", "secret"), ip()).unwrap_err(),
        STATUS_TOO_MANY_REQUESTS
    );
}

#[test]
fn register_refuses_a_taken_name() {
    let mut store = MemoryAuthStore::new(2);
    register(&mut store, &request("alice", "secret"), ip()).expect("register");
    assert_eq!(
        register(&mut store, &request("alice", "other"), ip()).unwrap_err(),
        STATUS_BAD_REQUEST
    );
    // The first password still holds.
    assert!(login(&mut store, &request("alice", "secret"), ip()).is_ok());
}

#[test]
fn login_refuses_unknown_name_and_wrong_password_alike() {
    let mut store = MemoryAuthStore::new(2);
    register(&mut store, &request("alice", "secret"), ip()).expect("register");
    assert_eq!(
        login(&mut store, &request("alice", "wrong"), ip()).unwrap_err(),
        STATUS_UNAUTHORIZED
    );
    assert_eq!(
        login(&mut store, &request("bob", "secret"), ip()).unwrap_err(),
        STATUS_UNAUTHORIZED
    );
}

#[test]
fn authenticate_user_tells_failures_apart_by_message() {
    let mut store = RedbAuthStore::in_memory(1).expect("store should open");
    let hash = PasswordHash::from_password("secret").expect("hashing");
    let user = store
        .create_admin(&Username("root".to_string()), hash)
        .expect("creation should succeed");
    assert_eq!(
        authenticate_user(&mut store, "nobody", "secret", ip()).unwrap_err().message(),
        "User not found"
    );
    assert_eq!(
        authenticate_user(&mut store, "root", "wrong", ip()).unwrap_err().message(),
        "Invalid username or password"
    );
    let session = authenticate_user(&mut store, "root", "secret", ip()).expect("accepted");
    assert_eq!(session.user_id, user.id);
    assert_eq!(
        authenticate_user(&mut store, "root", "secret", ip()).unwrap_err().message(),
        "Maximum number of active sessions reached. Please log out of another device."
    );
}

#[test]
fn current_user_follows_the_session() {
    let mut store = MemoryAuthStore::new(2);
    let registered = register(&mut store, &request("alice", "secret"), ip()).expect("register");
    let token = registered.session.id.clone();
    assert_eq!(
        fetch_session(&mut store, Some(&token)).expect("a valid session"),
        registered.session
    );
    assert!(fetch_session(&mut store, None).is_none());
    assert!(get_current_user(&mut store, None).is_none());
    let who = get_current_user(&mut store, Some(&token)).expect("a valid session");
    assert_eq!(who.username, "alice");
    assert_eq!(who.role, Role::User);
    assert_eq!(who.user_id, registered.session.user_id);
    assert!(get_current_user(&mut store, Some(&SessionId("unknown".to_string()))).is_none());
    // A request without a token ends no session.
    logout(&mut store, None);
    assert!(get_current_user(&mut store, Some(&token)).is_some());
    logout(&mut store, Some(&token));
    assert!(get_current_user(&mut store, Some(&token)).is_none());
    // Logging out twice is harmless.
    logout(&mut store, Some(&token));
}

#[test]
fn current_user_is_gone_with_the_user() {
    let mut store = RedbAuthStore::in_memory(2).expect("store should open");
    let registered = register(&mut store, &request("alice", "secret"), ip()).expect("register");
    store.delete_user(&registered.session.user_id).expect("delete");
    assert!(get_current_user(&mut store, Some(&registered.session.id)).is_none());
}

#[test]
fn a_presented_session_is_handed_out_as_stored() {
    let mut store = MemoryAuthStore::new(2);
    let registered = register(&mut store, &request("carol", "pw"), ip()).expect("register");
    let token = registered.session.id.clone();
    // Handed out as stored, and again: looking does not change the store.
    for _ in 0..2 {
        let shown = fetch_session(&mut store, Some(&token)).expect("a live session");
        assert_eq!(shown, registered.session);
        let who = get_current_user(&mut store, Some(&token)).expect("its owner");
        assert_eq!(who.user_id, registered.session.user_id);
        assert_eq!(who.username, "carol");
        assert_eq!(who.role, Role::User);
    }
    assert!(fetch_session(&mut store, Some(&SessionId("other".to_string()))).is_none());
    assert!(store.fetch_session(&token).is_ok());
}

fn sample_user() -> User {
    User {
        id: UserId(5),
        username: Username("dora".to_string()),
        password_hash: PasswordHash::from_password("secret").expect("hashing"),
        role: Role::Admin,
    }
}

#[test]
fn credentials_are_decided_from_lookup_and_password() {
    let found = check_credentials(Ok(sample_user()), "secret").expect("accepted");
    assert_eq!(found.id, UserId(5));
    assert!(matches!(
        check_credentials(Ok(sample_user()), "wrong"),
        Err(LoginFailure::WrongPassword)
    ));
    assert!(matches!(
        check_credentials(Err(AuthError::NotFound), "secret"),
        Err(LoginFailure::Store(AuthError::NotFound))
    ));
    assert!(matches!(
        check_credentials(Err(AuthError::Internal("x".to_string())), "secret"),
        Err(LoginFailure::Store(AuthError::Internal(_)))
    ));
}

#[test]
fn a_login_turned_away_has_its_status_and_notice() {
    assert_eq!(refusal_status(&LoginFailure::WrongPassword), 401);
    assert_eq!(refusal_status(&LoginFailure::Store(AuthError::NotFound)), 401);
    assert_eq!(
        refusal_status(&LoginFailure::Store(AuthError::Internal(String::new()))),
        500
    );
    assert_eq!(
        refusal_notice(&LoginFailure::WrongPassword).message(),
        "Invalid username or password"
    );
    assert_eq!(
        refusal_notice(&LoginFailure::Store(AuthError::NotFound)).message(),
        "User not found"
    );
    assert_eq!(
        refusal_notice(&LoginFailure::Store(AuthError::Internal("detail".to_string()))).message(),
        "An internal error occurred. Please try again later."
    );
}

#[test]
fn the_reply_follows_the_issuance() {
    let session = Session {
        id: SessionId("t".to_string()),
        user_id: UserId(5),
        ip: ip(),
        created_at: Timestamp(1),
        expires_at: Timestamp(2),
    };
    let reply = session_reply(sample_user(), Ok(session.clone())).expect("a session was issued");
    assert_eq!(reply.username, Username("dora".to_string()));
    assert_eq!(reply.role, Role::Admin);
    assert_eq!(reply.session, session);
    assert_eq!(
        session_reply(sample_user(), Err(AuthError::SessionLimitReached)).unwrap_err(),
        429
    );
    assert_eq!(
        session_reply(sample_user(), Err(AuthError::Internal(String::new()))).unwrap_err(),
        500
    );
}

#[test]
fn a_taken_name_turns_a_registration_away() {
    assert_eq!(registration_refusal(&Ok(sample_user())), Some(400));
    assert_eq!(registration_refusal(&Err(AuthError::NotFound)), None);
    assert_eq!(registration_refusal(&Err(AuthError::Internal(String::new()))), None);
}

#[test]
fn a_refused_login_leaves_no_session() {
    let mut store = MemoryAuthStore::new(1);
    let registered = register(&mut store, &request("erin", "pw"), ip()).expect("register");
    assert_eq!(login(&mut store, &request("erin", "nope"), ip()).unwrap_err(), 401);
    assert_eq!(login(&mut store, &request("erin", "pw"), ip()).unwrap_err(), 429);
    // Still exactly the one session of the registration.
    store.revoke_session(&registered.session.id).expect("revoke");
    let again = login(&mut store, &request("erin", "pw"), ip()).expect("one slot is free");
    assert_eq!(login(&mut store, &request("erin", "pw"), ip()).unwrap_err(), 429);
    assert_ne!(again.session.id, registered.session.id);
}

#[test]
fn a_refused_registration_leaves_the_account_alone() {
    let mut store = MemoryAuthStore::new(3);
    let first = register(&mut store, &request("finn", "one"), ip()).expect("register");
    assert_eq!(register(&mut store, &request("finn", "two"), ip()).unwrap_err(), 400);
    let found = store
        .get_user_by_username(&Username("finn".to_string()))
        .expect("still there");
    assert_eq!(found.id, first.session.user_id);
    assert!(found.password_hash.verify("one"));
    assert!(!found.password_hash.verify("two"));
    // No session came of the refusal: two more fit under a limit of three.
    assert!(login(&mut store, &request("finn", "one"), ip()).is_ok());
    assert!(login(&mut store, &request("finn", "one"), ip()).is_ok());
    assert_eq!(login(&mut store, &request("finn", "one"), ip()).unwrap_err(), 429);
}
