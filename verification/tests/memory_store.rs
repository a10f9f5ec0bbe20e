use bento::clock::Timestamp;
use bento::credentials::PasswordHash;
use bento::error::AuthError;
use bento::storage::memstore::MemoryAuthStore;
use bento::storage::AuthStore;
use bento::types::{IpAddress, Role, SessionId, SessionIp, UserId, Username};

fn loopback() -> SessionIp {
    SessionIp(IpAddress::V4(0x7f00_0001))
}

fn name(text: &str) -> Username {
    Username(text.to_string())
}

fn hash(password: &str) -> PasswordHash {
    PasswordHash::from_password(password).expect("hashing should succeed")
}

#[test]
fn enforces_session_limit() {
    let mut store = MemoryAuthStore::new(1);
    let user = store
        .create_standard_user(&name("limit"), hash("secret"))
        .expect("user creation should succeed");
    let user_id = user.id;
    let ip = loopback();

    let first = store
        .issue_session(&user_id, ip)
        .expect("first session should succeed");

    match store.issue_session(&user_id, ip) {
        Err(AuthError::SessionLimitReached) => {}
        other => panic!("expected session limit error, got {other:?}"),
    }

    store
        .revoke_session(&first.id)
        .expect("revocation should succeed");

    let second = store
        .issue_session(&user_id, ip)
        .expect("session after revocation should succeed");
    assert_ne!(first.id, second.id);
}

#[test]
fn alice_is_found_with_her_role_and_password() {
    let mut store = MemoryAuthStore::new_unbounded();
    assert_eq!(store.max_sessions_per_user(), usize::MAX);
    store
        .create_user(&name("alice"), hash("secret"), Role::User)
        .expect("user creation should succeed");
    let found = store
        .get_user_by_username(&name("alice"))
        .expect("alice should be found");
    assert_eq!(found.role, Role::User);
    assert!(found.password_hash.verify("secret"));
    assert!(!found.password_hash.verify("wrong"));
}

#[test]
fn memory_create_admin_and_standard_user_fix_the_role() {
    let mut store = MemoryAuthStore::new(3);
    let admin = store.create_admin(&name("root"), hash("pw")).expect("admin");
    let user = store.create_standard_user(&name("joe"), hash("pw")).expect("user");
    assert_eq!(admin.role, Role::Admin);
    assert_eq!(user.role, Role::User);
    assert_ne!(admin.id, user.id);
    assert_eq!(store.get_user_by_id(&admin.id).expect("found").username, name("root"));
}

#[test]
fn memory_second_user_of_same_name_is_refused() {
    let mut store = MemoryAuthStore::new(5);
    store
        .create_user_with_id(&name("alice"), hash("one"), Role::User, UserId(1))
        .expect("first creation should succeed");
    assert!(matches!(
        store.create_user_with_id(&name("alice"), hash("two"), Role::Admin, UserId(2)),
        Err(AuthError::UserExists)
    ));
    assert!(matches!(store.get_user_by_id(&UserId(2)), Err(AuthError::NotFound)));
    let found = store.get_user_by_username(&name("alice")).expect("alice stays");
    assert_eq!(found.id, UserId(1));
    // Names are compared character by character: another case is another name.
    store
        .create_user_with_id(&name("Alice"), hash("three"), Role::User, UserId(3))
        .expect("a name in another case is free");
}

#[test]
fn memory_identifier_in_use_is_a_fault() {
    let mut store = MemoryAuthStore::new(5);
    store
        .create_user_with_id(&name("alice"), hash("one"), Role::User, UserId(1))
        .expect("first creation should succeed");
    assert!(matches!(
        store.create_user_with_id(&name("bob"), hash("two"), Role::User, UserId(1)),
        Err(AuthError::Internal(_))
    ));
    assert_eq!(store.get_user_by_id(&UserId(1)).expect("alice").username, name("alice"));
}

#[test]
fn memory_issue_for_unknown_user_is_not_found() {
    let mut store = MemoryAuthStore::new(3);
    assert!(matches!(
        store.issue_session(&UserId(9), loopback()),
        Err(AuthError::NotFound)
    ));
}

#[test]
fn memory_sessions_up_to_the_limit_then_refusal() {
    let mut store = MemoryAuthStore::new(3);
    let user = store
        .create_user_with_id(&name("max"), hash("pw"), Role::User, UserId(1))
        .expect("creation should succeed");
    for (i, token) in ["a", "b", "c"].iter().enumerate() {
        store
            .issue_session_with(
                &user.id,
                loopback(),
                Timestamp(i as i128),
                SessionId(token.to_string()),
            )
            .expect("below the limit");
    }
    assert!(matches!(
        store.issue_session_with(&user.id, loopback(), Timestamp(5), SessionId("d".to_string())),
        Err(AuthError::SessionLimitReached)
    ));
    store.revoke_session(&SessionId("b".to_string())).expect("revoke");
    store
        .issue_session_with(&user.id, loopback(), Timestamp(6), SessionId("d".to_string()))
        .expect("exactly one more");
    assert!(matches!(
        store.issue_session_with(&user.id, loopback(), Timestamp(7), SessionId("e".to_string())),
        Err(AuthError::SessionLimitReached)
    ));
}

#[test]
fn memory_limit_counts_live_sessions_only() {
    let mut store = MemoryAuthStore::new(1);
    let user = store
        .create_user_with_id(&name("tim"), hash("pw"), Role::User, UserId(1))
        .expect("creation should succeed");
    let hour = 3_600_000_000_000i128;
    store
        .issue_session_with(&user.id, loopback(), Timestamp(0), SessionId("a".to_string()))
        .expect("a");
    assert!(matches!(
        store.issue_session_with(&user.id, loopback(), Timestamp(hour - 1), SessionId("b".to_string())),
        Err(AuthError::SessionLimitReached)
    ));
    store
        .issue_session_with(&user.id, loopback(), Timestamp(hour), SessionId("b".to_string()))
        .expect("a has expired");
    assert!(matches!(
        store.fetch_session_at(&SessionId("a".to_string()), Timestamp(0)),
        Err(AuthError::InvalidSession)
    ));
}

#[test]
fn expired_session_is_removed_on_fetch() {
    let mut store = MemoryAuthStore::new(5);
    let user = store
        .create_standard_user(&name("bob"), hash("pw"))
        .expect("user creation should succeed");
    let token = SessionId("token-one".to_string());
    let session = store
        .issue_session_with(&user.id, loopback(), Timestamp(1_000), token)
        .expect("issue should succeed");
    assert_eq!(session.created_at, Timestamp(1_000));
    assert_eq!(session.expires_at, Timestamp(3_600_000_001_000));
    assert_eq!(session.user_id, user.id);
    assert_eq!(session.ip, loopback());
    assert_eq!(
        store.fetch_session_at(&session.id, Timestamp(2_000)).expect("live"),
        session
    );
    assert!(matches!(
        store.fetch_session_at(&session.id, Timestamp(3_600_000_001_000)),
        Err(AuthError::InvalidSession)
    ));
    assert!(matches!(
        store.fetch_session_at(&session.id, Timestamp(2_000)),
        Err(AuthError::InvalidSession)
    ));
}

#[test]
fn memory_extend_moves_expiry() {
    let mut store = MemoryAuthStore::new(5);
    let user = store
        .create_user_with_id(&name("frank"), hash("pw"), Role::User, UserId(5))
        .expect("creation should succeed");
    let hour = 3_600_000_000_000i128;
    let session = store
        .issue_session_with(&user.id, loopback(), Timestamp(0), SessionId("s".to_string()))
        .expect("issue");
    let extended = store.extend_session_at(&session.id, Timestamp(1_000)).expect("extend");
    assert_eq!(extended.expires_at, Timestamp(hour + 1_000));
    assert!(extended.expires_at.0 > session.expires_at.0);
    assert_eq!(
        store.fetch_session_at(&session.id, Timestamp(hour + 500)).expect("live"),
        extended
    );
    assert!(matches!(
        store.extend_session_at(&session.id, Timestamp(hour + 1_000)),
        Err(AuthError::InvalidSession)
    ));
    assert!(matches!(
        store.fetch_session_at(&session.id, Timestamp(0)),
        Err(AuthError::InvalidSession)
    ));
}

#[test]
fn memory_extend_now_increases_expiry() {
    let mut store = MemoryAuthStore::new(5);
    let user = store.create_standard_user(&name("now"), hash("pw")).expect("user");
    let session = store.issue_session(&user.id, loopback()).expect("issue");
    assert_eq!(session.expires_at.0 - session.created_at.0, 3_600_000_000_000);
    let fetched = store.fetch_session(&session.id).expect("fetch");
    assert_eq!(fetched, session);
    let extended = store.extend_session(&session.id).expect("extend");
    assert!(extended.expires_at.0 >= session.expires_at.0);
}

#[test]
fn memory_delete_user_purges_sessions() {
    let mut store = MemoryAuthStore::new(5);
    let gina = store
        .create_user_with_id(&name("gina"), hash("pw"), Role::User, UserId(6))
        .expect("creation should succeed");
    let hal = store
        .create_user_with_id(&name("hal"), hash("pw"), Role::Admin, UserId(8))
        .expect("creation should succeed");
    let s1 = store
        .issue_session_with(&gina.id, loopback(), Timestamp(0), SessionId("g1".to_string()))
        .expect("g1");
    let other = store
        .issue_session_with(&hal.id, loopback(), Timestamp(0), SessionId("h1".to_string()))
        .expect("h1");
    store.delete_user(&gina.id).expect("deletion should succeed");
    assert!(matches!(store.get_user_by_id(&gina.id), Err(AuthError::NotFound)));
    assert!(matches!(
        store.fetch_session_at(&s1.id, Timestamp(1)),
        Err(AuthError::InvalidSession)
    ));
    assert!(store.fetch_session_at(&other.id, Timestamp(1)).is_ok());
    assert!(matches!(store.delete_user(&gina.id), Err(AuthError::NotFound)));
}

#[test]
fn memory_set_password_hash_replaces_the_credential_only() {
    let mut store = MemoryAuthStore::new(5);
    let user = store
        .create_user_with_id(&name("ivy"), hash("old"), Role::Admin, UserId(11))
        .expect("creation should succeed");
    let new_hash = hash("new");
    let stored = store
        .set_password_hash(&user.id, new_hash.clone())
        .expect("replacement should succeed");
    assert_eq!(stored, new_hash);
    let found = store.get_user_by_id(&user.id).expect("found");
    assert_eq!(found.username, name("ivy"));
    assert_eq!(found.role, Role::Admin);
    assert!(found.password_hash.verify("new"));
    assert!(!found.password_hash.verify("old"));
    assert!(matches!(
        store.set_password_hash(&UserId(12), hash("x")),
        Err(AuthError::NotFound)
    ));
}

#[test]
fn memory_revoke_unknown_session_is_invalid() {
    let mut store = MemoryAuthStore::new(5);
    assert!(matches!(
        store.revoke_session(&SessionId("nothing".to_string())),
        Err(AuthError::InvalidSession)
    ));
    assert!(matches!(
        store.fetch_session(&SessionId("nothing".to_string())),
        Err(AuthError::InvalidSession)
    ));
}
