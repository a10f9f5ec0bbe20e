use bento::clock::Timestamp;
use bento::credentials::PasswordHash;
use bento::error::AuthError;
use bento::storage::redbstore::RedbAuthStore;
use bento::storage::AuthStore;
use bento::types::{IpAddress, Role, SessionId, SessionIp, UserId, Username};

fn loopback() -> SessionIp {
    SessionIp(IpAddress::V4(0x7f00_0001))
}

fn name(text: &str) -> Username {
    Username(text.to_string())
}

fn hash(password: &str) -> PasswordHash {
    PasswordHash::from_password(password).expect("hashing should succeed")
}

#[test]
fn redb_create_then_find_by_name_and_id() {
    let mut store = RedbAuthStore::in_memory(5).expect("store should open");
    let created = store
        .create_user_with_id(&name("alice"), hash("secret"), Role::User, UserId(42))
        .expect("creation should succeed");
    assert_eq!(created.id, UserId(42));
    let by_name = store.get_user_by_username(&name("alice")).expect("found by name");
    assert_eq!(by_name.id, UserId(42));
    assert_eq!(by_name.role, Role::User);
    assert_eq!(by_name.username, name("alice"));
    assert_eq!(by_name.password_hash, created.password_hash);
    assert!(by_name.password_hash.verify("secret"));
    assert!(!by_name.password_hash.verify("wrong"));
    let by_id = store.get_user_by_id(&UserId(42)).expect("found by id");
    assert_eq!(by_id.username, name("alice"));
    assert!(matches!(
        store.get_user_by_id(&UserId(43)),
        Err(AuthError::NotFound)
    ));
    assert!(matches!(
        store.get_user_by_username(&name("bob")),
        Err(AuthError::NotFound)
    ));
}

#[test]
fn redb_second_user_of_same_name_is_refused() {
    let mut store = RedbAuthStore::in_memory(5).expect("store should open");
    store
        .create_user_with_id(&name("alice"), hash("one"), Role::User, UserId(1))
        .expect("first creation should succeed");
    assert!(matches!(
        store.create_user_with_id(&name("alice"), hash("two"), Role::Admin, UserId(2)),
        Err(AuthError::UserExists)
    ));
    assert!(matches!(
        store.get_user_by_id(&UserId(2)),
        Err(AuthError::NotFound)
    ));
    let found = store.get_user_by_username(&name("alice")).expect("alice stays");
    assert_eq!(found.id, UserId(1));
    assert!(found.password_hash.verify("one"));
}

#[test]
fn redb_identifier_in_use_is_a_fault() {
    let mut store = RedbAuthStore::in_memory(5).expect("store should open");
    store
        .create_user_with_id(&name("alice"), hash("one"), Role::User, UserId(1))
        .expect("first creation should succeed");
    assert!(matches!(
        store.create_user_with_id(&name("bob"), hash("two"), Role::User, UserId(1)),
        Err(AuthError::Internal(_))
    ));
    assert!(matches!(
        store.get_user_by_username(&name("bob")),
        Err(AuthError::NotFound)
    ));
}

#[test]
fn redb_enforces_session_limit() {
    let mut store = RedbAuthStore::in_memory(1).expect("store should open");
    let user = store
        .create_standard_user(&name("limit"), hash("pw"))
        .expect("creation should succeed");
    let first = store
        .issue_session(&user.id, loopback())
        .expect("first session should succeed");
    match store.issue_session(&user.id, loopback()) {
        Err(AuthError::SessionLimitReached) => {}
        other => panic!("expected session limit error, got {other:?}"),
    }
    store.revoke_session(&first.id).expect("revocation should succeed");
    let second = store
        .issue_session(&user.id, loopback())
        .expect("session after revocation should succeed");
    assert_ne!(first.id, second.id);
    match store.issue_session(&user.id, loopback()) {
        Err(AuthError::SessionLimitReached) => {}
        other => panic!("expected session limit error, got {other:?}"),
    }
}

#[test]
fn redb_issue_for_unknown_user_is_not_found() {
    let mut store = RedbAuthStore::in_memory(3).expect("store should open");
    assert!(matches!(
        store.issue_session(&UserId(9), loopback()),
        Err(AuthError::NotFound)
    ));
}

#[test]
fn redb_expired_sessions_are_reaped_on_issue() {
    let mut store = RedbAuthStore::in_memory(2).expect("store should open");
    let user = store
        .create_user_with_id(&name("carol"), hash("pw"), Role::User, UserId(7))
        .expect("creation should succeed");
    let hour = 3_600_000_000_000i128;
    let a = store
        .issue_session_with(&user.id, loopback(), Timestamp(0), SessionId("a".to_string()))
        .expect("a");
    assert_eq!(a.created_at, Timestamp(0));
    assert_eq!(a.expires_at, Timestamp(hour));
    store
        .issue_session_with(&user.id, loopback(), Timestamp(10), SessionId("b".to_string()))
        .expect("b");
    assert!(matches!(
        store.issue_session_with(&user.id, loopback(), Timestamp(20), SessionId("c".to_string())),
        Err(AuthError::SessionLimitReached)
    ));
    // At `hour` the first session has expired, the second has not.
    store
        .issue_session_with(&user.id, loopback(), Timestamp(hour), SessionId("c".to_string()))
        .expect("c takes the place of a");
    // The expired session was removed with the issuance: its token is free.
    assert!(matches!(
        store.fetch_session_at(&SessionId("a".to_string()), Timestamp(5)),
        Err(AuthError::InvalidSession)
    ));
    assert!(store
        .fetch_session_at(&SessionId("b".to_string()), Timestamp(hour))
        .is_ok());
}

#[test]
fn redb_token_in_use_is_a_fault() {
    let mut store = RedbAuthStore::in_memory(5).expect("store should open");
    let user = store
        .create_user_with_id(&name("dave"), hash("pw"), Role::User, UserId(3))
        .expect("creation should succeed");
    store
        .issue_session_with(&user.id, loopback(), Timestamp(0), SessionId("t".to_string()))
        .expect("first");
    assert!(matches!(
        store.issue_session_with(&user.id, loopback(), Timestamp(1), SessionId("t".to_string())),
        Err(AuthError::Internal(_))
    ));
}

#[test]
fn redb_fetch_removes_expired_session() {
    let mut store = RedbAuthStore::in_memory(5).expect("store should open");
    let user = store
        .create_user_with_id(&name("erin"), hash("pw"), Role::User, UserId(4))
        .expect("creation should succeed");
    let hour = 3_600_000_000_000i128;
    let session = store
        .issue_session_with(&user.id, loopback(), Timestamp(100), SessionId("s".to_string()))
        .expect("issue");
    let fetched = store
        .fetch_session_at(&session.id, Timestamp(hour + 99))
        .expect("still live one nanosecond before expiry");
    assert_eq!(fetched, session);
    assert!(matches!(
        store.fetch_session_at(&session.id, Timestamp(hour + 100)),
        Err(AuthError::InvalidSession)
    ));
    // Removed as a side effect: also invalid at a time at which it was live.
    assert!(matches!(
        store.fetch_session_at(&session.id, Timestamp(200)),
        Err(AuthError::InvalidSession)
    ));
    assert!(matches!(
        store.revoke_session(&session.id),
        Err(AuthError::InvalidSession)
    ));
}

#[test]
fn redb_extend_moves_expiry() {
    let mut store = RedbAuthStore::in_memory(5).expect("store should open");
    let user = store
        .create_user_with_id(&name("frank"), hash("pw"), Role::User, UserId(5))
        .expect("creation should succeed");
    let hour = 3_600_000_000_000i128;
    let session = store
        .issue_session_with(&user.id, loopback(), Timestamp(0), SessionId("s".to_string()))
        .expect("issue");
    let extended = store
        .extend_session_at(&session.id, Timestamp(1_000))
        .expect("extend");
    assert_eq!(extended.expires_at, Timestamp(hour + 1_000));
    assert!(extended.expires_at.0 > session.expires_at.0);
    assert_eq!(extended.created_at, session.created_at);
    assert_eq!(extended.user_id, session.user_id);
    let fetched = store
        .fetch_session_at(&session.id, Timestamp(hour + 500))
        .expect("live thanks to the extension");
    assert_eq!(fetched, extended);
    assert!(matches!(
        store.extend_session_at(&session.id, Timestamp(hour + 1_000)),
        Err(AuthError::InvalidSession)
    ));
    assert!(matches!(
        store.fetch_session_at(&session.id, Timestamp(0)),
        Err(AuthError::InvalidSession)
    ));
    assert!(matches!(
        store.extend_session_at(&SessionId("none".to_string()), Timestamp(0)),
        Err(AuthError::InvalidSession)
    ));
}

#[test]
fn redb_delete_user_purges_sessions() {
    let mut store = RedbAuthStore::in_memory(5).expect("store should open");
    let gina = store
        .create_user_with_id(&name("gina"), hash("pw"), Role::User, UserId(6))
        .expect("creation should succeed");
    let hal = store
        .create_user_with_id(&name("hal"), hash("pw"), Role::Admin, UserId(8))
        .expect("creation should succeed");
    let s1 = store
        .issue_session_with(&gina.id, loopback(), Timestamp(0), SessionId("g1".to_string()))
        .expect("g1");
    let s2 = store
        .issue_session_with(&gina.id, loopback(), Timestamp(0), SessionId("g2".to_string()))
        .expect("g2");
    let other = store
        .issue_session_with(&hal.id, loopback(), Timestamp(0), SessionId("h1".to_string()))
        .expect("h1");
    store.delete_user(&gina.id).expect("deletion should succeed");
    assert!(matches!(store.get_user_by_id(&gina.id), Err(AuthError::NotFound)));
    assert!(matches!(
        store.get_user_by_username(&name("gina")),
        Err(AuthError::NotFound)
    ));
    assert!(matches!(
        store.fetch_session_at(&s1.id, Timestamp(1)),
        Err(AuthError::InvalidSession)
    ));
    assert!(matches!(
        store.fetch_session_at(&s2.id, Timestamp(1)),
        Err(AuthError::InvalidSession)
    ));
    assert!(store.fetch_session_at(&other.id, Timestamp(1)).is_ok());
    assert!(matches!(store.delete_user(&gina.id), Err(AuthError::NotFound)));
    // The name is free again.
    store
        .create_user_with_id(&name("gina"), hash("pw"), Role::User, UserId(9))
        .expect("name can be taken again");
}

#[test]
fn redb_set_password_hash_replaces_the_credential_only() {
    let mut store = RedbAuthStore::in_memory(5).expect("store should open");
    let user = store
        .create_user_with_id(&name("ivy"), hash("old"), Role::Admin, UserId(11))
        .expect("creation should succeed");
    let new_hash = hash("new");
    let stored = store
        .set_password_hash(&user.id, new_hash.clone())
        .expect("replacement should succeed");
    assert_eq!(stored, new_hash);
    let found = store.get_user_by_id(&user.id).expect("found");
    assert_eq!(found.username, name("ivy"));
    assert_eq!(found.role, Role::Admin);
    assert!(found.password_hash.verify("new"));
    assert!(!found.password_hash.verify("old"));
    assert!(matches!(
        store.set_password_hash(&UserId(12), hash("x")),
        Err(AuthError::NotFound)
    ));
}

#[test]
fn redb_store_on_a_file_keeps_its_users() {
    let path = format!("/tmp/bento-test-{}.redb", uuid::Uuid::now_v7());
    {
        let mut store = RedbAuthStore::new(&path, 5).expect("store should open");
        assert_eq!(store.max_sessions_per_user(), 5);
        store
            .create_user_with_id(&name("kept"), hash("pw"), Role::User, UserId(77))
            .expect("creation should succeed");
    }
    let store = RedbAuthStore::new(&path, 2).expect("store should open again");
    assert_eq!(store.max_sessions_per_user(), 2);
    let found = store.get_user_by_username(&name("kept")).expect("still there");
    assert_eq!(found.id, UserId(77));
}

#[test]
fn redb_new_store_is_empty() {
    let mut store = RedbAuthStore::in_memory(4).expect("store should open");
    assert_eq!(store.max_sessions_per_user(), 4);
    assert!(matches!(store.get_user_by_id(&UserId(1)), Err(AuthError::NotFound)));
    assert!(matches!(
        store.get_user_by_username(&name("nobody")),
        Err(AuthError::NotFound)
    ));
    assert!(matches!(
        store.fetch_session_at(&SessionId("none".to_string()), Timestamp(0)),
        Err(AuthError::InvalidSession)
    ));
    assert!(matches!(
        store.revoke_session(&SessionId("none".to_string())),
        Err(AuthError::InvalidSession)
    ));
    assert!(matches!(store.delete_user(&UserId(1)), Err(AuthError::NotFound)));
}

#[test]
fn redb_record_too_long_for_a_row_is_not_stored() {
    let mut store = RedbAuthStore::in_memory(5).expect("store should open");
    let long = name(&"n".repeat(1_048_577));
    assert!(matches!(
        store.create_user_with_id(&long, hash("pw"), Role::User, UserId(1)),
        Err(AuthError::Internal(_))
    ));
    assert!(matches!(store.get_user_by_id(&UserId(1)), Err(AuthError::NotFound)));
    assert!(matches!(store.get_user_by_username(&long), Err(AuthError::NotFound)));
    // The identifier and shorter names stay free.
    store
        .create_user_with_id(&name("short"), hash("pw"), Role::User, UserId(1))
        .expect("creation should succeed");
    let token = SessionId("t".repeat(1_048_577));
    assert!(matches!(
        store.issue_session_with(&UserId(1), loopback(), Timestamp(0), token.clone()),
        Err(AuthError::Internal(_))
    ));
    assert!(matches!(
        store.fetch_session_at(&token, Timestamp(0)),
        Err(AuthError::InvalidSession)
    ));
}
