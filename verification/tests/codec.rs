use bento::clock::Timestamp;
use bento::credentials::PasswordHash;
use bento::error::AuthError;
use bento::project::{Project, ProjectId};
use bento::storage::codec::{
    decode_project, decode_session, decode_user, encode_project, encode_session, encode_user,
    DECODE_LIMIT, MAX_RECORD_TEXT,
};
use bento::types::{IpAddress, Role, Session, SessionId, SessionIp, User, UserId, Username};

fn sample_user(role: Role) -> User {
    User {
        id: UserId(0x0123_4567_89ab_cdef_0123_4567_89ab_cdef),
        username: Username("alice".to_string()),
        password_hash: PasswordHash::from_password("secret").expect("hashing"),
        role,
    }
}

fn sample_session(ip: IpAddress) -> Session {
    Session {
        id: SessionId("token".to_string()),
        user_id: UserId(17),
        ip: SessionIp(ip),
        created_at: Timestamp(-5),
        expires_at: Timestamp(3_599_999_999_995),
    }
}

#[test]
fn user_row_round_trips() {
    for role in [Role::Admin, Role::User] {
        let user = sample_user(role);
        let row = encode_user(&user).expect("encoding should succeed");
        assert!(!row.is_empty());
        assert_eq!(decode_user(&row).expect("decoding should succeed"), user);
    }
}

#[test]
fn user_rows_of_different_users_differ() {
    let a = encode_user(&sample_user(Role::Admin)).expect("encoding");
    let b = encode_user(&sample_user(Role::User)).expect("encoding");
    assert_ne!(a, b);
}

#[test]
fn session_row_round_trips() {
    for ip in [
        IpAddress::V4(0),
        IpAddress::V4(u32::MAX),
        IpAddress::V6(0),
        IpAddress::V6(u128::MAX),
    ] {
        let session = sample_session(ip);
        let row = encode_session(&session).expect("encoding should succeed");
        assert_eq!(decode_session(&row).expect("decoding should succeed"), session);
    }
}

#[test]
fn rows_that_hold_no_record_are_refused() {
    assert!(matches!(decode_user(&[]), Err(AuthError::Internal(_))));
    assert!(matches!(decode_session(&[]), Err(AuthError::Internal(_))));
    assert!(matches!(decode_user(&[1, 2, 3]), Err(AuthError::Internal(_))));
    let user_row = encode_user(&sample_user(Role::User)).expect("encoding");
    assert!(matches!(
        decode_user(&user_row[..user_row.len() - 1]),
        Err(AuthError::Internal(_))
    ));
}

#[test]
fn user_row_with_unknown_role_is_refused() {
    let mut row = encode_user(&sample_user(Role::User)).expect("encoding");
    // The role is the last field of the row, one byte.
    let last = row.len() - 1;
    assert_eq!(row[last], 1);
    row[last] = 2;
    assert!(matches!(decode_user(&row), Err(AuthError::Internal(_))));
    row[last] = 0;
    assert_eq!(decode_user(&row).expect("admin").role, Role::Admin);
}

#[test]
fn rows_that_claim_a_huge_text_are_refused() {
    // A text length of 2^64 - 1, where the token of a session is expected.
    let session_row = [0xfd, 0xff, 0xff, 0xff, 0xff, 0xff, 0xff, 0xff, 0xff];
    assert!(matches!(decode_session(&session_row), Err(AuthError::Internal(_))));
    // The same after the identifier of a user.
    let user_row = [0x00, 0xfd, 0xff, 0xff, 0xff, 0xff, 0xff, 0xff, 0xff, 0xff];
    assert!(matches!(decode_user(&user_row), Err(AuthError::Internal(_))));
    // The same after the two identifiers of a project.
    let project_row = [0x00, 0x00, 0xfd, 0xff, 0xff, 0xff, 0xff, 0xff, 0xff, 0xff, 0xff];
    assert!(decode_project(&project_row).is_err());
    // A length just beyond the limit, as a 32-bit number.
    let beyond = (DECODE_LIMIT as u32 + 1).to_le_bytes();
    let row = [0xfc, beyond[0], beyond[1], beyond[2], beyond[3]];
    assert!(matches!(decode_session(&row), Err(AuthError::Internal(_))));
    // A length of a few terabytes.
    let row = [0xfd, 0, 0, 0, 0, 0, 4, 0, 0];
    assert!(matches!(decode_session(&row), Err(AuthError::Internal(_))));
}

#[test]
fn records_are_stored_up_to_the_text_limit() {
    assert_eq!(MAX_RECORD_TEXT, 1_048_576);
    assert_eq!(DECODE_LIMIT, MAX_RECORD_TEXT + 128);
    let mut session = sample_session(IpAddress::V6(u128::MAX));
    session.id = SessionId("t".repeat(MAX_RECORD_TEXT));
    let row = encode_session(&session).expect("a token of the greatest length fits");
    assert_eq!(decode_session(&row).expect("and is read back"), session);
    session.id = SessionId("t".repeat(MAX_RECORD_TEXT + 1));
    assert!(matches!(encode_session(&session), Err(AuthError::Internal(_))));

    let mut user = sample_user(Role::User);
    let hash_len = user.password_hash.as_str().len();
    user.username = Username("n".repeat(MAX_RECORD_TEXT - hash_len));
    let row = encode_user(&user).expect("name and hash of the greatest length fit");
    assert_eq!(decode_user(&row).expect("and are read back"), user);
    user.username = Username("n".repeat(MAX_RECORD_TEXT - hash_len + 1));
    assert!(matches!(encode_user(&user), Err(AuthError::Internal(_))));

    let mut project = Project {
        id: ProjectId(u128::MAX),
        owner_id: UserId(u128::MAX),
        name: "n".repeat(MAX_RECORD_TEXT / 2),
        description: Some("d".repeat(MAX_RECORD_TEXT / 2)),
        created_at: Timestamp(i128::MIN),
        updated_at: Timestamp(i128::MAX),
    };
    let row = encode_project(&project).expect("name and description fit");
    assert_eq!(decode_project(&row).expect("and are read back"), project);
    project.name.push('x');
    assert!(encode_project(&project).is_err());
    project.description = None;
    assert!(encode_project(&project).is_ok());
}

#[test]
fn text_is_measured_in_bytes() {
    let mut session = sample_session(IpAddress::V4(1));
    // Two bytes a character.
    session.id = SessionId("\u{e9}".repeat(MAX_RECORD_TEXT / 2));
    assert!(encode_session(&session).is_ok());
    session.id = SessionId("\u{e9}".repeat(MAX_RECORD_TEXT / 2 + 1));
    assert!(encode_session(&session).is_err());
}
