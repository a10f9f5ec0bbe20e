use bento::identifiers::TOKEN_BYTES;
use bento::project::ProjectId;
use bento::types::{SessionId, UserId};

#[test]
fn token_of_zero_bytes() {
    let id = SessionId::from_bytes(&[0u8; 32]);
    assert_eq!(id.as_str(), "AAAAAAAAAAAAAAAAAAAAAAAAAAAAAAAAAAAAAAAAAAA=");
    assert_eq!(id.as_str().len(), 44);
}

#[test]
fn token_uses_the_url_safe_alphabet() {
    let mut bytes = [0u8; 32];
    bytes[0] = 0xfb;
    bytes[1] = 0xff;
    bytes[2] = 0xfe;
    let id = SessionId::from_bytes(&bytes);
    assert_eq!(&id.as_str()[..4], "-__-");
    assert!(!id.as_str().contains('+'));
    assert!(!id.as_str().contains('/'));
}

#[test]
fn token_of_counting_bytes() {
    let mut bytes = [0u8; 32];
    for (i, b) in bytes.iter_mut().enumerate() {
        *b = i as u8;
    }
    let id = SessionId::from_bytes(&bytes);
    assert_eq!(id.as_str(), "AAECAwQFBgcICQoLDA0ODxAREhMUFRYXGBkaGxwdHh8=");
}

#[test]
fn fresh_tokens_are_long_and_differ() {
    assert_eq!(TOKEN_BYTES, 32);
    let a = SessionId::new().expect("the random source should work");
    let b = SessionId::new().expect("the random source should work");
    assert_eq!(a.as_str().len(), 44);
    assert_eq!(b.as_str().len(), 44);
    assert_ne!(a, b);
    assert_eq!(a.clone(), a);
}

#[test]
fn fresh_user_ids_are_ordered_by_creation() {
    let a = UserId::new();
    let b = UserId::new();
    let c = UserId::new();
    assert!(a.0 < b.0);
    assert!(b.0 < c.0);
    // Version 7, variant 10.
    assert_eq!((a.0 >> 76) & 0xf, 7);
    assert_eq!((a.0 >> 62) & 0x3, 2);
}

#[test]
fn fresh_project_ids_differ() {
    let a = ProjectId::new();
    let b = ProjectId::new();
    assert_ne!(a, b);
    assert!(a.0 < b.0);
    // Version 7, variant 10.
    assert_eq!((b.0 >> 76) & 0xf, 7);
    assert_eq!((b.0 >> 62) & 0x3, 2);
}
