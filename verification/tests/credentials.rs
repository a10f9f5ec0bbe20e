use bento::credentials::PasswordHash;
use bento::error::AuthError;

#[test]
fn hash_accepts_its_password_and_no_other() {
    let hash = PasswordHash::from_password("correct horse").expect("hashing should succeed");
    assert!(hash.verify("correct horse"));
    assert!(!hash.verify("correct horsf"));
    assert!(!hash.verify(""));
    assert!(hash.verify_bytes(b"correct horse"));
    assert!(!hash.verify_bytes(b"correct"));
}

#[test]
fn hash_of_bytes_accepts_the_same_bytes() {
    let hash = PasswordHash::from_password_bytes(&[0u8, 159, 146, 150]).expect("hashing");
    assert!(hash.verify_bytes(&[0u8, 159, 146, 150]));
    assert!(!hash.verify_bytes(&[0u8, 159, 146]));
}

#[test]
fn two_hashes_of_one_password_differ() {
    let first = PasswordHash::from_password("same").expect("hashing should succeed");
    let second = PasswordHash::from_password("same").expect("hashing should succeed");
    assert_ne!(first.as_str(), second.as_str());
    assert!(first.verify("same"));
    assert!(second.verify("same"));
}

#[test]
fn hash_is_an_argon2_phc_string() {
    let hash = PasswordHash::from_password("pw").expect("hashing should succeed");
    assert!(hash.as_str().starts_with("$argon2id$v=19$"));
    assert!(!hash.as_str().contains("pw$"));
    let parsed = PasswordHash::parse(hash.as_str()).expect("a hash parses");
    assert_eq!(parsed, hash);
    assert!(parsed.verify("pw"));
    assert_eq!(parsed.clone(), hash);
}

#[test]
fn text_that_is_no_phc_string_is_refused() {
    assert!(matches!(
        PasswordHash::parse("not a hash"),
        Err(AuthError::Internal(_))
    ));
    assert!(matches!(PasswordHash::parse(""), Err(AuthError::Internal(_))));
}

#[test]
fn hash_of_another_algorithm_accepts_nothing() {
    // A well-formed PHC string whose algorithm Argon2 does not know.
    let foreign = PasswordHash::parse("$pbkdf2-sha256$i=1000$c2FsdHNhbHQ$aGFzaGhhc2hoYXNo")
        .expect("the text is a PHC string");
    assert!(!foreign.verify("anything"));
    assert!(!foreign.verify(""));
}

#[test]
fn hash_is_decided_by_password_and_salt() {
    let salt = [7u8; 16];
    let first = PasswordHash::from_password_bytes_with_salt(b"secret", &salt).expect("hashing");
    let second = PasswordHash::from_password_bytes_with_salt(b"secret", &salt).expect("hashing");
    assert_eq!(first, second);
    assert!(first.verify("secret"));
    assert!(!first.verify("Secret"));
    // The salt stands in the text, in B64 without padding.
    assert!(first.as_str().contains("$BwcHBwcHBwcHBwcHBwcHBw$"));
    let other_salt = PasswordHash::from_password_bytes_with_salt(b"secret", &[8u8; 16])
        .expect("hashing");
    assert_ne!(first, other_salt);
    assert!(other_salt.verify("secret"));
    let other_password = PasswordHash::from_password_bytes_with_salt(b"secreT", &salt)
        .expect("hashing");
    assert_ne!(first, other_password);
}

#[test]
fn fresh_hashes_carry_a_salt_of_sixteen_bytes() {
    assert_eq!(bento::credentials::SALT_BYTES, 16);
    let hash = PasswordHash::from_password("pw").expect("hashing should succeed");
    let parts: Vec<&str> = hash.as_str().split('$').collect();
    // "", algorithm, version, parameters, salt, digest
    assert_eq!(parts.len(), 6);
    assert_eq!(parts[4].len(), 22);
}
