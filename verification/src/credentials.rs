//! Password credentials: salted Argon2 hashes in PHC string form.

use vstd::prelude::*;
use vstd::string::StringSliceAdditionalSpecFns;
use crate::error::AuthError;
use crate::identifiers::os_random_bytes;

verus! {

/// An encoded password hash: algorithm, parameters, salt and digest in one
/// PHC string. The plaintext password is never kept.
#[derive(Debug, PartialEq, Eq)]
pub struct PasswordHash(String);

impl View for PasswordHash {
    type V = Seq<char>;

    open spec fn view(&self) -> Seq<char> {
        self.as_text()
    }
}

impl Clone for PasswordHash {
    fn clone(&self) -> (r: Self)
        ensures
            r@ == self@,
    {
        proof {
            use_type_invariant(self);
        }
        PasswordHash(self.0.clone())
    }
}

/// Whether Argon2 with default settings accepts `password` for the encoded
/// hash `hash`: the text parses as a PHC string and hashing the password
/// with the salt and parameters found in it gives the digest found in it.
pub uninterp spec fn argon2_accepts(hash: Seq<char>, password: Seq<u8>) -> bool;

/// Number of random bytes in the salt of a hash.
pub const SALT_BYTES: usize = 16;

/// The PHC text of the hash that Argon2 with default settings makes of
/// `password` under the salt bytes `salt`, where it makes one.
pub uninterp spec fn argon2_hash_text(password: Seq<u8>, salt: Seq<u8>) -> Option<Seq<char>>;

/// Whether `text` parses as a PHC string.
pub uninterp spec fn is_phc_string(text: Seq<char>) -> bool;

/// Failure reported by the hashing library.
#[verifier::external_type_specification]
#[verifier::external_body]
pub struct ExPasswordHashError(argon2::password_hash::Error);

impl PasswordHash {
    /// Every hash holds a text that parses as a PHC string.
    #[verifier::type_invariant]
    spec fn holds_phc_string(&self) -> bool {
        is_phc_string(self.0@)
    }

    /// The encoded text of the hash.
    pub closed spec fn as_text(&self) -> Seq<char> {
        self.0@
    }

    /// Hashes `password` under the salt `salt`. Succeeds exactly where
    /// Argon2 makes a hash of the two and its text parses as a PHC string;
    /// the hash is then that text, and it accepts `password`.
    pub fn from_password_bytes_with_salt(password: &[u8], salt: &[u8; 16]) -> (r: Result<
        PasswordHash,
        AuthError,
    >)
        ensures
            r is Ok <==> (argon2_hash_text(password@, salt@) matches Some(text) && is_phc_string(
                text,
            )),
            match r {
                Ok(hash) => argon2_hash_text(password@, salt@) == Some(hash@) && is_phc_string(
                    hash@,
                ) && argon2_accepts(hash@, password@),
                Err(e) => e is Internal,
            },
    {
        match argon2_hash(password, salt) {
            Ok(text) => match phc_check(text.as_str()) {
                Ok(()) => Ok(PasswordHash(text)),
                Err(e) => Err(AuthError::Internal(hash_error_text(&e))),
            },
            Err(e) => Err(AuthError::Internal(hash_error_text(&e))),
        }
    }

    /// Hashes `password` under a fresh random salt. Every hash that comes
    /// back is the one that Argon2 makes of the password under some salt of
    /// [`SALT_BYTES`] bytes: a PHC string that accepts `password`. Two calls
    /// on one password give different hashes, as each draws its own salt.
    /// Fails where the random source does, or where hashing does.
    pub fn from_password_bytes(password: &[u8]) -> (r: Result<PasswordHash, AuthError>)
        ensures
            match r {
                Ok(hash) => {
                    &&& is_phc_string(hash@)
                    &&& argon2_accepts(hash@, password@)
                    &&& exists|salt: Seq<u8>|
                        salt.len() == SALT_BYTES && #[trigger] argon2_hash_text(password@, salt)
                            == Some(hash@)
                },
                Err(e) => e is Internal,
            },
    {
        match os_random_bytes::<16>() {
            Some(salt) => Self::from_password_bytes_with_salt(password, &salt),
            None => Err(
                AuthError::Internal(
                    "Failed to generate secure numbers from the operating system.".to_owned(),
                ),
            ),
        }
    }

    /// Hashes the bytes of `password` under a fresh random salt.
    pub fn from_password(password: &str) -> (r: Result<PasswordHash, AuthError>)
        ensures
            match r {
                Ok(hash) => {
                    &&& is_phc_string(hash@)
                    &&& argon2_accepts(hash@, password.spec_bytes())
                    &&& exists|salt: Seq<u8>|
                        salt.len() == SALT_BYTES && #[trigger] argon2_hash_text(
                            password.spec_bytes(),
                            salt,
                        ) == Some(hash@)
                },
                Err(e) => e is Internal,
            },
    {
        Self::from_password_bytes(password.as_bytes())
    }

    /// Takes over an encoded hash, provided it parses as a PHC string.
    pub fn parse(text: &str) -> (r: Result<PasswordHash, AuthError>)
        ensures
            match r {
                Ok(hash) => is_phc_string(text@) && hash@ == text@,
                Err(e) => !is_phc_string(text@) && e is Internal,
            },
    {
        match phc_check(text) {
            Ok(()) => Ok(PasswordHash(text.to_owned())),
            Err(e) => Err(AuthError::Internal(hash_error_text(&e))),
        }
    }

    /// Checks `password` against this hash. A hash that does not parse
    /// accepts no password; verification never fails in any other way.
    pub fn verify_bytes(&self, password: &[u8]) -> (ok: bool)
        ensures
            ok == argon2_accepts(self@, password@),
    {
        argon2_verify(self.0.as_str(), password)
    }

    /// Checks the bytes of `password` against this hash.
    pub fn verify(&self, password: &str) -> (ok: bool)
        ensures
            ok == argon2_accepts(self@, password.spec_bytes()),
    {
        self.verify_bytes(password.as_bytes())
    }

    /// The encoded hash as a string slice. It parses as a PHC string.
    pub fn as_str(&self) -> (s: &str)
        ensures
            s@ == self@,
            is_phc_string(s@),
    {
        proof {
            use_type_invariant(self);
        }
        self.0.as_str()
    }
}

/// Encodes the salt bytes with `SaltString::encode_b64` and hashes
/// `password` with `Argon2::default().hash_password`, returning the PHC text
/// of the hash. The text is a function of the password and the salt alone.
/// `verify_password` recomputes the digest from the password and from the
/// salt and parameters in that text and compares, so the text accepts the
/// password it was made from.
#[verifier::external_body]
fn argon2_hash(password: &[u8], salt: &[u8; 16]) -> (r: Result<
    String,
    argon2::password_hash::Error,
>)
    ensures
        match r {
            Ok(text) => argon2_hash_text(password@, salt@) == Some(text@) && argon2_accepts(
                text@,
                password@,
            ),
            Err(_) => argon2_hash_text(password@, salt@) is None,
        },
{
    let salt = argon2::password_hash::SaltString::encode_b64(salt)?;
    let hash = argon2::PasswordHasher::hash_password(&argon2::Argon2::default(), password, &salt)?;
    Ok(hash.to_string())
}

/// Parses `hash` with `PasswordHash::new` and runs
/// `Argon2::default().verify_password` on it. A text that does not parse
/// and a digest that does not match both count as not accepted.
#[verifier::external_body]
fn argon2_verify(hash: &str, password: &[u8]) -> (ok: bool)
    ensures
        ok == argon2_accepts(hash@, password@),
{
    match argon2::password_hash::PasswordHash::new(hash) {
        Ok(parsed) => argon2::PasswordVerifier::verify_password(
            &argon2::Argon2::default(),
            password,
            &parsed,
        ).is_ok(),
        Err(_) => false,
    }
}

/// Runs `PasswordHashString::new` on `text` and keeps only whether it
/// parsed.
#[verifier::external_body]
fn phc_check(text: &str) -> (r: Result<(), argon2::password_hash::Error>)
    ensures
        r.is_ok() == is_phc_string(text@),
{
    match argon2::password_hash::PasswordHashString::new(text) {
        Ok(_) => Ok(()),
        Err(e) => Err(e),
    }
}

/// The message of a hashing failure, as its `Display` impl writes it.
#[verifier::external_body]
fn hash_error_text(e: &argon2::password_hash::Error) -> (text: String)
{
    e.to_string()
}

} // verus!
