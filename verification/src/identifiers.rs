//! Fresh identifiers: time-ordered user ids and random session tokens.

use vstd::prelude::*;
use crate::project::ProjectId;
use crate::types::{SessionId, UserId};

verus! {

/// Number of random bytes behind a session token.
pub const TOKEN_BYTES: usize = 32;

/// The URL-safe base64 text, with padding, of `bytes`.
pub uninterp spec fn base64_url_text(bytes: Seq<u8>) -> Seq<char>;

/// The 128 bits of the UUID that `text` is a spelling of, if it is one.
pub uninterp spec fn uuid_of_text(text: Seq<char>) -> Option<u128>;

/// Whether `bits` are laid out as a version 7 UUID: the version field holds
/// 7 and the variant field the two bits `10`. Above the version field such
/// an identifier carries the time of its making, in milliseconds, which is
/// what orders identifiers by creation.
pub open spec fn is_uuid_v7(bits: u128) -> bool {
    ((bits >> 76) & 0xf) == 7 && ((bits >> 62) & 0x3) == 2
}

/// Whether `text` is the encoding of some run of [`TOKEN_BYTES`] bytes.
pub open spec fn is_token_text(text: Seq<char>) -> bool {
    exists|bytes: Seq<u8>| bytes.len() == TOKEN_BYTES && text == #[trigger] base64_url_text(bytes)
}

impl UserId {
    /// Draws a fresh identifier from the clock and the random source: a
    /// version 7 UUID.
    pub fn new() -> (id: UserId)
        ensures
            is_uuid_v7(id.0),
    {
        UserId(uuid_v7_bits())
    }
}

impl ProjectId {
    /// Draws a fresh identifier from the clock and the random source: a
    /// version 7 UUID.
    pub fn new() -> (id: ProjectId)
        ensures
            is_uuid_v7(id.0),
    {
        ProjectId(uuid_v7_bits())
    }

    /// Reads an identifier from the text of a UUID.
    pub fn parse(text: &str) -> (r: Option<ProjectId>)
        ensures
            match r {
                Some(id) => uuid_of_text(text@) == Some(id.0),
                None => uuid_of_text(text@) is None,
            },
    {
        match parse_uuid(text) {
            Some(bits) => Some(ProjectId(bits)),
            None => None,
        }
    }
}

impl SessionId {
    /// The token that encodes `bytes`.
    pub fn from_bytes(bytes: &[u8; 32]) -> (id: SessionId)
        ensures
            id@ == base64_url_text(bytes@),
            is_token_text(id@),
    {
        SessionId(encode_base64_url(bytes))
    }

    /// Draws a fresh token from the operating system's random source, or
    /// `None` when that source fails.
    pub fn new() -> (r: Option<SessionId>)
        ensures
            r matches Some(id) ==> is_token_text(id@),
    {
        match os_random_bytes::<32>() {
            Some(bytes) => Some(SessionId::from_bytes(&bytes)),
            None => None,
        }
    }
}

/// `Uuid::now_v7` followed by `as_u128`: the bits of a version 7 UUID made
/// from the current time and random bits. The crate writes 7 into the
/// version field and `10` into the variant field of every such identifier;
/// nothing else is claimed of the value.
#[verifier::external_body]
fn uuid_v7_bits() -> (bits: u128)
    ensures
        is_uuid_v7(bits),
{
    uuid::Uuid::now_v7().as_u128()
}

/// `Uuid::parse_str` followed by `as_u128`: the bits of the UUID that the
/// text spells, in any of the forms that the uuid crate reads.
#[verifier::external_body]
fn parse_uuid(text: &str) -> (r: Option<u128>)
    ensures
        r == uuid_of_text(text@),
{
    match uuid::Uuid::parse_str(text) {
        Ok(id) => Some(id.as_u128()),
        Err(_) => None,
    }
}

/// Fills a buffer of `N` bytes with `OsRng.try_fill_bytes`. Nothing is
/// claimed of the bytes, nor of when the source fails.
#[verifier::external_body]
pub(crate) fn os_random_bytes<const N: usize>() -> (r: Option<[u8; N]>)
{
    let mut buf = [0u8; N];
    match rand::TryRngCore::try_fill_bytes(&mut rand::rngs::OsRng, &mut buf) {
        Ok(()) => Some(buf),
        Err(_) => None,
    }
}

/// `encode` of the `URL_SAFE` engine of the base64 crate: the text is a
/// function of the bytes alone.
#[verifier::external_body]
fn encode_base64_url(bytes: &[u8; 32]) -> (text: String)
    ensures
        text@ == base64_url_text(bytes@),
{
    base64::Engine::encode(&base64::engine::general_purpose::URL_SAFE, bytes)
}

} // verus!
