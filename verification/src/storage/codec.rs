//! How user, session and project records are laid out as table rows.

use vstd::prelude::*;
use vstd::string::StringExecFns;
use vstd::string::StringSliceAdditionalSpecFns;
use vstd::utf8::encode_utf8;
use crate::clock::Timestamp;
use crate::credentials::{is_phc_string, PasswordHash};
use crate::error::{AuthError, ProjectError};
use crate::project::{text_of, Project, ProjectId, ProjectView};
use crate::types::{
    IpAddress, Role, Session, SessionId, SessionIp, SessionView, User, UserId, UserView, Username,
};

verus! {

/// Failure to encode a record.
#[verifier::external_type_specification]
#[verifier::external_body]
pub struct ExEncodeError(bincode::error::EncodeError);

/// Failure to decode a row.
#[verifier::external_type_specification]
#[verifier::external_body]
pub struct ExDecodeError(bincode::error::DecodeError);

/// How many bytes of text one record may hold, all its texts together. A
/// record with more is not stored.
pub const MAX_RECORD_TEXT: usize = 1_048_576;

/// How many bytes the decoding of one row may claim: the text of a record
/// and, beside it, less than 128 bytes for its numbers and lengths.
pub const DECODE_LIMIT: usize = 1_048_704;

/// How many bytes a text takes in a row.
pub open spec fn text_bytes(text: Seq<char>) -> nat {
    encode_utf8(text).len()
}

/// How many bytes an optional text takes in a row.
pub open spec fn optional_text_bytes(text: Option<Seq<char>>) -> nat {
    match text {
        Some(text) => text_bytes(text),
        None => 0,
    }
}

/// The standard bincode encoding of the four fields of a user record.
pub uninterp spec fn user_record_bytes(
    id: u128,
    username: Seq<char>,
    password_hash: Seq<char>,
    role: u8,
) -> Seq<u8>;

/// The four fields that the standard bincode decoding reads from `bytes`,
/// if it reads any while claiming no more than [`DECODE_LIMIT`] bytes.
pub uninterp spec fn user_record_fields(bytes: Seq<u8>) -> Option<
    (u128, Seq<char>, Seq<char>, u8),
>;

/// The standard bincode encoding of the six fields of a session record.
pub uninterp spec fn session_record_bytes(
    token: Seq<char>,
    user_id: u128,
    ip_version: u8,
    ip_bits: u128,
    created_at: i128,
    expires_at: i128,
) -> Seq<u8>;

/// The six fields that the standard bincode decoding reads from `bytes`, if
/// it reads any while claiming no more than [`DECODE_LIMIT`] bytes.
pub uninterp spec fn session_record_fields(bytes: Seq<u8>) -> Option<
    (Seq<char>, u128, u8, u128, i128, i128),
>;

/// The standard bincode encoding of the six fields of a project record.
pub uninterp spec fn project_record_bytes(
    id: u128,
    owner_id: u128,
    name: Seq<char>,
    description: Option<Seq<char>>,
    created_at: i128,
    updated_at: i128,
) -> Seq<u8>;

/// The six fields that the standard bincode decoding reads from `bytes`, if
/// it reads any while claiming no more than [`DECODE_LIMIT`] bytes.
pub uninterp spec fn project_record_fields(bytes: Seq<u8>) -> Option<
    (u128, u128, Seq<char>, Option<Seq<char>>, i128, i128),
>;

/// The number that stands for a role in a row.
pub open spec fn role_code(role: Role) -> u8 {
    match role {
        Role::Admin => 0,
        Role::User => 1,
    }
}

/// The number that stands for the version of an address in a row.
pub open spec fn ip_version(ip: SessionIp) -> u8 {
    match ip.0 {
        IpAddress::V4(_) => 4,
        IpAddress::V6(_) => 6,
    }
}

/// The bits of an address, widened to 128.
pub open spec fn ip_bits(ip: SessionIp) -> u128 {
    match ip.0 {
        IpAddress::V4(bits) => bits as u128,
        IpAddress::V6(bits) => bits,
    }
}

/// The row of a user.
pub open spec fn user_row(user: UserView) -> Seq<u8> {
    user_record_bytes(user.id, user.username, user.password_hash, role_code(user.role))
}

/// The user that a row holds: its four fields, provided the role code is
/// known and the hash parses as a PHC string.
pub open spec fn user_of_row(bytes: Seq<u8>) -> Option<UserView> {
    match user_record_fields(bytes) {
        Some((id, username, password_hash, code)) => if code <= 1 && is_phc_string(
            password_hash,
        ) {
            Some(
                UserView {
                    id,
                    username,
                    password_hash,
                    role: if code == 0 {
                        Role::Admin
                    } else {
                        Role::User
                    },
                },
            )
        } else {
            None
        },
        None => None,
    }
}

/// The row of a session.
pub open spec fn session_row(session: SessionView) -> Seq<u8> {
    session_record_bytes(
        session.id,
        session.user_id,
        ip_version(session.ip),
        ip_bits(session.ip),
        session.created_at.0,
        session.expires_at.0,
    )
}

/// The session that a row holds: its six fields, provided the address has a
/// known version and fits it.
pub open spec fn session_of_row(bytes: Seq<u8>) -> Option<SessionView> {
    match session_record_fields(bytes) {
        Some((id, user_id, version, bits, created_at, expires_at)) => if version == 4 && bits
            <= u32::MAX {
            Some(
                SessionView {
                    id,
                    user_id,
                    ip: SessionIp(IpAddress::V4(bits as u32)),
                    created_at: Timestamp(created_at),
                    expires_at: Timestamp(expires_at),
                },
            )
        } else if version == 6 {
            Some(
                SessionView {
                    id,
                    user_id,
                    ip: SessionIp(IpAddress::V6(bits)),
                    created_at: Timestamp(created_at),
                    expires_at: Timestamp(expires_at),
                },
            )
        } else {
            None
        },
        None => None,
    }
}

/// Whether a user's name and hash are short enough for a row.
pub open spec fn user_fits(user: UserView) -> bool {
    text_bytes(user.username) + text_bytes(user.password_hash) <= MAX_RECORD_TEXT
}

/// Whether a session's token is short enough for a row.
pub open spec fn session_fits(session: SessionView) -> bool {
    text_bytes(session.id) <= MAX_RECORD_TEXT
}

/// Whether a project's name and description are short enough for a row.
pub open spec fn project_fits(project: ProjectView) -> bool {
    text_bytes(project.name) + optional_text_bytes(project.description) <= MAX_RECORD_TEXT
}

/// Whether two texts of the given lengths fit into one record together.
fn texts_fit(first: usize, second: usize) -> (fits: bool)
    ensures
        fits == (first + second <= MAX_RECORD_TEXT),
{
    first <= MAX_RECORD_TEXT && second <= MAX_RECORD_TEXT - first
}

/// The error for a record whose text is too long for a row.
fn too_long() -> (text: String) {
    "Serialization error: record text is too long".to_owned()
}

/// Lays a user out as a row. Succeeds exactly for the users whose name and
/// hash fit into a row; the row decodes to the user it was made from.
pub fn encode_user(user: &User) -> (r: Result<Vec<u8>, AuthError>)
    ensures
        r is Ok <==> user_fits(user@),
        match r {
            Ok(bytes) => bytes@ == user_row(user@) && user_of_row(bytes@) == Some(user@),
            Err(e) => e is Internal,
        },
{
    let code: u8 = match user.role {
        Role::Admin => 0,
        Role::User => 1,
    };
    if !texts_fit(
        user.username.as_str().as_bytes().len(),
        user.password_hash.as_str().as_bytes().len(),
    ) {
        return Err(AuthError::Internal(too_long()));
    }
    match encode_user_record(user.id.0, user.username.as_str(), user.password_hash.as_str(), code) {
        Ok(bytes) => Ok(bytes),
        Err(e) => Err(
            AuthError::Internal(
                "Serialization error: ".to_owned().concat(encode_error_text(&e).as_str()),
            ),
        ),
    }
}

/// Reads a user from a row. Fails exactly on the rows that hold no user.
pub fn decode_user(bytes: &[u8]) -> (r: Result<User, AuthError>)
    ensures
        match r {
            Ok(user) => user_of_row(bytes@) == Some(user@),
            Err(e) => e is Internal && user_of_row(bytes@) is None,
        },
{
    match decode_user_record(bytes) {
        Ok(fields) => {
            let (id, username, hash_text, code) = fields;
            let role = if code == 0 {
                Role::Admin
            } else if code == 1 {
                Role::User
            } else {
                return Err(AuthError::Internal("Deserialization error: unknown role".to_owned()));
            };
            match PasswordHash::parse(hash_text.as_str()) {
                Ok(password_hash) => Ok(
                    User { id: UserId(id), username: Username(username), password_hash, role },
                ),
                Err(e) => Err(e),
            }
        },
        Err(e) => Err(
            AuthError::Internal(
                "Deserialization error: ".to_owned().concat(decode_error_text(&e).as_str()),
            ),
        ),
    }
}

/// Lays a session out as a row. Succeeds exactly for the sessions whose
/// token fits into a row; the row decodes to the session it was made from.
pub fn encode_session(session: &Session) -> (r: Result<Vec<u8>, AuthError>)
    ensures
        r is Ok <==> session_fits(session@),
        match r {
            Ok(bytes) => bytes@ == session_row(session@) && session_of_row(bytes@) == Some(
                session@,
            ),
            Err(e) => e is Internal,
        },
{
    let (version, bits): (u8, u128) = match session.ip.0 {
        IpAddress::V4(bits) => (4, bits as u128),
        IpAddress::V6(bits) => (6, bits),
    };
    if !texts_fit(session.id.as_str().as_bytes().len(), 0) {
        return Err(AuthError::Internal(too_long()));
    }
    match encode_session_record(
        session.id.as_str(),
        session.user_id.0,
        version,
        bits,
        session.created_at.0,
        session.expires_at.0,
    ) {
        Ok(bytes) => Ok(bytes),
        Err(e) => Err(
            AuthError::Internal("Serialization error: ".to_owned().concat(encode_error_text(&e).as_str())),
        ),
    }
}

/// Reads a session from a row. Fails exactly on the rows that hold no
/// session.
pub fn decode_session(bytes: &[u8]) -> (r: Result<Session, AuthError>)
    ensures
        match r {
            Ok(session) => session_of_row(bytes@) == Some(session@),
            Err(e) => e is Internal && session_of_row(bytes@) is None,
        },
{
    match decode_session_record(bytes) {
        Ok(fields) => {
            let (token, user_id, version, bits, created_at, expires_at) = fields;
            let address = if version == 4 && bits <= 0xffff_ffff {
                IpAddress::V4(bits as u32)
            } else if version == 6 {
                IpAddress::V6(bits)
            } else {
                return Err(
                    AuthError::Internal("Deserialization error: unknown address".to_owned()),
                );
            };
            Ok(
                Session {
                    id: SessionId(token),
                    user_id: UserId(user_id),
                    ip: SessionIp(address),
                    created_at: Timestamp(created_at),
                    expires_at: Timestamp(expires_at),
                },
            )
        },
        Err(e) => Err(
            AuthError::Internal(
                "Deserialization error: ".to_owned().concat(decode_error_text(&e).as_str()),
            ),
        ),
    }
}

/// The row of a project.
pub open spec fn project_row(project: ProjectView) -> Seq<u8> {
    project_record_bytes(
        project.id,
        project.owner_id,
        project.name,
        project.description,
        project.created_at.0,
        project.updated_at.0,
    )
}

/// The project that a row holds: its six fields.
pub open spec fn project_of_row(bytes: Seq<u8>) -> Option<ProjectView> {
    match project_record_fields(bytes) {
        Some((id, owner_id, name, description, created_at, updated_at)) => Some(
            ProjectView {
                id,
                owner_id,
                name,
                description,
                created_at: Timestamp(created_at),
                updated_at: Timestamp(updated_at),
            },
        ),
        None => None,
    }
}

/// Lays a project out as a row. Succeeds exactly for the projects whose
/// name and description fit into a row; the row decodes to the project it
/// was made from.
pub fn encode_project(project: &Project) -> (r: Result<Vec<u8>, ProjectError>)
    ensures
        r is Ok <==> project_fits(project@),
        match r {
            Ok(bytes) => bytes@ == project_row(project@) && project_of_row(bytes@) == Some(
                project@,
            ),
            Err(e) => e is Internal,
        },
{
    let described: usize = match &project.description {
        Some(description) => description.as_str().as_bytes().len(),
        None => 0,
    };
    if !texts_fit(project.name.as_str().as_bytes().len(), described) {
        return Err(ProjectError::Internal(too_long()));
    }
    match encode_project_record(
        project.id.0,
        project.owner_id.0,
        project.name.as_str(),
        &project.description,
        project.created_at.0,
        project.updated_at.0,
    ) {
        Ok(bytes) => Ok(bytes),
        Err(e) => Err(
            ProjectError::Internal(
                "Serialization error: ".to_owned().concat(encode_error_text(&e).as_str()),
            ),
        ),
    }
}

/// Reads a project from a row. Fails exactly on the rows that hold no
/// project.
pub fn decode_project(bytes: &[u8]) -> (r: Result<Project, ProjectError>)
    ensures
        match r {
            Ok(project) => project_of_row(bytes@) == Some(project@),
            Err(e) => e is Internal && project_of_row(bytes@) is None,
        },
{
    match decode_project_record(bytes) {
        Ok(fields) => {
            let (id, owner_id, name, description, created_at, updated_at) = fields;
            Ok(
                Project {
                    id: ProjectId(id),
                    owner_id: UserId(owner_id),
                    name,
                    description,
                    created_at: Timestamp(created_at),
                    updated_at: Timestamp(updated_at),
                },
            )
        },
        Err(e) => Err(
            ProjectError::Internal(
                "Deserialization error: ".to_owned().concat(decode_error_text(&e).as_str()),
            ),
        ),
    }
}

/// `bincode::encode_to_vec` with the standard configuration on the tuple of
/// the six fields of a project. Writing numbers and texts into a vector
/// cannot fail. Decoding inverts encoding, within its limit: it claims 16
/// bytes for each of the four wide numbers, 8 for the length of each text, 1
/// for the mark of the description, and the bytes of the texts.
#[verifier::external_body]
fn encode_project_record(
    id: u128,
    owner_id: u128,
    name: &str,
    description: &Option<String>,
    created_at: i128,
    updated_at: i128,
) -> (r: Result<Vec<u8>, bincode::error::EncodeError>)
    ensures
        r is Ok,
        r matches Ok(bytes) ==> bytes@ == project_record_bytes(
            id,
            owner_id,
            name@,
            text_of(*description),
            created_at,
            updated_at,
        ),
        r matches Ok(bytes) ==> (text_bytes(name@) + optional_text_bytes(text_of(*description))
            <= MAX_RECORD_TEXT ==> project_record_fields(bytes@) == Some(
            (id, owner_id, name@, text_of(*description), created_at, updated_at),
        )),
{
    bincode::encode_to_vec(
        (id, owner_id, name, description.as_deref(), created_at, updated_at),
        bincode::config::standard(),
    )
}

/// `bincode::decode_from_slice` with the standard configuration and the byte
/// limit [`DECODE_LIMIT`], read as a tuple of the six fields of a project.
/// A length that the row claims beyond the limit is refused before anything
/// is allocated for it.
#[verifier::external_body]
fn decode_project_record(bytes: &[u8]) -> (r: Result<
    (u128, u128, String, Option<String>, i128, i128),
    bincode::error::DecodeError,
>)
    ensures
        match r {
            Ok(fields) => project_record_fields(bytes@) == Some(
                (fields.0, fields.1, fields.2@, text_of(fields.3), fields.4, fields.5),
            ),
            Err(_) => project_record_fields(bytes@) is None,
        },
{
    let config = bincode::config::standard().with_limit::<DECODE_LIMIT>();
    match bincode::decode_from_slice(bytes, config) {
        Ok((fields, _)) => Ok(fields),
        Err(e) => Err(e),
    }
}

/// `bincode::encode_to_vec` with the standard configuration on the tuple of
/// the four fields. Writing numbers and texts into a vector cannot fail.
/// Decoding inverts encoding, within its limit: it claims 16 bytes for the
/// identifier, 1 for the role, 8 for the length of each text, and the bytes
/// of the texts.
#[verifier::external_body]
fn encode_user_record(id: u128, username: &str, password_hash: &str, role: u8) -> (r: Result<
    Vec<u8>,
    bincode::error::EncodeError,
>)
    ensures
        r is Ok,
        r matches Ok(bytes) ==> bytes@ == user_record_bytes(id, username@, password_hash@, role),
        r matches Ok(bytes) ==> (text_bytes(username@) + text_bytes(password_hash@)
            <= MAX_RECORD_TEXT ==> user_record_fields(bytes@) == Some(
            (id, username@, password_hash@, role),
        )),
{
    bincode::encode_to_vec((id, username, password_hash, role), bincode::config::standard())
}

/// `bincode::decode_from_slice` with the standard configuration and the byte
/// limit [`DECODE_LIMIT`], read as a tuple of four fields. A length that the
/// row claims beyond the limit is refused before anything is allocated for
/// it.
#[verifier::external_body]
fn decode_user_record(bytes: &[u8]) -> (r: Result<
    (u128, String, String, u8),
    bincode::error::DecodeError,
>)
    ensures
        match r {
            Ok(fields) => user_record_fields(bytes@) == Some(
                (fields.0, fields.1@, fields.2@, fields.3),
            ),
            Err(_) => user_record_fields(bytes@) is None,
        },
{
    let config = bincode::config::standard().with_limit::<DECODE_LIMIT>();
    match bincode::decode_from_slice(bytes, config) {
        Ok((fields, _)) => Ok(fields),
        Err(e) => Err(e),
    }
}

/// `bincode::encode_to_vec` with the standard configuration on the tuple of
/// the six fields. Writing numbers and texts into a vector cannot fail.
/// Decoding inverts encoding, within its limit: it claims 16 bytes for each
/// of the four wide numbers, 1 for the version of the address, 8 for the
/// length of the token, and the bytes of the token.
#[verifier::external_body]
fn encode_session_record(
    token: &str,
    user_id: u128,
    ip_version: u8,
    ip_bits: u128,
    created_at: i128,
    expires_at: i128,
) -> (r: Result<Vec<u8>, bincode::error::EncodeError>)
    ensures
        r is Ok,
        r matches Ok(bytes) ==> bytes@ == session_record_bytes(
            token@,
            user_id,
            ip_version,
            ip_bits,
            created_at,
            expires_at,
        ),
        r matches Ok(bytes) ==> (text_bytes(token@) <= MAX_RECORD_TEXT
            ==> session_record_fields(bytes@) == Some(
            (token@, user_id, ip_version, ip_bits, created_at, expires_at),
        )),
{
    bincode::encode_to_vec(
        (token, user_id, ip_version, ip_bits, created_at, expires_at),
        bincode::config::standard(),
    )
}

/// `bincode::decode_from_slice` with the standard configuration and the byte
/// limit [`DECODE_LIMIT`], read as a tuple of six fields. A length that the
/// row claims beyond the limit is refused before anything is allocated for
/// it.
#[verifier::external_body]
fn decode_session_record(bytes: &[u8]) -> (r: Result<
    (String, u128, u8, u128, i128, i128),
    bincode::error::DecodeError,
>)
    ensures
        match r {
            Ok(fields) => session_record_fields(bytes@) == Some(
                (fields.0@, fields.1, fields.2, fields.3, fields.4, fields.5),
            ),
            Err(_) => session_record_fields(bytes@) is None,
        },
{
    let config = bincode::config::standard().with_limit::<DECODE_LIMIT>();
    match bincode::decode_from_slice(bytes, config) {
        Ok((fields, _)) => Ok(fields),
        Err(e) => Err(e),
    }
}

/// The message of an encoding failure, as its `Display` impl writes it.
#[verifier::external_body]
fn encode_error_text(e: &bincode::error::EncodeError) -> (text: String)
{
    e.to_string()
}

/// The message of a decoding failure, as its `Display` impl writes it.
#[verifier::external_body]
fn decode_error_text(e: &bincode::error::DecodeError) -> (text: String)
{
    e.to_string()
}

} // verus!
