//! Value types of the identity model: users, roles, session records and the
//! mathematical views that contracts are stated over.

use vstd::prelude::*;
use crate::clock::Timestamp;
use crate::credentials::PasswordHash;

verus! {

/// Identifier of a user: the 128 bits of a time-ordered UUID.
#[derive(Debug, Clone, Copy, PartialEq, Eq, Hash, Structural)]
pub struct UserId(pub u128);

/// Unique, human-readable name of a user. Two names are the same name when
/// they hold the same characters; case is significant.
#[derive(Debug, PartialEq, Eq, Hash)]
pub struct Username(pub String);

/// Bearer token that names a session.
#[derive(Debug, PartialEq, Eq, Hash)]
pub struct SessionId(pub String);

/// An IP address as its bits: 32 for version 4, 128 for version 6.
#[derive(Debug, Clone, Copy, PartialEq, Eq, Hash, Structural)]
pub enum IpAddress {
    V4(u32),
    V6(u128),
}

/// Address of the client that a session was issued to. It is recorded for
/// diagnostics and never used to validate a session.
#[derive(Debug, Clone, Copy, PartialEq, Eq, Hash, Structural)]
pub struct SessionIp(pub IpAddress);

/// Permission level of a user. Admins may create other users; users manage
/// their own data only.
#[derive(Debug, Clone, Copy, PartialEq, Eq, Hash, Structural)]
pub enum Role {
    Admin,
    User,
}

/// A registered user.
#[derive(Debug, PartialEq, Eq)]
pub struct User {
    pub id: UserId,
    pub username: Username,
    pub password_hash: PasswordHash,
    pub role: Role,
}

/// A time-bounded session of one user.
#[derive(Debug, PartialEq, Eq)]
pub struct Session {
    pub id: SessionId,
    pub user_id: UserId,
    pub ip: SessionIp,
    pub created_at: Timestamp,
    pub expires_at: Timestamp,
}

/// What a [`User`] holds, as mathematical values.
pub struct UserView {
    pub id: u128,
    pub username: Seq<char>,
    pub password_hash: Seq<char>,
    pub role: Role,
}

/// What a [`Session`] holds, as mathematical values.
pub struct SessionView {
    pub id: Seq<char>,
    pub user_id: u128,
    pub ip: SessionIp,
    pub created_at: Timestamp,
    pub expires_at: Timestamp,
}

impl SessionView {
    /// A session is live at `now` when its expiry lies strictly after `now`.
    pub open spec fn live_at(self, now: Timestamp) -> bool {
        self.expires_at.is_after(now)
    }

    /// The same session with another expiry.
    pub open spec fn with_expiry(self, expires_at: Timestamp) -> SessionView {
        SessionView { expires_at, ..self }
    }
}

impl UserView {
    /// The same user with another password hash.
    pub open spec fn with_password_hash(self, password_hash: Seq<char>) -> UserView {
        UserView { password_hash, ..self }
    }
}

impl View for Username {
    type V = Seq<char>;

    open spec fn view(&self) -> Seq<char> {
        self.0@
    }
}

impl View for SessionId {
    type V = Seq<char>;

    open spec fn view(&self) -> Seq<char> {
        self.0@
    }
}

impl View for User {
    type V = UserView;

    open spec fn view(&self) -> UserView {
        UserView {
            id: self.id.0,
            username: self.username@,
            password_hash: self.password_hash@,
            role: self.role,
        }
    }
}

impl View for Session {
    type V = SessionView;

    open spec fn view(&self) -> SessionView {
        SessionView {
            id: self.id@,
            user_id: self.user_id.0,
            ip: self.ip,
            created_at: self.created_at,
            expires_at: self.expires_at,
        }
    }
}

impl Clone for Username {
    fn clone(&self) -> (r: Self)
        ensures
            r@ == self@,
    {
        Username(self.0.clone())
    }
}

impl Clone for SessionId {
    fn clone(&self) -> (r: Self)
        ensures
            r@ == self@,
    {
        SessionId(self.0.clone())
    }
}

impl Clone for User {
    fn clone(&self) -> (r: Self)
        ensures
            r@ == self@,
    {
        User {
            id: self.id,
            username: self.username.clone(),
            password_hash: self.password_hash.clone(),
            role: self.role,
        }
    }
}

impl Clone for Session {
    fn clone(&self) -> (r: Self)
        ensures
            r@ == self@,
    {
        Session {
            id: self.id.clone(),
            user_id: self.user_id,
            ip: self.ip,
            created_at: self.created_at,
            expires_at: self.expires_at,
        }
    }
}

impl Username {
    /// The name as a string slice.
    pub fn as_str(&self) -> (s: &str)
        ensures
            s@ == self@,
    {
        self.0.as_str()
    }
}

impl SessionId {
    /// The token as a string slice.
    pub fn as_str(&self) -> (s: &str)
        ensures
            s@ == self@,
    {
        self.0.as_str()
    }
}

impl Session {
    /// Whether the session is still valid at `now`.
    pub fn is_live_at(&self, now: Timestamp) -> (live: bool)
        ensures
            live == self@.live_at(now),
    {
        self.expires_at.later_than(now)
    }
}

} // verus!
