//! Errors that cross the store boundary.

use vstd::prelude::*;
use vstd::string::StringExecFns;

verus! {

/// Outcome of a failed identity or session operation. The first four are
/// ordinary results of normal use; `Internal` reports a fault of the backend
/// and carries its description.
#[derive(Debug)]
pub enum AuthError {
    UserExists,
    NotFound,
    InvalidSession,
    SessionLimitReached,
    Internal(String),
}

/// Outcome of a failed project operation.
#[derive(Debug)]
pub enum ProjectError {
    NotFound,
    AlreadyExists,
    Unauthorized,
    Internal(String),
}

impl AuthError {
    /// The text of the error, as shown in diagnostics.
    pub open spec fn message_text(&self) -> Seq<char> {
        match self {
            AuthError::UserExists => "User already exists"@,
            AuthError::NotFound => "User not found"@,
            AuthError::InvalidSession => "Invalid session"@,
            AuthError::SessionLimitReached => "Maximum active sessions reached"@,
            AuthError::Internal(detail) => "Internal error: "@ + detail@,
        }
    }

    /// Renders the error as text.
    pub fn message(&self) -> (text: String)
        ensures
            text@ == self.message_text(),
    {
        match self {
            AuthError::UserExists => "User already exists".to_owned(),
            AuthError::NotFound => "User not found".to_owned(),
            AuthError::InvalidSession => "Invalid session".to_owned(),
            AuthError::SessionLimitReached => "Maximum active sessions reached".to_owned(),
            AuthError::Internal(detail) => "Internal error: ".to_owned().concat(detail.as_str()),
        }
    }

    /// Whether the error is an expected result of normal use rather than a
    /// fault of the backend.
    pub fn is_recoverable(&self) -> (r: bool)
        ensures
            r == !(self is Internal),
    {
        match self {
            AuthError::Internal(_) => false,
            _ => true,
        }
    }
}

impl ProjectError {
    /// The text of the error, as shown in diagnostics.
    pub open spec fn message_text(&self) -> Seq<char> {
        match self {
            ProjectError::NotFound => "Project not found"@,
            ProjectError::AlreadyExists => "Project with this name already exists"@,
            ProjectError::Unauthorized => "Unauthorized access to project"@,
            ProjectError::Internal(detail) => "Internal error: "@ + detail@,
        }
    }

    /// Renders the error as text.
    pub fn message(&self) -> (text: String)
        ensures
            text@ == self.message_text(),
    {
        match self {
            ProjectError::NotFound => "Project not found".to_owned(),
            ProjectError::AlreadyExists => "Project with this name already exists".to_owned(),
            ProjectError::Unauthorized => "Unauthorized access to project".to_owned(),
            ProjectError::Internal(detail) => "Internal error: ".to_owned().concat(detail.as_str()),
        }
    }
}

} // verus!
