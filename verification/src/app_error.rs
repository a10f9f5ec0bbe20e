//! Errors as the user interface shows them: one message for each kind of
//! failure.

use vstd::prelude::*;
use crate::error::{AuthError, ProjectError};

verus! {

/// Failures of a request that have nothing to do with storage.
#[derive(Debug, Clone, Copy, PartialEq, Eq, Structural)]
pub enum ServerError {
    InvalidCreds,
    RequestError,
    Unknown,
}

/// An error with the message that is shown to the user.
#[derive(Debug)]
pub struct AppError(String);

impl View for AppError {
    type V = Seq<char>;

    closed spec fn view(&self) -> Seq<char> {
        self.0@
    }
}

impl Clone for AppError {
    fn clone(&self) -> (r: Self)
        ensures
            r@ == self@,
    {
        AppError(self.0.clone())
    }
}

impl ServerError {
    /// The text of the error, as shown in diagnostics.
    pub open spec fn message_text(self) -> Seq<char> {
        match self {
            ServerError::InvalidCreds => "Invalid credentials provided"@,
            ServerError::RequestError => "Client request error"@,
            ServerError::Unknown => "An unknown error occurred"@,
        }
    }

    /// Renders the error as text.
    pub fn message(&self) -> (text: String)
        ensures
            text@ == self.message_text(),
    {
        match self {
            ServerError::InvalidCreds => "Invalid credentials provided".to_owned(),
            ServerError::RequestError => "Client request error".to_owned(),
            ServerError::Unknown => "An unknown error occurred".to_owned(),
        }
    }
}

/// What the user is told when the backend failed.
pub open spec fn internal_notice() -> Seq<char> {
    "An internal error occurred. Please try again later."@
}

/// What the user is told when a store operation fails. The detail of an
/// internal fault is not passed on.
pub open spec fn auth_error_notice(e: AuthError) -> Seq<char> {
    match e {
        AuthError::NotFound => "User not found"@,
        AuthError::InvalidSession => "Your session has expired. Please log in again."@,
        AuthError::UserExists => "A user with this username already exists"@,
        AuthError::SessionLimitReached => "Maximum number of active sessions reached. Please log out of another device."@,
        AuthError::Internal(_) => internal_notice(),
    }
}

/// What the user is told when a project operation fails. The detail of an
/// internal fault is not passed on.
pub open spec fn project_error_notice(e: ProjectError) -> Seq<char> {
    match e {
        ProjectError::NotFound => "Project not found"@,
        ProjectError::AlreadyExists => "A project with this name already exists"@,
        ProjectError::Unauthorized => "You don't have permission to access this project"@,
        ProjectError::Internal(_) => internal_notice(),
    }
}

/// What the user is told when a request fails.
pub open spec fn server_error_notice(e: ServerError) -> Seq<char> {
    match e {
        ServerError::InvalidCreds => "Invalid username or password"@,
        ServerError::RequestError => "Request error occurred"@,
        ServerError::Unknown => "An unknown error occurred"@,
    }
}

impl AppError {
    /// An error with the given message.
    pub fn new(message: &str) -> (e: Self)
        ensures
            e@ == message@,
    {
        AppError(message.to_owned())
    }

    /// The message of the error.
    pub fn message(&self) -> (text: &str)
        ensures
            text@ == self@,
    {
        self.0.as_str()
    }

    /// The error shown for a failed store operation.
    pub fn from_auth_error(e: &AuthError) -> (shown: Self)
        ensures
            shown@ == auth_error_notice(*e),
    {
        match e {
            AuthError::NotFound => AppError::new("User not found"),
            AuthError::InvalidSession => AppError::new(
                "Your session has expired. Please log in again.",
            ),
            AuthError::UserExists => AppError::new("A user with this username already exists"),
            AuthError::SessionLimitReached => AppError::new(
                "Maximum number of active sessions reached. Please log out of another device.",
            ),
            AuthError::Internal(_) => AppError::new(
                "An internal error occurred. Please try again later.",
            ),
        }
    }

    /// The error shown for a failed project operation.
    pub fn from_project_error(e: &ProjectError) -> (shown: Self)
        ensures
            shown@ == project_error_notice(*e),
    {
        match e {
            ProjectError::NotFound => AppError::new("Project not found"),
            ProjectError::AlreadyExists => AppError::new("A project with this name already exists"),
            ProjectError::Unauthorized => AppError::new(
                "You don't have permission to access this project",
            ),
            ProjectError::Internal(_) => AppError::new(
                "An internal error occurred. Please try again later.",
            ),
        }
    }

    /// The error shown for a failed request.
    pub fn from_server_error(e: ServerError) -> (shown: Self)
        ensures
            shown@ == server_error_notice(e),
    {
        match e {
            ServerError::InvalidCreds => AppError::new("Invalid username or password"),
            ServerError::RequestError => AppError::new("Request error occurred"),
            ServerError::Unknown => AppError::new("An unknown error occurred"),
        }
    }
}

} // verus!
