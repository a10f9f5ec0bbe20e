//! Identity and session storage: users, credentials and time-bounded sessions
//! behind one store contract with an in-memory and a transactional backend,
//! and on top of it registration, login and the projects that users own.

pub mod api;
pub mod app_error;
pub mod clock;
pub mod config;
pub mod cookies;
pub mod credentials;
pub mod error;
pub mod identifiers;
pub mod model;
pub mod project;
pub mod project_api;
pub mod storage;
pub mod theorems;
pub mod types;
