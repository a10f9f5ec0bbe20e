//! The store contract and its backends.

pub mod codec;
pub mod counting;
pub mod mem_maps;
pub mod memstore;
pub mod project_schema;
pub mod redb_projectstore;
pub mod redbstore;
pub mod schema;
pub mod tables;
pub mod transactions;

use vstd::prelude::*;
use crate::clock::Timestamp;
use crate::credentials::PasswordHash;
use crate::error::{AuthError, ProjectError};
use crate::identifiers::is_token_text;
use crate::model::{
    create_user_outcome, delete_user_outcome, extend_session_outcome, fetch_session_outcome,
    get_user_by_id_outcome, get_user_by_username_outcome, is_fault, issue_session_outcome,
    revoke_session_outcome, set_password_hash_outcome, StoreState,
};
use crate::project::{
    change_of, create_project_outcome, delete_project_outcome, get_project_outcome,
    get_user_projects_outcome, text_of, update_project_outcome, Project, ProjectId, ProjectState,
    ProjectSummary,
};
use crate::types::{Role, Session, SessionId, SessionIp, User, UserId, Username};

verus! {

/// Storage of users and their sessions.
///
/// Every operation is stated over [`StoreState`], the users and sessions
/// that the store holds. A backend that keeps derived data beside them says
/// in `consistent` when that data agrees with them; what an operation does
/// is promised for consistent stores, and every operation keeps a store
/// consistent.
///
/// A backend whose `may_fault` is true may end any operation with
/// `AuthError::Internal`; the operation has then done nothing, or all of
/// what it does.
///
/// Operations that need the time or a fresh identifier come in two forms:
/// one that takes them as arguments and says exactly what it does with them,
/// and one that draws them and then does the same.
pub trait AuthStore: Sized {
    /// The users and sessions that the store holds.
    spec fn state(&self) -> StoreState;

    /// Whether the backend's derived data agrees with what the store holds.
    spec fn consistent(&self) -> bool;

    /// Whether the backend can fail for reasons of its own.
    spec fn may_fault(&self) -> bool;

    /// How many live sessions one user may have.
    spec fn session_cap(&self) -> usize;

    /// A consistent store holds a well-formed state.
    proof fn lemma_consistent_is_wf(&self)
        requires
            self.consistent(),
        ensures
            self.state().wf(),
    ;

    /// The limit on live sessions per user that the store was set up with.
    fn max_sessions_per_user(&self) -> (max: usize)
        ensures
            max == self.session_cap(),
    ;

    /// Creates a user under the identifier `id`. Fails with `UserExists`
    /// when the name is taken, and with `Internal` when `id` is in use.
    fn create_user_with_id(
        &mut self,
        username: &Username,
        password_hash: PasswordHash,
        role: Role,
        id: UserId,
    ) -> (r: Result<User, AuthError>)
        ensures
            final(self).session_cap() == old(self).session_cap(),
            final(self).may_fault() == old(self).may_fault(),
            old(self).consistent() ==> final(self).consistent(),
            old(self).consistent() ==> create_user_outcome(
                old(self).state(),
                final(self).state(),
                old(self).may_fault(),
                username@,
                password_hash@,
                role,
                id.0,
                r,
            ),
    ;

    /// Looks a user up by identifier. Fails with `NotFound` when there is no
    /// such user.
    fn get_user_by_id(&self, id: &UserId) -> (r: Result<User, AuthError>)
        ensures
            self.consistent() ==> get_user_by_id_outcome(self.state(), self.may_fault(), id.0, r),
    ;

    /// Looks a user up by name. Fails with `NotFound` when there is no such
    /// user.
    fn get_user_by_username(&self, username: &Username) -> (r: Result<User, AuthError>)
        ensures
            self.consistent() ==> get_user_by_username_outcome(
                self.state(),
                self.may_fault(),
                username@,
                r,
            ),
    ;

    /// Replaces the password hash of user `id` and returns the new hash.
    /// Fails with `NotFound` when there is no such user.
    fn set_password_hash(&mut self, id: &UserId, new_hash: PasswordHash) -> (r: Result<
        PasswordHash,
        AuthError,
    >)
        ensures
            final(self).session_cap() == old(self).session_cap(),
            final(self).may_fault() == old(self).may_fault(),
            old(self).consistent() ==> final(self).consistent(),
            old(self).consistent() ==> set_password_hash_outcome(
                old(self).state(),
                final(self).state(),
                old(self).may_fault(),
                id.0,
                new_hash@,
                r,
            ),
    ;

    /// Deletes user `id` together with all sessions of that user. Fails with
    /// `NotFound` when there is no such user.
    fn delete_user(&mut self, id: &UserId) -> (r: Result<(), AuthError>)
        ensures
            final(self).session_cap() == old(self).session_cap(),
            final(self).may_fault() == old(self).may_fault(),
            old(self).consistent() ==> final(self).consistent(),
            old(self).consistent() ==> delete_user_outcome(
                old(self).state(),
                final(self).state(),
                old(self).may_fault(),
                id.0,
                r,
            ),
    ;

    /// Issues to user `id` the session `token`, created at `now`. The user's
    /// expired sessions are removed first. Fails with `NotFound` when the
    /// user does not exist, with `SessionLimitReached` when the user has as
    /// many live sessions as the store allows, and with `Internal` when
    /// `token` is in use.
    fn issue_session_with(
        &mut self,
        id: &UserId,
        ip: SessionIp,
        now: Timestamp,
        token: SessionId,
    ) -> (r: Result<Session, AuthError>)
        requires
            now.can_start_session(),
        ensures
            final(self).session_cap() == old(self).session_cap(),
            final(self).may_fault() == old(self).may_fault(),
            old(self).consistent() ==> final(self).consistent(),
            old(self).consistent() ==> issue_session_outcome(
                old(self).state(),
                final(self).state(),
                old(self).may_fault(),
                id.0,
                ip,
                now,
                token@,
                old(self).session_cap(),
                r,
            ),
    ;

    /// Fetches session `token` as of `now`. Fails with `InvalidSession` when
    /// there is no such session or it has expired; an expired session is
    /// removed before the error is returned.
    fn fetch_session_at(&mut self, token: &SessionId, now: Timestamp) -> (r: Result<
        Session,
        AuthError,
    >)
        ensures
            final(self).session_cap() == old(self).session_cap(),
            final(self).may_fault() == old(self).may_fault(),
            old(self).consistent() ==> final(self).consistent(),
            old(self).consistent() ==> fetch_session_outcome(
                old(self).state(),
                final(self).state(),
                old(self).may_fault(),
                token@,
                now,
                r,
            ),
    ;

    /// Extends session `token` as of `now`: a live session then expires one
    /// session lifetime after `now`. Fails as `fetch_session_at` does.
    fn extend_session_at(&mut self, token: &SessionId, now: Timestamp) -> (r: Result<
        Session,
        AuthError,
    >)
        requires
            now.can_start_session(),
        ensures
            final(self).session_cap() == old(self).session_cap(),
            final(self).may_fault() == old(self).may_fault(),
            old(self).consistent() ==> final(self).consistent(),
            old(self).consistent() ==> extend_session_outcome(
                old(self).state(),
                final(self).state(),
                old(self).may_fault(),
                token@,
                now,
                r,
            ),
    ;

    /// Revokes session `token`, expired or not. Fails with `InvalidSession`
    /// when there is no such session.
    fn revoke_session(&mut self, token: &SessionId) -> (r: Result<(), AuthError>)
        ensures
            final(self).session_cap() == old(self).session_cap(),
            final(self).may_fault() == old(self).may_fault(),
            old(self).consistent() ==> final(self).consistent(),
            old(self).consistent() ==> revoke_session_outcome(
                old(self).state(),
                final(self).state(),
                old(self).may_fault(),
                token@,
                r,
            ),
    ;

    /// Creates a user under a freshly drawn identifier.
    fn create_user(&mut self, username: &Username, password_hash: PasswordHash, role: Role) -> (r:
        Result<User, AuthError>)
        ensures
            final(self).session_cap() == old(self).session_cap(),
            final(self).may_fault() == old(self).may_fault(),
            old(self).consistent() ==> final(self).consistent(),
            old(self).consistent() ==> exists|id: u128|
                create_user_outcome(
                    old(self).state(),
                    final(self).state(),
                    old(self).may_fault(),
                    username@,
                    password_hash@,
                    role,
                    id,
                    r,
                ),
    {
        let id = UserId::new();
        self.create_user_with_id(username, password_hash, role, id)
    }

    /// Creates a user with the role `User`.
    fn create_standard_user(&mut self, username: &Username, password_hash: PasswordHash) -> (r:
        Result<User, AuthError>)
        ensures
            final(self).session_cap() == old(self).session_cap(),
            final(self).may_fault() == old(self).may_fault(),
            old(self).consistent() ==> final(self).consistent(),
            old(self).consistent() ==> exists|id: u128|
                create_user_outcome(
                    old(self).state(),
                    final(self).state(),
                    old(self).may_fault(),
                    username@,
                    password_hash@,
                    Role::User,
                    id,
                    r,
                ),
    {
        self.create_user(username, password_hash, Role::User)
    }

    /// Creates a user with the role `Admin`.
    fn create_admin(&mut self, username: &Username, password_hash: PasswordHash) -> (r: Result<
        User,
        AuthError,
    >)
        ensures
            final(self).session_cap() == old(self).session_cap(),
            final(self).may_fault() == old(self).may_fault(),
            old(self).consistent() ==> final(self).consistent(),
            old(self).consistent() ==> exists|id: u128|
                create_user_outcome(
                    old(self).state(),
                    final(self).state(),
                    old(self).may_fault(),
                    username@,
                    password_hash@,
                    Role::Admin,
                    id,
                    r,
                ),
    {
        self.create_user(username, password_hash, Role::Admin)
    }

    /// Issues a session to user `id` under a freshly drawn token, created at
    /// the current time. When the random source fails, the call ends with
    /// `Internal` and the store stays as it was.
    fn issue_session(&mut self, id: &UserId, ip: SessionIp) -> (r: Result<Session, AuthError>)
        ensures
            final(self).session_cap() == old(self).session_cap(),
            final(self).may_fault() == old(self).may_fault(),
            old(self).consistent() ==> final(self).consistent(),
            old(self).consistent() ==> {
                ||| is_fault(r) && final(self).state() == old(self).state()
                ||| exists|now: Timestamp, token: Seq<char>|
                    now.can_start_session() && is_token_text(token) && issue_session_outcome(
                        old(self).state(),
                        final(self).state(),
                        old(self).may_fault(),
                        id.0,
                        ip,
                        now,
                        token,
                        old(self).session_cap(),
                        r,
                    )
            },
    {
        match SessionId::new() {
            Some(token) => {
                let now = Timestamp::now();
                self.issue_session_with(id, ip, now, token)
            },
            None => Err(
                AuthError::Internal(
                    "Failed to generate secure numbers from the operating system.".to_owned(),
                ),
            ),
        }
    }

    /// Fetches session `token` as of the current time.
    fn fetch_session(&mut self, token: &SessionId) -> (r: Result<Session, AuthError>)
        ensures
            final(self).session_cap() == old(self).session_cap(),
            final(self).may_fault() == old(self).may_fault(),
            old(self).consistent() ==> final(self).consistent(),
            old(self).consistent() ==> exists|now: Timestamp|
                fetch_session_outcome(
                    old(self).state(),
                    final(self).state(),
                    old(self).may_fault(),
                    token@,
                    now,
                    r,
                ),
    {
        let now = Timestamp::now();
        self.fetch_session_at(token, now)
    }

    /// Extends session `token` as of the current time.
    fn extend_session(&mut self, token: &SessionId) -> (r: Result<Session, AuthError>)
        ensures
            final(self).session_cap() == old(self).session_cap(),
            final(self).may_fault() == old(self).may_fault(),
            old(self).consistent() ==> final(self).consistent(),
            old(self).consistent() ==> exists|now: Timestamp|
                now.can_start_session() && extend_session_outcome(
                    old(self).state(),
                    final(self).state(),
                    old(self).may_fault(),
                    token@,
                    now,
                    r,
                ),
    {
        let now = Timestamp::now();
        self.extend_session_at(token, now)
    }
}

/// Storage of projects.
///
/// Every operation is stated over [`ProjectState`], the projects that the
/// store holds. What an operation does is promised for stores whose derived
/// data agrees with that, and every operation keeps a store so. Any
/// operation may end with `ProjectError::Internal`; it has then done
/// nothing, or all of what it does.
pub trait ProjectStore: Sized {
    /// The projects that the store holds.
    spec fn state(&self) -> ProjectState;

    /// Whether the backend's derived data agrees with what the store holds.
    spec fn consistent(&self) -> bool;

    /// A consistent store holds a well-formed state.
    proof fn lemma_consistent_is_wf(&self)
        requires
            self.consistent(),
        ensures
            self.state().wf(),
    ;

    /// Creates, at `now`, a project of user `owner_id` under the identifier
    /// `id`. Fails with `Internal` when `id` is in use.
    fn create_project_with(
        &mut self,
        owner_id: &UserId,
        name: String,
        description: Option<String>,
        id: ProjectId,
        now: Timestamp,
    ) -> (r: Result<Project, ProjectError>)
        ensures
            old(self).consistent() ==> final(self).consistent(),
            old(self).consistent() ==> create_project_outcome(
                old(self).state(),
                final(self).state(),
                owner_id.0,
                name@,
                text_of(description),
                id.0,
                now,
                r,
            ),
    ;

    /// Looks a project up by identifier. Fails with `NotFound` when there is
    /// no such project.
    fn get_project(&self, project_id: &ProjectId) -> (r: Result<Project, ProjectError>)
        ensures
            self.consistent() ==> get_project_outcome(self.state(), project_id.0, r),
    ;

    /// Lists the projects of user `owner_id`: the summary of each, newest
    /// first.
    fn get_user_projects(&self, owner_id: &UserId) -> (r: Result<Vec<ProjectSummary>, ProjectError>)
        ensures
            self.consistent() ==> get_user_projects_outcome(self.state(), owner_id.0, r),
    ;

    /// Updates, at `now`, the name of a project, its description, or both.
    /// Fails with `NotFound` when there is no such project.
    fn update_project_at(
        &mut self,
        project_id: &ProjectId,
        name: Option<String>,
        description: Option<Option<String>>,
        now: Timestamp,
    ) -> (r: Result<Project, ProjectError>)
        ensures
            old(self).consistent() ==> final(self).consistent(),
            old(self).consistent() ==> update_project_outcome(
                old(self).state(),
                final(self).state(),
                project_id.0,
                text_of(name),
                change_of(description),
                now,
                r,
            ),
    ;

    /// Deletes a project. Fails with `NotFound` when there is no such
    /// project.
    fn delete_project(&mut self, project_id: &ProjectId) -> (r: Result<(), ProjectError>)
        ensures
            old(self).consistent() ==> final(self).consistent(),
            old(self).consistent() ==> delete_project_outcome(
                old(self).state(),
                final(self).state(),
                project_id.0,
                r,
            ),
    ;

    /// Creates a project of user `owner_id` under a freshly drawn
    /// identifier, at the current time.
    fn create_project(&mut self, owner_id: &UserId, name: String, description: Option<String>) -> (r:
        Result<Project, ProjectError>)
        ensures
            old(self).consistent() ==> final(self).consistent(),
            old(self).consistent() ==> exists|id: u128, now: Timestamp|
                create_project_outcome(
                    old(self).state(),
                    final(self).state(),
                    owner_id.0,
                    name@,
                    text_of(description),
                    id,
                    now,
                    r,
                ),
    {
        let now = Timestamp::now();
        let id = ProjectId::new();
        self.create_project_with(owner_id, name, description, id, now)
    }

    /// Updates the name of a project, its description, or both, at the
    /// current time.
    fn update_project(
        &mut self,
        project_id: &ProjectId,
        name: Option<String>,
        description: Option<Option<String>>,
    ) -> (r: Result<Project, ProjectError>)
        ensures
            old(self).consistent() ==> final(self).consistent(),
            old(self).consistent() ==> exists|now: Timestamp|
                update_project_outcome(
                    old(self).state(),
                    final(self).state(),
                    project_id.0,
                    text_of(name),
                    change_of(description),
                    now,
                    r,
                ),
    {
        let now = Timestamp::now();
        self.update_project_at(project_id, name, description, now)
    }
}

} // verus!
