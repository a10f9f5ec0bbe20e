//! Project operations on behalf of the user behind a session: who may do
//! what, and what a refusal says.

use vstd::prelude::*;
use crate::api::{fetch_session, presented_session_post};
use crate::clock::Timestamp;
use crate::app_error::{internal_notice, project_error_notice, AppError};
use crate::error::ProjectError;
use crate::identifiers::uuid_of_text;
use crate::model::StoreState;
use crate::project::{
    change_of, summary_views, text_of, Project, ProjectId, ProjectState, ProjectSummary,
};
use crate::storage::{AuthStore, ProjectStore};
use crate::types::{Session, SessionId};

verus! {

/// What a request without a valid session is told.
pub open spec fn not_authenticated_notice() -> Seq<char> {
    "Not authenticated"@
}

/// What a request with a malformed project id is told.
pub open spec fn invalid_project_id_notice() -> Seq<char> {
    "Invalid project ID"@
}

/// What a user is told who asks for the project of another.
pub open spec fn no_access_notice() -> Seq<char> {
    "You don't have permission to access this project"@
}

/// What a user is told who tries to update the project of another.
pub open spec fn no_update_notice() -> Seq<char> {
    "You don't have permission to update this project"@
}

/// What a user is told who tries to delete the project of another.
pub open spec fn no_delete_notice() -> Seq<char> {
    "You don't have permission to delete this project"@
}

/// Whether `token` is presented and names a session of user `uid` in the
/// store.
pub open spec fn presents_session_of(s: StoreState, token: Option<&SessionId>, uid: u128) -> bool {
    token matches Some(presented) && s.sessions.contains_key(presented@)
        && s.sessions[presented@].user_id == uid
}

/// Whether `text` spells the identifier of a project of user `uid`.
pub open spec fn spells_project_of(p: ProjectState, text: Seq<char>, uid: u128) -> bool {
    uuid_of_text(text) matches Some(id) && p.owns(uid, id)
}

/// Whether `text` spells the identifier of a project that the store lacks.
pub open spec fn spells_missing_project(p: ProjectState, text: Seq<char>) -> bool {
    match uuid_of_text(text) {
        Some(id) => !p.projects.contains_key(id),
        None => false,
    }
}

/// Whether `text` spells the identifier of a project whose owner is not
/// behind the presented session.
pub open spec fn spells_project_of_another(
    s: StoreState,
    token: Option<&SessionId>,
    p: ProjectState,
    text: Seq<char>,
) -> bool {
    match uuid_of_text(text) {
        Some(id) => p.projects.contains_key(id) && !presents_session_of(
            s,
            token,
            p.projects[id].owner_id,
        ),
        None => false,
    }
}

/// Whether a request presented no valid session, and how that left the
/// store of sessions: without a token, as it was; with one, as after
/// presenting it at some instant at which nothing was handed out.
pub open spec fn no_session_presented(
    s: StoreState,
    after: StoreState,
    may_fault: bool,
    token: Option<&SessionId>,
) -> bool {
    match token {
        Some(presented) => exists|now: Timestamp|
            presented_session_post(s, after, may_fault, presented@, now, None::<Session>),
        None => after == s,
    }
}

/// What a refusal to touch the project that `text` spells says, and when.
/// That the request is not authenticated: no valid session was presented.
/// Every other refusal follows a valid session, which leaves the store of
/// sessions as it was. That the text spells no identifier. That there is no
/// such project. Under `forbidden`, that the project belongs to another.
/// That the backend failed: only after the text was read as an identifier,
/// since the store of projects is not asked before.
pub open spec fn refusal_post(
    notice: Seq<char>,
    forbidden: Seq<char>,
    s: StoreState,
    after: StoreState,
    may_fault: bool,
    token: Option<&SessionId>,
    p: ProjectState,
    text: Seq<char>,
) -> bool {
    ||| notice == not_authenticated_notice() && no_session_presented(s, after, may_fault, token)
    ||| {
        &&& token is Some
        &&& after == s
        &&& {
            ||| notice == invalid_project_id_notice() && uuid_of_text(text) is None
            ||| notice == project_error_notice(ProjectError::NotFound) && spells_missing_project(
                p,
                text,
            )
            ||| notice == forbidden && spells_project_of_another(s, token, p, text)
            ||| notice == internal_notice() && uuid_of_text(text) is Some
        }
    }
}

/// What a refusal to act for the user behind a session says, and when: that
/// the request is not authenticated, where no valid session was presented;
/// that the backend failed, only after a valid session, which leaves the
/// store of sessions as it was.
pub open spec fn session_refusal_post(
    notice: Seq<char>,
    s: StoreState,
    after: StoreState,
    may_fault: bool,
    token: Option<&SessionId>,
) -> bool {
    ||| notice == not_authenticated_notice() && no_session_presented(s, after, may_fault, token)
    ||| notice == internal_notice() && token is Some && after == s
}

/// Creates a project for the user behind the presented session and returns
/// its summary. A request without a valid session is refused.
pub fn create_project<A: AuthStore, P: ProjectStore>(
    auth: &mut A,
    projects: &mut P,
    token: Option<&SessionId>,
    name: String,
    description: Option<String>,
) -> (r: Result<ProjectSummary, AppError>)
    ensures
        old(auth).consistent() ==> final(auth).consistent(),
        old(projects).consistent() ==> final(projects).consistent(),
        old(auth).consistent() && old(projects).consistent() ==> match r {
            Ok(summary) => {
                &&& presents_session_of(
                    old(auth).state(),
                    token,
                    final(projects).state().projects[summary@.id].owner_id,
                )
                &&& !old(projects).state().projects.contains_key(summary@.id)
                &&& final(projects).state().projects.contains_key(summary@.id)
                &&& final(projects).state().projects[summary@.id].summary() == summary@
                &&& summary@.name == name@
                &&& summary@.description == text_of(description)
                &&& final(projects).state().projects == old(projects).state().projects.insert(
                    summary@.id,
                    final(projects).state().projects[summary@.id],
                )
            },
            Err(e) => {
                &&& session_refusal_post(
                    e@,
                    old(auth).state(),
                    final(auth).state(),
                    old(auth).may_fault(),
                    token,
                )
                &&& e@ == internal_notice() || final(projects).state() == old(projects).state()
            },
        },
        old(auth).consistent() && old(projects).consistent() ==> (r is Ok ==> final(auth).state()
            == old(auth).state()),
        token is None ==> (r matches Err(e) && e@ == not_authenticated_notice())
            && final(projects).state() == old(projects).state(),
{
    let session = match fetch_session(auth, token) {
        Some(session) => session,
        None => {
            return Err(AppError::new("Not authenticated"));
        },
    };
    match projects.create_project(&session.user_id, name, description) {
        Ok(project) => Ok(ProjectSummary::of(&project)),
        Err(e) => Err(AppError::from_project_error(&e)),
    }
}

/// Lists the projects of the user behind the presented session, newest
/// first. A request without a valid session is refused.
pub fn get_my_projects<A: AuthStore, P: ProjectStore>(
    auth: &mut A,
    projects: &P,
    token: Option<&SessionId>,
) -> (r: Result<Vec<ProjectSummary>, AppError>)
    ensures
        old(auth).consistent() ==> final(auth).consistent(),
        old(auth).consistent() && projects.consistent() ==> match r {
            Ok(list) => exists|uid: u128|
                presents_session_of(old(auth).state(), token, uid)
                    && projects.state().lists_projects_of(summary_views(list@), uid),
            Err(e) => session_refusal_post(
                e@,
                old(auth).state(),
                final(auth).state(),
                old(auth).may_fault(),
                token,
            ),
        },
        old(auth).consistent() && projects.consistent() ==> (r is Ok ==> final(auth).state()
            == old(auth).state()),
        token is None ==> (r matches Err(e) && e@ == not_authenticated_notice()),
{
    let session = match fetch_session(auth, token) {
        Some(session) => session,
        None => {
            return Err(AppError::new("Not authenticated"));
        },
    };
    match projects.get_user_projects(&session.user_id) {
        Ok(list) => {
            proof {
                if old(auth).consistent() && projects.consistent() {
                    assert(presents_session_of(old(auth).state(), token, session@.user_id));
                }
            }
            Ok(list)
        },
        Err(e) => Err(AppError::from_project_error(&e)),
    }
}

/// Hands out the project that `project_id` spells, provided the user
/// behind the presented session owns it.
pub fn get_project<A: AuthStore, P: ProjectStore>(
    auth: &mut A,
    projects: &P,
    token: Option<&SessionId>,
    project_id: &str,
) -> (r: Result<Project, AppError>)
    ensures
        old(auth).consistent() ==> final(auth).consistent(),
        old(auth).consistent() && projects.consistent() ==> match r {
            Ok(project) => {
                &&& presents_session_of(old(auth).state(), token, project@.owner_id)
                &&& spells_project_of(projects.state(), project_id@, project@.owner_id)
                &&& uuid_of_text(project_id@) == Some(project@.id)
                &&& projects.state().projects[project@.id] == project@
            },
            Err(e) => refusal_post(
                e@,
                no_access_notice(),
                old(auth).state(),
                final(auth).state(),
                old(auth).may_fault(),
                token,
                projects.state(),
                project_id@,
            ),
        },
        old(auth).consistent() && projects.consistent() ==> (r is Ok ==> final(auth).state()
            == old(auth).state()),
        token is None ==> (r matches Err(e) && e@ == not_authenticated_notice()),
{
    proof {
        if projects.consistent() {
            projects.lemma_consistent_is_wf();
        }
    }
    let session = match fetch_session(auth, token) {
        Some(session) => session,
        None => {
            return Err(AppError::new("Not authenticated"));
        },
    };
    let id = match ProjectId::parse(project_id) {
        Some(id) => id,
        None => {
            return Err(AppError::new("Invalid project ID"));
        },
    };
    let project = match projects.get_project(&id) {
        Ok(project) => project,
        Err(e) => {
            return Err(AppError::from_project_error(&e));
        },
    };
    if project.owner_id != session.user_id {
        return Err(AppError::new("You don't have permission to access this project"));
    }
    Ok(project)
}

/// Updates the name of the project that `project_id` spells, its
/// description, or both, provided the user behind the presented session
/// owns the project.
pub fn update_project<A: AuthStore, P: ProjectStore>(
    auth: &mut A,
    projects: &mut P,
    token: Option<&SessionId>,
    project_id: &str,
    name: Option<String>,
    description: Option<Option<String>>,
) -> (r: Result<Project, AppError>)
    ensures
        old(auth).consistent() ==> final(auth).consistent(),
        old(projects).consistent() ==> final(projects).consistent(),
        old(auth).consistent() && old(projects).consistent() ==> match r {
            Ok(project) => {
                &&& presents_session_of(old(auth).state(), token, project@.owner_id)
                &&& spells_project_of(old(projects).state(), project_id@, project@.owner_id)
                &&& uuid_of_text(project_id@) == Some(project@.id)
                &&& exists|now: Timestamp|
                    project@ == old(projects).state().projects[project@.id].updated(
                        text_of(name),
                        change_of(description),
                        now,
                    )
                &&& final(projects).state().projects == old(projects).state().projects.insert(
                    project@.id,
                    project@,
                )
            },
            Err(e) => {
                &&& refusal_post(
                    e@,
                    no_update_notice(),
                    old(auth).state(),
                    final(auth).state(),
                    old(auth).may_fault(),
                    token,
                    old(projects).state(),
                    project_id@,
                )
                &&& e@ == internal_notice() || final(projects).state() == old(projects).state()
            },
        },
        old(auth).consistent() && old(projects).consistent() ==> (r is Ok ==> final(auth).state()
            == old(auth).state()),
        token is None ==> (r matches Err(e) && e@ == not_authenticated_notice())
            && final(projects).state() == old(projects).state(),
{
    proof {
        if projects.consistent() {
            projects.lemma_consistent_is_wf();
        }
    }
    let session = match fetch_session(auth, token) {
        Some(session) => session,
        None => {
            return Err(AppError::new("Not authenticated"));
        },
    };
    let id = match ProjectId::parse(project_id) {
        Some(id) => id,
        None => {
            return Err(AppError::new("Invalid project ID"));
        },
    };
    let existing = match projects.get_project(&id) {
        Ok(existing) => existing,
        Err(e) => {
            return Err(AppError::from_project_error(&e));
        },
    };
    if existing.owner_id != session.user_id {
        return Err(AppError::new("You don't have permission to update this project"));
    }
    match projects.update_project(&id, name, description) {
        Ok(updated) => Ok(updated),
        Err(e) => Err(AppError::from_project_error(&e)),
    }
}

/// Deletes the project that `project_id` spells, provided the user behind
/// the presented session owns it.
pub fn delete_project<A: AuthStore, P: ProjectStore>(
    auth: &mut A,
    projects: &mut P,
    token: Option<&SessionId>,
    project_id: &str,
) -> (r: Result<(), AppError>)
    ensures
        old(auth).consistent() ==> final(auth).consistent(),
        old(projects).consistent() ==> final(projects).consistent(),
        old(auth).consistent() && old(projects).consistent() ==> match r {
            Ok(()) => {
                &&& uuid_of_text(project_id@) matches Some(id)
                &&& old(projects).state().projects.contains_key(id)
                &&& presents_session_of(
                    old(auth).state(),
                    token,
                    old(projects).state().projects[id].owner_id,
                )
                &&& final(projects).state().projects == old(projects).state().projects.remove(id)
            },
            Err(e) => {
                &&& refusal_post(
                    e@,
                    no_delete_notice(),
                    old(auth).state(),
                    final(auth).state(),
                    old(auth).may_fault(),
                    token,
                    old(projects).state(),
                    project_id@,
                )
                &&& e@ == internal_notice() || final(projects).state() == old(projects).state()
            },
        },
        old(auth).consistent() && old(projects).consistent() ==> (r is Ok ==> final(auth).state()
            == old(auth).state()),
        token is None ==> (r matches Err(e) && e@ == not_authenticated_notice())
            && final(projects).state() == old(projects).state(),
{
    proof {
        if projects.consistent() {
            projects.lemma_consistent_is_wf();
        }
    }
    let session = match fetch_session(auth, token) {
        Some(session) => session,
        None => {
            return Err(AppError::new("Not authenticated"));
        },
    };
    let id = match ProjectId::parse(project_id) {
        Some(id) => id,
        None => {
            return Err(AppError::new("Invalid project ID"));
        },
    };
    let project = match projects.get_project(&id) {
        Ok(project) => project,
        Err(e) => {
            return Err(AppError::from_project_error(&e));
        },
    };
    if project.owner_id != session.user_id {
        return Err(AppError::new("You don't have permission to delete this project"));
    }
    match projects.delete_project(&id) {
        Ok(()) => Ok(()),
        Err(e) => Err(AppError::from_project_error(&e)),
    }
}

} // verus!
