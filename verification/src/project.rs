//! Projects that users own.

use vstd::prelude::*;
use crate::clock::Timestamp;
use crate::error::ProjectError;
use crate::types::UserId;

verus! {

/// Identifier of a project: the 128 bits of a time-ordered UUID.
#[derive(Debug, Clone, Copy, PartialEq, Eq, Hash, Structural)]
pub struct ProjectId(pub u128);

/// A project as it is stored.
#[derive(Debug, PartialEq, Eq)]
pub struct Project {
    pub id: ProjectId,
    pub owner_id: UserId,
    pub name: String,
    pub description: Option<String>,
    pub created_at: Timestamp,
    pub updated_at: Timestamp,
}

/// What listings show of a project.
#[derive(Debug, PartialEq, Eq)]
pub struct ProjectSummary {
    pub id: ProjectId,
    pub name: String,
    pub description: Option<String>,
    pub created_at: Timestamp,
}

/// What the dashboard shows of a project, as text.
pub struct ProjectData {
    pub name: String,
    pub project_id: ProjectId,
    pub db_used: String,
    pub users_count: String,
    pub active_connections: String,
}

/// What a [`Project`] holds, as mathematical values.
pub struct ProjectView {
    pub id: u128,
    pub owner_id: u128,
    pub name: Seq<char>,
    pub description: Option<Seq<char>>,
    pub created_at: Timestamp,
    pub updated_at: Timestamp,
}

/// What a [`ProjectSummary`] holds, as mathematical values.
pub struct ProjectSummaryView {
    pub id: u128,
    pub name: Seq<char>,
    pub description: Option<Seq<char>>,
    pub created_at: Timestamp,
}

/// The characters of an optional text.
pub open spec fn text_of(text: Option<String>) -> Option<Seq<char>> {
    match text {
        Some(s) => Some(s@),
        None => None,
    }
}

impl View for Project {
    type V = ProjectView;

    open spec fn view(&self) -> ProjectView {
        ProjectView {
            id: self.id.0,
            owner_id: self.owner_id.0,
            name: self.name@,
            description: text_of(self.description),
            created_at: self.created_at,
            updated_at: self.updated_at,
        }
    }
}

impl View for ProjectSummary {
    type V = ProjectSummaryView;

    open spec fn view(&self) -> ProjectSummaryView {
        ProjectSummaryView {
            id: self.id.0,
            name: self.name@,
            description: text_of(self.description),
            created_at: self.created_at,
        }
    }
}

impl ProjectView {
    /// The summary of a project: its identifier, name, description and time
    /// of creation.
    pub open spec fn summary(self) -> ProjectSummaryView {
        ProjectSummaryView {
            id: self.id,
            name: self.name,
            description: self.description,
            created_at: self.created_at,
        }
    }
}

/// A copy of an optional text.
pub fn clone_text(text: &Option<String>) -> (copy: Option<String>)
    ensures
        text_of(copy) == text_of(*text),
{
    match text {
        Some(s) => Some(s.clone()),
        None => None,
    }
}

impl Clone for Project {
    fn clone(&self) -> (r: Self)
        ensures
            r@ == self@,
    {
        Project {
            id: self.id,
            owner_id: self.owner_id,
            name: self.name.clone(),
            description: clone_text(&self.description),
            created_at: self.created_at,
            updated_at: self.updated_at,
        }
    }
}

impl Clone for ProjectSummary {
    fn clone(&self) -> (r: Self)
        ensures
            r@ == self@,
    {
        ProjectSummary {
            id: self.id,
            name: self.name.clone(),
            description: clone_text(&self.description),
            created_at: self.created_at,
        }
    }
}

impl ProjectSummary {
    /// The summary of `project`.
    pub fn of(project: &Project) -> (summary: ProjectSummary)
        ensures
            summary@ == project@.summary(),
    {
        ProjectSummary {
            id: project.id,
            name: project.name.clone(),
            description: clone_text(&project.description),
            created_at: project.created_at,
        }
    }
}

impl From<Project> for ProjectSummary {
    fn from(project: Project) -> (summary: ProjectSummary) {
        ProjectSummary {
            id: project.id,
            name: project.name,
            description: project.description,
            created_at: project.created_at,
        }
    }
}

impl vstd::std_specs::convert::FromSpecImpl<Project> for ProjectSummary {
    open spec fn obeys_from_spec() -> bool {
        true
    }

    open spec fn from_spec(project: Project) -> ProjectSummary {
        ProjectSummary {
            id: project.id,
            name: project.name,
            description: project.description,
            created_at: project.created_at,
        }
    }
}

/// The projects that a store holds, by identifier.
#[verifier::ext_equal]
pub struct ProjectState {
    pub projects: Map<u128, ProjectView>,
}

/// The record of a project created at `now`.
pub open spec fn new_project(
    id: u128,
    owner_id: u128,
    name: Seq<char>,
    description: Option<Seq<char>>,
    now: Timestamp,
) -> ProjectView {
    ProjectView { id, owner_id, name, description, created_at: now, updated_at: now }
}

impl ProjectView {
    /// The project after an update at `now`: with the new name where one is
    /// given, with the new description where one is given, which may be
    /// none, and with `now` as the time of the update.
    pub open spec fn updated(
        self,
        name: Option<Seq<char>>,
        description: Option<Option<Seq<char>>>,
        now: Timestamp,
    ) -> ProjectView {
        ProjectView {
            name: match name {
                Some(name) => name,
                None => self.name,
            },
            description: match description {
                Some(description) => description,
                None => self.description,
            },
            updated_at: now,
            ..self
        }
    }
}

/// Where one summary stands before another in a listing: the one created
/// later comes first; of two created at the same instant, the one with the
/// smaller identifier.
pub open spec fn lists_before(a: ProjectSummaryView, b: ProjectSummaryView) -> bool {
    a.created_at.0 > b.created_at.0 || (a.created_at.0 == b.created_at.0 && a.id < b.id)
}

/// Where one summary may stand before another in a listing.
pub open spec fn lists_no_later(a: ProjectSummaryView, b: ProjectSummaryView) -> bool {
    a.created_at.0 > b.created_at.0 || (a.created_at.0 == b.created_at.0 && a.id <= b.id)
}

/// Whether `order` names `place`.
pub open spec fn names_place(order: Seq<int>, place: int) -> bool {
    exists|k: int| 0 <= k < order.len() && #[trigger] order[k] == place
}

/// Whether `order` names each of the places `0` to `n - 1` once.
pub open spec fn is_rearrangement(order: Seq<int>, n: nat) -> bool {
    &&& order.len() == n
    &&& forall|k: int| 0 <= k < n ==> 0 <= #[trigger] order[k] < n
    &&& forall|k: int, l: int| 0 <= k < l < n ==> #[trigger] order[k] != #[trigger] order[l]
    &&& forall|place: int| 0 <= place < n ==> #[trigger] names_place(order, place)
}

/// Whether `sorted` holds the items of `list`, each once, newest first.
pub open spec fn is_newest_first(sorted: Seq<ProjectSummary>, list: Seq<ProjectSummary>) -> bool {
    &&& sorted.len() == list.len()
    &&& forall|i: int, j: int|
        0 <= i < j < sorted.len() ==> lists_no_later(#[trigger] sorted[i]@, #[trigger] sorted[j]@)
    &&& exists|order: Seq<int>|
        is_rearrangement(order, list.len()) && forall|k: int|
            0 <= k < sorted.len() ==> (#[trigger] sorted[k])@ == list[order[k]]@
}

/// The summaries of a list, as mathematical values.
pub open spec fn summary_views(list: Seq<ProjectSummary>) -> Seq<ProjectSummaryView> {
    Seq::new(list.len(), |i: int| list[i]@)
}

impl ProjectState {
    /// The store that holds no project.
    pub open spec fn empty() -> ProjectState {
        ProjectState { projects: Map::empty() }
    }

    /// The invariant of a project store: finitely many projects, each filed
    /// under its own identifier.
    pub open spec fn wf(self) -> bool {
        &&& self.projects.dom().finite()
        &&& forall|id: u128| #[trigger]
            self.projects.contains_key(id) ==> self.projects[id].id == id
    }

    /// Whether `id` names a project of `owner`.
    pub open spec fn owns(self, owner: u128, id: u128) -> bool {
        self.projects.contains_key(id) && self.projects[id].owner_id == owner
    }

    /// Whether `list` is the listing of the projects of `owner`: the summary
    /// of each, once, newest first.
    pub open spec fn lists_projects_of(self, list: Seq<ProjectSummaryView>, owner: u128) -> bool {
        &&& forall|i: int|
            0 <= i < list.len() ==> self.owns(owner, (#[trigger] list[i]).id) && list[i]
                == self.projects[list[i].id].summary()
        &&& forall|id: u128| #[trigger]
            self.owns(owner, id) ==> exists|i: int| 0 <= i < list.len() && list[i].id == id
        &&& forall|i: int, j: int|
            0 <= i < j < list.len() ==> lists_before(#[trigger] list[i], #[trigger] list[j])
    }
}

/// Whether summary `a` may stand before summary `b` in a listing.
pub fn no_later(a: &ProjectSummary, b: &ProjectSummary) -> (r: bool)
    ensures
        r == lists_no_later(a@, b@),
{
    a.created_at.0 > b.created_at.0 || (a.created_at.0 == b.created_at.0 && a.id.0 <= b.id.0)
}

/// Sorts summaries for a listing: newest first, and of those created at the
/// same instant the one with the smaller identifier first.
pub fn newest_first(list: &Vec<ProjectSummary>) -> (sorted: Vec<ProjectSummary>)
    ensures
        is_newest_first(sorted@, list@),
{
    let mut sorted: Vec<ProjectSummary> = Vec::new();
    let ghost mut order: Seq<int> = Seq::empty();
    let mut i: usize = 0;
    while i < list.len()
        invariant
            i <= list.len(),
            sorted.len() == i,
            is_rearrangement(order, i as nat),
            forall|k: int| 0 <= k < i ==> (#[trigger] sorted[k])@ == list[order[k]]@,
            forall|k: int, l: int|
                0 <= k < l < i ==> lists_no_later(#[trigger] sorted[k]@, #[trigger] sorted[l]@),
        decreases list.len() - i,
    {
        let item = list[i].clone();
        let mut place: usize = 0;
        while place < sorted.len() && no_later(&sorted[place], &item)
            invariant
                place <= sorted.len(),
                forall|k: int| 0 <= k < place ==> lists_no_later(#[trigger] sorted[k]@, item@),
            decreases sorted.len() - place,
        {
            place += 1;
        }
        let ghost before = sorted@;
        let ghost order_before = order;
        sorted.insert(place, item);
        proof {
            order = order.insert(place as int, i as int);
            assert forall|k: int| 0 <= k < i + 1 implies (#[trigger] sorted[k])@
                == list[order[k]]@ by {
                if k < place {
                    assert(sorted[k] == before[k]);
                } else if k > place {
                    assert(sorted[k] == before[k - 1]);
                    assert(order[k] == order_before[k - 1]);
                }
            }
            assert forall|k: int, l: int| 0 <= k < l < i + 1 implies lists_no_later(
                #[trigger] sorted[k]@,
                #[trigger] sorted[l]@,
            ) by {
                let a = if k < place {
                    before[k]
                } else if k == place {
                    item
                } else {
                    before[k - 1]
                };
                let b = if l < place {
                    before[l]
                } else if l == place {
                    item
                } else {
                    before[l - 1]
                };
                assert(sorted[k] == a);
                assert(sorted[l] == b);
                if place < before.len() {
                    assert(!lists_no_later(before[place as int]@, item@));
                    if l > place {
                        assert(lists_no_later(before[place as int]@, before[l - 1]@) || l - 1
                            == place);
                    }
                }
            }
            assert forall|k: int| 0 <= k < i + 1 implies 0 <= #[trigger] order[k] < i + 1 by {
                if k < place {
                    assert(order[k] == order_before[k]);
                } else if k > place {
                    assert(order[k] == order_before[k - 1]);
                }
            }
            assert forall|k: int, l: int| 0 <= k < l < i + 1 implies #[trigger] order[k]
                != #[trigger] order[l] by {
                let a = if k < place {
                    order_before[k]
                } else if k == place {
                    i as int
                } else {
                    order_before[k - 1]
                };
                let b = if l < place {
                    order_before[l]
                } else if l == place {
                    i as int
                } else {
                    order_before[l - 1]
                };
                assert(order[k] == a);
                assert(order[l] == b);
            }
            assert forall|at: int| 0 <= at < i + 1 implies #[trigger] names_place(order, at) by {
                if at == i {
                    assert(order[place as int] == at);
                } else {
                    assert(names_place(order_before, at));
                    let k = choose|k: int|
                        0 <= k < order_before.len() && #[trigger] order_before[k] == at;
                    if k < place {
                        assert(order[k] == at);
                    } else {
                        assert(order[k + 1] == at);
                    }
                }
            }
        }
        i += 1;
    }
    sorted
}

/// What creating a project does: on success the new record is returned and
/// filed; an identifier in use is a fault, and nothing changes.
pub open spec fn create_project_post(
    pre: ProjectState,
    post: ProjectState,
    owner_id: u128,
    name: Seq<char>,
    description: Option<Seq<char>>,
    id: u128,
    now: Timestamp,
    r: Result<Project, ProjectError>,
) -> bool {
    match r {
        Ok(project) => {
            &&& !pre.projects.contains_key(id)
            &&& project@ == new_project(id, owner_id, name, description, now)
            &&& post.projects == pre.projects.insert(id, project@)
        },
        Err(ProjectError::Internal(_)) => pre.projects.contains_key(id) && post == pre,
        Err(_) => false,
    }
}

/// What looking a project up returns.
pub open spec fn get_project_post(pre: ProjectState, id: u128, r: Result<Project, ProjectError>) -> bool {
    match r {
        Ok(project) => pre.projects.contains_key(id) && project@ == pre.projects[id],
        Err(ProjectError::NotFound) => !pre.projects.contains_key(id),
        Err(_) => false,
    }
}

/// What listing the projects of a user returns.
pub open spec fn get_user_projects_post(
    pre: ProjectState,
    owner_id: u128,
    r: Result<Vec<ProjectSummary>, ProjectError>,
) -> bool {
    match r {
        Ok(list) => pre.lists_projects_of(summary_views(list@), owner_id),
        Err(_) => false,
    }
}

/// What updating a project at `now` does: the updated record is returned
/// and takes the place of the old one.
pub open spec fn update_project_post(
    pre: ProjectState,
    post: ProjectState,
    id: u128,
    name: Option<Seq<char>>,
    description: Option<Option<Seq<char>>>,
    now: Timestamp,
    r: Result<Project, ProjectError>,
) -> bool {
    match r {
        Ok(project) => {
            &&& pre.projects.contains_key(id)
            &&& project@ == pre.projects[id].updated(name, description, now)
            &&& post.projects == pre.projects.insert(id, project@)
        },
        Err(ProjectError::NotFound) => !pre.projects.contains_key(id) && post == pre,
        Err(_) => false,
    }
}

/// What deleting a project does.
pub open spec fn delete_project_post(
    pre: ProjectState,
    post: ProjectState,
    id: u128,
    r: Result<(), ProjectError>,
) -> bool {
    match r {
        Ok(()) => pre.projects.contains_key(id) && post.projects == pre.projects.remove(id),
        Err(ProjectError::NotFound) => !pre.projects.contains_key(id) && post == pre,
        Err(_) => false,
    }
}

/// Whether a result reports a fault of the backend.
pub open spec fn is_project_fault<T>(r: Result<T, ProjectError>) -> bool {
    r matches Err(ProjectError::Internal(_))
}

/// The characters of an optional description that is itself optional.
pub open spec fn change_of(description: Option<Option<String>>) -> Option<Option<Seq<char>>> {
    match description {
        Some(description) => Some(text_of(description)),
        None => None,
    }
}

/// What a call of `create_project_with` may do: what creating a project
/// does; or end in a fault, having done nothing or the whole of it.
pub open spec fn create_project_outcome(
    pre: ProjectState,
    post: ProjectState,
    owner_id: u128,
    name: Seq<char>,
    description: Option<Seq<char>>,
    id: u128,
    now: Timestamp,
    r: Result<Project, ProjectError>,
) -> bool {
    ||| create_project_post(pre, post, owner_id, name, description, id, now, r)
    ||| is_project_fault(r) && (post == pre || exists|done: Result<Project, ProjectError>|
        create_project_post(pre, post, owner_id, name, description, id, now, done))
}

/// What a call of `get_project` may do.
pub open spec fn get_project_outcome(pre: ProjectState, id: u128, r: Result<Project, ProjectError>) -> bool {
    get_project_post(pre, id, r) || is_project_fault(r)
}

/// What a call of `get_user_projects` may do.
pub open spec fn get_user_projects_outcome(
    pre: ProjectState,
    owner_id: u128,
    r: Result<Vec<ProjectSummary>, ProjectError>,
) -> bool {
    get_user_projects_post(pre, owner_id, r) || is_project_fault(r)
}

/// What a call of `update_project_at` may do: what updating a project does;
/// or end in a fault, having done nothing or the whole of it.
pub open spec fn update_project_outcome(
    pre: ProjectState,
    post: ProjectState,
    id: u128,
    name: Option<Seq<char>>,
    description: Option<Option<Seq<char>>>,
    now: Timestamp,
    r: Result<Project, ProjectError>,
) -> bool {
    ||| update_project_post(pre, post, id, name, description, now, r)
    ||| is_project_fault(r) && (post == pre || exists|done: Result<Project, ProjectError>|
        update_project_post(pre, post, id, name, description, now, done))
}

/// What a call of `delete_project` may do: what deleting a project does; or
/// end in a fault, having done nothing or the whole of it.
pub open spec fn delete_project_outcome(
    pre: ProjectState,
    post: ProjectState,
    id: u128,
    r: Result<(), ProjectError>,
) -> bool {
    ||| delete_project_post(pre, post, id, r)
    ||| is_project_fault(r) && (post == pre || exists|done: Result<(), ProjectError>|
        delete_project_post(pre, post, id, done))
}

} // verus!
