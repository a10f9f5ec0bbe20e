//! How the two project tables stand for a store of projects: the projects
//! that the rows hold, when the index agrees with them, and what the row
//! changes of each operation mean for the store.

use vstd::prelude::*;
use crate::project::{ProjectState, ProjectView};
use crate::storage::codec::{project_of_row, project_row};
use crate::storage::tables::ProjectTables;

verus! {

impl ProjectTables {
    /// The project that the row under `id` holds, if there is such a row
    /// and it decodes.
    pub open spec fn project_in(self, id: u128) -> Option<ProjectView> {
        if self.projects.contains_key(id) {
            project_of_row(self.projects[id])
        } else {
            None
        }
    }

    /// The projects that the rows hold.
    pub open spec fn state(self) -> ProjectState {
        ProjectState {
            projects: Map::new(
                |id: u128| self.project_in(id) is Some,
                |id: u128| self.project_in(id)->Some_0,
            ),
        }
    }

    /// Whether the two tables agree with each other: every row decodes to a
    /// project filed under its own identifier, and the index pairs each
    /// project with its owner and holds nothing else.
    pub open spec fn consistent(self) -> bool {
        &&& self.projects.dom().finite()
        &&& forall|id: u128| #[trigger]
            self.projects.contains_key(id) ==> {
                &&& self.project_in(id) matches Some(project)
                &&& project.id == id
                &&& self.user_projects.contains((project.owner_id, id))
            }
        &&& forall|owner: u128, id: u128| #[trigger]
            self.user_projects.contains((owner, id)) ==> {
                &&& self.project_in(id) matches Some(project)
                &&& project.owner_id == owner
            }
    }

    /// The tables with the row of a project and its index entry.
    pub open spec fn with_project_row(self, owner: u128, id: u128, row: Seq<u8>) -> ProjectTables {
        ProjectTables {
            projects: self.projects.insert(id, row),
            user_projects: self.user_projects.insert((owner, id)),
            ..self
        }
    }

    /// The tables with another row under the project id `id`.
    pub open spec fn with_project_row_replaced(self, id: u128, row: Seq<u8>) -> ProjectTables {
        ProjectTables { projects: self.projects.insert(id, row), ..self }
    }

    /// The tables without the project `id` of `owner`: its row and its index
    /// entry.
    pub open spec fn without_project(self, owner: u128, id: u128) -> ProjectTables {
        ProjectTables {
            projects: self.projects.remove(id),
            user_projects: self.user_projects.remove((owner, id)),
            ..self
        }
    }
}

/// Tables that agree with each other hold a well-formed store, whose
/// projects are those with a row.
pub proof fn lemma_consistent_projects_wf(t: ProjectTables)
    requires
        t.consistent(),
    ensures
        t.state().wf(),
        forall|id: u128| t.state().projects.contains_key(id) <==> t.projects.contains_key(id),
        forall|owner: u128, id: u128|
            t.user_projects.contains((owner, id)) <==> t.state().owns(owner, id),
{
    assert(t.state().projects.dom() =~= t.projects.dom());
    assert forall|owner: u128, id: u128|
        t.user_projects.contains((owner, id)) <==> t.state().owns(owner, id) by {
        if t.state().owns(owner, id) {
            assert(t.projects.contains_key(id));
        }
    }
}

/// Putting the row and the index entry of a new project into consistent
/// tables files the project in the store and keeps the tables consistent.
pub proof fn lemma_project_row_refines(pre: ProjectTables, project: ProjectView)
    requires
        pre.consistent(),
        !pre.projects.contains_key(project.id),
        project_of_row(project_row(project)) == Some(project),
    ensures
        pre.with_project_row(project.owner_id, project.id, project_row(project)).consistent(),
        pre.with_project_row(project.owner_id, project.id, project_row(project)).state().projects
            == pre.state().projects.insert(project.id, project),
{
    let post = pre.with_project_row(project.owner_id, project.id, project_row(project));
    assert forall|id: u128| #[trigger] post.projects.contains_key(id) implies {
        &&& post.project_in(id) matches Some(found)
        &&& found.id == id
        &&& post.user_projects.contains((found.owner_id, id))
    } by {
        if id != project.id {
            assert(pre.projects.contains_key(id));
        }
    }
    assert forall|owner: u128, id: u128| #[trigger]
        post.user_projects.contains((owner, id)) implies {
        &&& post.project_in(id) matches Some(found)
        &&& found.owner_id == owner
    } by {
        if (owner, id) != (project.owner_id, project.id) {
            assert(pre.user_projects.contains((owner, id)));
        }
    }
    assert(post.state().projects =~= pre.state().projects.insert(project.id, project));
}

/// Replacing the row of a project by the row of an updated record, of the
/// same identifier and owner, replaces the project in the store and keeps
/// the tables consistent.
pub proof fn lemma_project_row_replaced_refines(pre: ProjectTables, project: ProjectView)
    requires
        pre.consistent(),
        pre.projects.contains_key(project.id),
        pre.project_in(project.id)->Some_0.owner_id == project.owner_id,
        project_of_row(project_row(project)) == Some(project),
    ensures
        pre.with_project_row_replaced(project.id, project_row(project)).consistent(),
        pre.with_project_row_replaced(project.id, project_row(project)).state().projects
            == pre.state().projects.insert(project.id, project),
{
    let post = pre.with_project_row_replaced(project.id, project_row(project));
    assert(post.projects.dom() =~= pre.projects.dom());
    assert forall|id: u128| #[trigger] post.projects.contains_key(id) implies {
        &&& post.project_in(id) matches Some(found)
        &&& found.id == id
        &&& post.user_projects.contains((found.owner_id, id))
    } by {
        assert(pre.projects.contains_key(id));
    }
    assert forall|owner: u128, id: u128| #[trigger]
        post.user_projects.contains((owner, id)) implies {
        &&& post.project_in(id) matches Some(found)
        &&& found.owner_id == owner
    } by {
        assert(pre.user_projects.contains((owner, id)));
    }
    assert(post.state().projects =~= pre.state().projects.insert(project.id, project));
}

/// Removing the row of a project and its index entry, under the owner that
/// the row names, removes the project from the store and keeps the tables
/// consistent.
pub proof fn lemma_without_project_refines(pre: ProjectTables, id: u128)
    requires
        pre.consistent(),
        pre.projects.contains_key(id),
    ensures
        pre.without_project(pre.project_in(id)->Some_0.owner_id, id).consistent(),
        pre.without_project(pre.project_in(id)->Some_0.owner_id, id).state().projects
            == pre.state().projects.remove(id),
{
    let owner = pre.project_in(id)->Some_0.owner_id;
    let post = pre.without_project(owner, id);
    assert forall|other: u128| #[trigger] post.projects.contains_key(other) implies {
        &&& post.project_in(other) matches Some(found)
        &&& found.id == other
        &&& post.user_projects.contains((found.owner_id, other))
    } by {
        assert(pre.projects.contains_key(other));
    }
    assert forall|holder: u128, other: u128| #[trigger]
        post.user_projects.contains((holder, other)) implies {
        &&& post.project_in(other) matches Some(found)
        &&& found.owner_id == holder
    } by {
        assert(pre.user_projects.contains((holder, other)));
    }
    assert(post.state().projects =~= pre.state().projects.remove(id));
}

} // verus!
