//! The transactional backend for projects: two tables in one database,
//! changed only inside transactions.

use vstd::prelude::*;
use crate::clock::Timestamp;
use crate::error::ProjectError;
use crate::project::{
    change_of, create_project_post, delete_project_post, is_rearrangement, lists_before,
    lists_no_later, names_place, new_project, newest_first, summary_views, text_of,
    update_project_post, Project, ProjectId, ProjectState, ProjectSummary,
};
use crate::storage::codec::{decode_project, encode_project, project_of_row, project_row};
use crate::storage::project_schema::{
    lemma_consistent_projects_wf, lemma_project_row_refines, lemma_project_row_replaced_refines,
    lemma_without_project_refines,
};
use crate::storage::tables::{
    begin_read, begin_write, commit, create_project_tables, db_project_tables, engine_error_text,
    lists_project_ids, open_database, open_memory_database, projects_get, projects_insert,
    projects_remove, snapshot_projects, snapshot_projects_get, snapshot_user_projects_get, txn_project_tables,
    user_projects_insert, user_projects_remove, ProjectTables,
};
use crate::storage::ProjectStore;
use crate::types::UserId;

verus! {

/// The error that reports a failure of the engine.
pub fn project_engine_fault(e: &redb::Error) -> (fault: ProjectError)
    ensures
        fault is Internal,
{
    ProjectError::Internal(engine_error_text(e))
}

/// Inside a write transaction: creates, at `now`, a project of `owner_id`
/// under `id`, with a row in the project table and an entry in the
/// owner-to-projects index. Refuses an identifier that the project table
/// holds with `Internal`.
pub fn create_project_in(
    txn: &mut redb::WriteTransaction,
    owner_id: &UserId,
    name: String,
    description: Option<String>,
    id: ProjectId,
    now: Timestamp,
) -> (r: Result<Project, ProjectError>)
    ensures
        match r {
            Ok(project) => {
                &&& !txn_project_tables(*old(txn)).projects.contains_key(id.0)
                &&& project@ == new_project(id.0, owner_id.0, name@, text_of(description), now)
                &&& project_of_row(project_row(project@)) == Some(project@)
                &&& txn_project_tables(*final(txn))
                    == txn_project_tables(*old(txn)).with_project_row(
                    owner_id.0,
                    id.0,
                    project_row(project@),
                )
            },
            Err(e) => e is Internal,
        },
{
    match projects_get(txn, id.0) {
        Ok(Some(_)) => {
            return Err(ProjectError::Internal("project identifier is already in use".to_owned()));
        },
        Ok(None) => {},
        Err(e) => {
            return Err(project_engine_fault(&e));
        },
    }
    let project = Project {
        id,
        owner_id: *owner_id,
        name,
        description,
        created_at: now,
        updated_at: now,
    };
    let row = match encode_project(&project) {
        Ok(row) => row,
        Err(e) => {
            return Err(e);
        },
    };
    match projects_insert(txn, id.0, row) {
        Ok(()) => {},
        Err(e) => {
            return Err(project_engine_fault(&e));
        },
    }
    match user_projects_insert(txn, owner_id.0, id.0) {
        Ok(()) => {},
        Err(e) => {
            return Err(project_engine_fault(&e));
        },
    }
    assert(txn_project_tables(*txn) =~= txn_project_tables(*old(txn)).with_project_row(
        owner_id.0,
        id.0,
        project_row(project@),
    ));
    Ok(project)
}

/// Inside a write transaction: replaces the row of project `project_id` by
/// that of the record updated at `now`. Refuses an identifier without a row
/// with `NotFound`.
pub fn update_project_in(
    txn: &mut redb::WriteTransaction,
    project_id: &ProjectId,
    name: Option<String>,
    description: Option<Option<String>>,
    now: Timestamp,
) -> (r: Result<Project, ProjectError>)
    ensures
        match r {
            Ok(project) => {
                &&& txn_project_tables(*old(txn)).project_in(project_id.0) matches Some(stored)
                &&& project@ == stored.updated(text_of(name), change_of(description), now)
                &&& project_of_row(project_row(project@)) == Some(project@)
                &&& txn_project_tables(*final(txn))
                    == txn_project_tables(*old(txn)).with_project_row_replaced(
                    project_id.0,
                    project_row(project@),
                )
            },
            Err(ProjectError::NotFound) => !txn_project_tables(*old(txn)).projects.contains_key(
                project_id.0,
            ),
            Err(e) => e is Internal,
        },
{
    let row = match projects_get(txn, project_id.0) {
        Ok(Some(row)) => row,
        Ok(None) => {
            return Err(ProjectError::NotFound);
        },
        Err(e) => {
            return Err(project_engine_fault(&e));
        },
    };
    let stored = match decode_project(row.as_slice()) {
        Ok(stored) => stored,
        Err(e) => {
            return Err(e);
        },
    };
    let project = Project {
        id: stored.id,
        owner_id: stored.owner_id,
        name: match name {
            Some(new_name) => new_name,
            None => stored.name,
        },
        description: match description {
            Some(new_description) => new_description,
            None => stored.description,
        },
        created_at: stored.created_at,
        updated_at: now,
    };
    let new_row = match encode_project(&project) {
        Ok(new_row) => new_row,
        Err(e) => {
            return Err(e);
        },
    };
    match projects_insert(txn, project_id.0, new_row) {
        Ok(()) => {},
        Err(e) => {
            return Err(project_engine_fault(&e));
        },
    }
    assert(txn_project_tables(*txn) =~= txn_project_tables(*old(txn)).with_project_row_replaced(
        project_id.0,
        project_row(project@),
    ));
    Ok(project)
}

/// Inside a write transaction: removes the row of project `project_id` and
/// the index entry under the owner that the row names. Refuses an identifier
/// without a row with `NotFound`.
pub fn delete_project_in(txn: &mut redb::WriteTransaction, project_id: &ProjectId) -> (r: Result<
    (),
    ProjectError,
>)
    ensures
        match r {
            Ok(()) => {
                &&& txn_project_tables(*old(txn)).project_in(project_id.0) matches Some(stored)
                &&& txn_project_tables(*final(txn))
                    == txn_project_tables(*old(txn)).without_project(
                    stored.owner_id,
                    project_id.0,
                )
            },
            Err(ProjectError::NotFound) => !txn_project_tables(*old(txn)).projects.contains_key(
                project_id.0,
            ),
            Err(e) => e is Internal,
        },
{
    let row = match projects_remove(txn, project_id.0) {
        Ok(Some(row)) => row,
        Ok(None) => {
            return Err(ProjectError::NotFound);
        },
        Err(e) => {
            return Err(project_engine_fault(&e));
        },
    };
    let stored = match decode_project(row.as_slice()) {
        Ok(stored) => stored,
        Err(e) => {
            return Err(e);
        },
    };
    match user_projects_remove(txn, stored.owner_id.0, project_id.0) {
        Ok(()) => {},
        Err(e) => {
            return Err(project_engine_fault(&e));
        },
    }
    assert(txn_project_tables(*txn) =~= txn_project_tables(*old(txn)).without_project(
        stored@.owner_id,
        project_id.0,
    ));
    Ok(())
}

/// A store that keeps projects in a database of the redb engine.
pub struct RedbProjectStore {
    db: redb::Database,
}

impl RedbProjectStore {
    /// The rows that are committed to the database.
    pub closed spec fn tables(&self) -> ProjectTables {
        db_project_tables(self.db)
    }

    /// Makes sure that the two tables exist, then wraps the database.
    fn with_database(db: redb::Database) -> (r: Result<Self, ProjectError>)
        ensures
            match r {
                Ok(store) => store.tables() == db_project_tables(db),
                Err(e) => e is Internal,
            },
    {
        let mut store = RedbProjectStore { db };
        let mut txn = match begin_write(&store.db) {
            Ok(txn) => txn,
            Err(e) => {
                return Err(project_engine_fault(&e));
            },
        };
        match create_project_tables(&mut txn) {
            Ok(()) => {},
            Err(e) => {
                return Err(project_engine_fault(&e));
            },
        }
        match commit(txn, &mut store.db) {
            Ok(()) => {
                assert(store.tables() =~= db_project_tables(db));
                Ok(store)
            },
            Err(e) => Err(project_engine_fault(&e)),
        }
    }

    /// Opens the database file at `path`, creating it where there is none,
    /// and makes sure that the two tables exist. Nothing is known of what an
    /// existing file holds.
    pub fn new(path: &str) -> (r: Result<Self, ProjectError>)
        ensures
            r matches Err(e) ==> e is Internal,
    {
        match open_database(path) {
            Ok(db) => Self::with_database(db),
            Err(e) => Err(project_engine_fault(&e)),
        }
    }

    /// A store on a new database that lives in memory only. It starts
    /// empty.
    pub fn in_memory() -> (r: Result<Self, ProjectError>)
        ensures
            match r {
                Ok(store) => {
                    &&& store.tables() == ProjectTables::empty(store.tables().home)
                    &&& store.consistent()
                    &&& store.state() == ProjectState::empty()
                },
                Err(e) => e is Internal,
            },
    {
        match open_memory_database() {
            Ok(db) => match Self::with_database(db) {
                Ok(store) => {
                    assert(store.tables().state() =~= ProjectState::empty());
                    Ok(store)
                },
                Err(e) => Err(e),
            },
            Err(e) => Err(project_engine_fault(&e)),
        }
    }
}

impl ProjectStore for RedbProjectStore {
    open spec fn state(&self) -> ProjectState {
        self.tables().state()
    }

    open spec fn consistent(&self) -> bool {
        self.tables().consistent()
    }

    proof fn lemma_consistent_is_wf(&self) {
        lemma_consistent_projects_wf(self.tables());
    }

    fn create_project_with(
        &mut self,
        owner_id: &UserId,
        name: String,
        description: Option<String>,
        id: ProjectId,
        now: Timestamp,
    ) -> (r: Result<Project, ProjectError>)
        ensures
            r matches Ok(project) ==> final(self).tables() == old(self).tables().with_project_row(
                owner_id.0,
                id.0,
                project_row(project@),
            ),
    {
        let ghost pre = self.tables();
        let ghost name_text = name@;
        let ghost description_text = text_of(description);
        proof {
            if pre.consistent() {
                lemma_consistent_projects_wf(pre);
            }
        }
        let mut txn = match begin_write(&self.db) {
            Ok(txn) => txn,
            Err(e) => {
                return Err(project_engine_fault(&e));
            },
        };
        assert(txn_project_tables(txn) =~= pre);
        let project = match create_project_in(&mut txn, owner_id, name, description, id, now) {
            Ok(project) => project,
            Err(e) => {
                return Err(e);
            },
        };
        proof {
            if pre.consistent() {
                lemma_project_row_refines(pre, project@);
                assert(create_project_post(
                    pre.state(),
                    txn_project_tables(txn).state(),
                    owner_id.0,
                    name_text,
                    description_text,
                    id.0,
                    now,
                    Ok::<Project, ProjectError>(project),
                ));
            }
        }
        match commit(txn, &mut self.db) {
            Ok(()) => Ok(project),
            Err(e) => Err(project_engine_fault(&e)),
        }
    }

    fn get_project(&self, project_id: &ProjectId) -> (r: Result<Project, ProjectError>)
        ensures
            match r {
                Ok(project) => self.tables().project_in(project_id.0) == Some(project@),
                Err(ProjectError::NotFound) => !self.tables().projects.contains_key(project_id.0),
                Err(e) => e is Internal,
            },
    {
        proof {
            if self.consistent() {
                lemma_consistent_projects_wf(self.tables());
            }
        }
        let snapshot = match begin_read(&self.db) {
            Ok(snapshot) => snapshot,
            Err(e) => {
                return Err(project_engine_fault(&e));
            },
        };
        match snapshot_projects_get(&snapshot, project_id.0) {
            Ok(Some(row)) => decode_project(row.as_slice()),
            Ok(None) => Err(ProjectError::NotFound),
            Err(e) => Err(project_engine_fault(&e)),
        }
    }

    fn get_user_projects(&self, owner_id: &UserId) -> (r: Result<Vec<ProjectSummary>, ProjectError>) {
        let ghost t = self.tables();
        proof {
            if t.consistent() {
                lemma_consistent_projects_wf(t);
            }
        }
        let snapshot = match begin_read(&self.db) {
            Ok(snapshot) => snapshot,
            Err(e) => {
                return Err(project_engine_fault(&e));
            },
        };
        let ids = match snapshot_user_projects_get(&snapshot, owner_id.0) {
            Ok(ids) => ids,
            Err(e) => {
                return Err(project_engine_fault(&e));
            },
        };
        let mut summaries: Vec<ProjectSummary> = Vec::new();
        let mut i: usize = 0;
        while i < ids.len()
            invariant
                i <= ids.len(),
                lists_project_ids(ids@, t.user_projects, owner_id.0),
                snapshot_projects(snapshot) == t.projects,
                t.consistent() ==> summaries.len() == i,
                t.consistent() ==> forall|k: int|
                    0 <= k < i ==> (#[trigger] summaries[k])@ == t.state().projects[ids[k]].summary(),
            decreases ids.len() - i,
        {
            proof {
                if t.consistent() {
                    assert(t.user_projects.contains((owner_id.0, ids[i as int])));
                    assert(t.projects.contains_key(ids[i as int]));
                }
            }
            match snapshot_projects_get(&snapshot, ids[i]) {
                Ok(Some(row)) => {
                    let project = match decode_project(row.as_slice()) {
                        Ok(project) => project,
                        Err(e) => {
                            return Err(e);
                        },
                    };
                    summaries.push(ProjectSummary::of(&project));
                },
                // An index entry without a row is passed over.
                Ok(None) => {},
                Err(e) => {
                    return Err(project_engine_fault(&e));
                },
            }
            i += 1;
        }
        let sorted = newest_first(&summaries);
        proof {
            if t.consistent() {
                let state = t.state();
                let list = summary_views(sorted@);
                let order = choose|order: Seq<int>|
                    is_rearrangement(order, summaries@.len()) && forall|k: int|
                        0 <= k < sorted@.len() ==> (#[trigger] sorted@[k])@
                            == summaries@[order[k]]@;
                assert forall|k: int| 0 <= k < list.len() implies state.owns(
                    owner_id.0,
                    (#[trigger] list[k]).id,
                ) && list[k] == state.projects[list[k].id].summary() by {
                    assert(sorted@[k]@ == summaries@[order[k]]@);
                    assert(t.user_projects.contains((owner_id.0, ids@[order[k]])));
                }
                assert forall|id: u128| #[trigger] state.owns(owner_id.0, id) implies exists|
                    k: int,
                | 0 <= k < list.len() && list[k].id == id by {
                    assert(t.user_projects.contains((owner_id.0, id)));
                    let j = choose|j: int| 0 <= j < ids@.len() && ids@[j] == id;
                    assert(names_place(order, j));
                    let k = choose|k: int| 0 <= k < order.len() && #[trigger] order[k] == j;
                    assert(sorted@[k]@ == summaries@[order[k]]@);
                    assert(list[k].id == id);
                }
                assert forall|k: int, l: int| 0 <= k < l < list.len() implies
                    lists_before(#[trigger] list[k], #[trigger] list[l]) by {
                    assert(sorted@[k]@ == summaries@[order[k]]@);
                    assert(sorted@[l]@ == summaries@[order[l]]@);
                    assert(order[k] != order[l]);
                    assert(t.user_projects.contains((owner_id.0, ids@[order[k]])));
                    assert(t.user_projects.contains((owner_id.0, ids@[order[l]])));
                    assert(ids@[order[k]] != ids@[order[l]]);
                    assert(lists_no_later(sorted@[k]@, sorted@[l]@));
                }
            }
        }
        Ok(sorted)
    }

    fn update_project_at(
        &mut self,
        project_id: &ProjectId,
        name: Option<String>,
        description: Option<Option<String>>,
        now: Timestamp,
    ) -> (r: Result<Project, ProjectError>)
        ensures
            r matches Ok(project) ==> final(self).tables()
                == old(self).tables().with_project_row_replaced(
                project_id.0,
                project_row(project@),
            ),
    {
        let ghost pre = self.tables();
        let ghost name_text = text_of(name);
        let ghost description_text = change_of(description);
        proof {
            if pre.consistent() {
                lemma_consistent_projects_wf(pre);
            }
        }
        let mut txn = match begin_write(&self.db) {
            Ok(txn) => txn,
            Err(e) => {
                return Err(project_engine_fault(&e));
            },
        };
        assert(txn_project_tables(txn) =~= pre);
        let project = match update_project_in(&mut txn, project_id, name, description, now) {
            Ok(project) => project,
            Err(e) => {
                return Err(e);
            },
        };
        proof {
            if pre.consistent() {
                lemma_project_row_replaced_refines(pre, project@);
                assert(update_project_post(
                    pre.state(),
                    txn_project_tables(txn).state(),
                    project_id.0,
                    name_text,
                    description_text,
                    now,
                    Ok::<Project, ProjectError>(project),
                ));
            }
        }
        match commit(txn, &mut self.db) {
            Ok(()) => Ok(project),
            Err(e) => Err(project_engine_fault(&e)),
        }
    }

    fn delete_project(&mut self, project_id: &ProjectId) -> (r: Result<(), ProjectError>)
        ensures
            r matches Ok(_) ==> {
                &&& old(self).tables().project_in(project_id.0) matches Some(stored)
                &&& final(self).tables() == old(self).tables().without_project(
                    stored.owner_id,
                    project_id.0,
                )
            },
    {
        let ghost pre = self.tables();
        proof {
            if pre.consistent() {
                lemma_consistent_projects_wf(pre);
            }
        }
        let mut txn = match begin_write(&self.db) {
            Ok(txn) => txn,
            Err(e) => {
                return Err(project_engine_fault(&e));
            },
        };
        assert(txn_project_tables(txn) =~= pre);
        match delete_project_in(&mut txn, project_id) {
            Ok(()) => {},
            Err(e) => {
                return Err(e);
            },
        }
        proof {
            if pre.consistent() {
                lemma_without_project_refines(pre, project_id.0);
                assert(delete_project_post(
                    pre.state(),
                    txn_project_tables(txn).state(),
                    project_id.0,
                    Ok::<(), ProjectError>(()),
                ));
            }
        }
        match commit(txn, &mut self.db) {
            Ok(()) => Ok(()),
            Err(e) => Err(project_engine_fault(&e)),
        }
    }
}

} // verus!
