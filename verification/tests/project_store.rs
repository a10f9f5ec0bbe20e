use bento::api::register;
use bento::api::AuthRequest;
use bento::clock::Timestamp;
use bento::error::ProjectError;
use bento::project::{newest_first, no_later, Project, ProjectId, ProjectSummary};
use bento::project_api::{
    create_project, delete_project, get_my_projects, get_project, update_project,
};
use bento::storage::codec::{decode_project, encode_project};
use bento::storage::memstore::MemoryAuthStore;
use bento::storage::redb_projectstore::RedbProjectStore;
use bento::storage::ProjectStore;
use bento::types::{IpAddress, SessionId, SessionIp, UserId, Username};

fn summary(id: u128, created_at: i128) -> ProjectSummary {
    ProjectSummary {
        id: ProjectId(id),
        name: format!("p{id}"),
        description: None,
        created_at: Timestamp(created_at),
    }
}

fn ids(list: &[ProjectSummary]) -> Vec<u128> {
    list.iter().map(|s| s.id.0).collect()
}

#[test]
fn listing_is_newest_first() {
    let list = vec![summary(1, 10), summary(2, 30), summary(3, 20), summary(4, 30)];
    let sorted = newest_first(&list);
    assert_eq!(ids(&sorted), vec![2, 4, 3, 1]);
    assert_eq!(sorted[3], summary(1, 10));
    assert!(newest_first(&Vec::new()).is_empty());
    assert_eq!(ids(&newest_first(&[summary(9, 0)].to_vec())), vec![9]);
}

#[test]
fn listing_order_breaks_ties_by_identifier() {
    let list = vec![summary(5, 7), summary(3, 7), summary(4, 7)];
    assert_eq!(ids(&newest_first(&list)), vec![3, 4, 5]);
    assert!(no_later(&summary(1, 5), &summary(2, 5)));
    assert!(no_later(&summary(1, 5), &summary(1, 5)));
    assert!(!no_later(&summary(2, 5), &summary(1, 5)));
    assert!(no_later(&summary(2, 6), &summary(1, 5)));
    assert!(!no_later(&summary(1, 4), &summary(2, 5)));
}

#[test]
fn summary_keeps_what_listings_show() {
    let project = Project {
        id: ProjectId(3),
        owner_id: UserId(4),
        name: "site".to_string(),
        description: Some("the site".to_string()),
        created_at: Timestamp(1),
        updated_at: Timestamp(2),
    };
    let summary = ProjectSummary::of(&project);
    assert_eq!(summary.id, ProjectId(3));
    assert_eq!(summary.name, "site");
    assert_eq!(summary.description.as_deref(), Some("the site"));
    assert_eq!(summary.created_at, Timestamp(1));
    assert_eq!(ProjectSummary::from(project.clone()), summary);
}

#[test]
fn project_row_round_trips() {
    for description in [None, Some(String::new()), Some("text".to_string())] {
        let project = Project {
            id: ProjectId(u128::MAX),
            owner_id: UserId(0),
            name: "n".to_string(),
            description,
            created_at: Timestamp(i128::MIN),
            updated_at: Timestamp(i128::MAX),
        };
        let row = encode_project(&project).expect("encoding should succeed");
        assert_eq!(decode_project(&row).expect("decoding should succeed"), project);
    }
    assert!(matches!(decode_project(&[]), Err(ProjectError::Internal(_))));
}

#[test]
fn project_ids_are_read_from_uuid_text() {
    assert_eq!(
        ProjectId::parse("a1a2a3a4-b1b2-c1c2-d1d2-d3d4d5d6d7d8"),
        Some(ProjectId(0xa1a2a3a4b1b2c1c2d1d2d3d4d5d6d7d8))
    );
    assert_eq!(
        ProjectId::parse("00000000-0000-0000-0000-000000000001"),
        Some(ProjectId(1))
    );
    assert_eq!(ProjectId::parse("not a uuid"), None);
    assert_eq!(ProjectId::parse(""), None);
}

#[test]
fn project_create_get_update_delete() {
    let mut store = RedbProjectStore::in_memory().expect("store should open");
    let created = store
        .create_project_with(
            &UserId(1),
            "first".to_string(),
            Some("about".to_string()),
            ProjectId(10),
            Timestamp(100),
        )
        .expect("creation should succeed");
    assert_eq!(created.id, ProjectId(10));
    assert_eq!(created.owner_id, UserId(1));
    assert_eq!(created.created_at, Timestamp(100));
    assert_eq!(created.updated_at, Timestamp(100));
    assert_eq!(store.get_project(&ProjectId(10)).expect("found"), created);
    assert!(matches!(
        store.get_project(&ProjectId(11)),
        Err(ProjectError::NotFound)
    ));

    let renamed = store
        .update_project_at(&ProjectId(10), Some("second".to_string()), None, Timestamp(200))
        .expect("update should succeed");
    assert_eq!(renamed.name, "second");
    assert_eq!(renamed.description.as_deref(), Some("about"));
    assert_eq!(renamed.created_at, Timestamp(100));
    assert_eq!(renamed.updated_at, Timestamp(200));
    let cleared = store
        .update_project_at(&ProjectId(10), None, Some(None), Timestamp(300))
        .expect("update should succeed");
    assert_eq!(cleared.name, "second");
    assert_eq!(cleared.description, None);
    assert_eq!(cleared.updated_at, Timestamp(300));
    assert_eq!(store.get_project(&ProjectId(10)).expect("found"), cleared);
    assert!(matches!(
        store.update_project_at(&ProjectId(11), None, None, Timestamp(1)),
        Err(ProjectError::NotFound)
    ));

    store.delete_project(&ProjectId(10)).expect("deletion should succeed");
    assert!(matches!(
        store.get_project(&ProjectId(10)),
        Err(ProjectError::NotFound)
    ));
    assert!(matches!(
        store.delete_project(&ProjectId(10)),
        Err(ProjectError::NotFound)
    ));
    assert!(store.get_user_projects(&UserId(1)).expect("listing").is_empty());
}

#[test]
fn project_identifier_in_use_is_a_fault() {
    let mut store = RedbProjectStore::in_memory().expect("store should open");
    store
        .create_project_with(&UserId(1), "a".to_string(), None, ProjectId(1), Timestamp(0))
        .expect("creation should succeed");
    assert!(matches!(
        store.create_project_with(&UserId(2), "b".to_string(), None, ProjectId(1), Timestamp(1)),
        Err(ProjectError::Internal(_))
    ));
    assert_eq!(store.get_project(&ProjectId(1)).expect("found").name, "a");
    assert!(store.get_user_projects(&UserId(2)).expect("listing").is_empty());
}

#[test]
fn projects_of_a_user_are_listed_newest_first() {
    let mut store = RedbProjectStore::in_memory().expect("store should open");
    for (id, owner, at) in [(1u128, 7u128, 10i128), (2, 7, 30), (3, 8, 40), (4, 7, 20), (5, 7, 30)] {
        store
            .create_project_with(
                &UserId(owner),
                format!("p{id}"),
                None,
                ProjectId(id),
                Timestamp(at),
            )
            .expect("creation should succeed");
    }
    let list = store.get_user_projects(&UserId(7)).expect("listing");
    assert_eq!(ids(&list), vec![2, 5, 4, 1]);
    assert_eq!(list[0].name, "p2");
    assert_eq!(ids(&store.get_user_projects(&UserId(8)).expect("listing")), vec![3]);
    assert!(store.get_user_projects(&UserId(9)).expect("listing").is_empty());
    store.delete_project(&ProjectId(5)).expect("deletion");
    assert_eq!(ids(&store.get_user_projects(&UserId(7)).expect("listing")), vec![2, 4, 1]);
}

#[test]
fn fresh_projects_get_identifier_and_time() {
    let mut store = RedbProjectStore::in_memory().expect("store should open");
    let a = store.create_project(&UserId(1), "a".to_string(), None).expect("a");
    let b = store.create_project(&UserId(1), "b".to_string(), None).expect("b");
    assert_ne!(a.id, b.id);
    assert_eq!(a.created_at, a.updated_at);
    let renamed = store
        .update_project(&a.id, Some("c".to_string()), None)
        .expect("update");
    assert_eq!(renamed.name, "c");
    assert!(renamed.updated_at.0 >= a.updated_at.0);
    assert_eq!(store.get_user_projects(&UserId(1)).expect("listing").len(), 2);
}

fn session_of(auth: &mut MemoryAuthStore, name: &str) -> SessionId {
    let request = AuthRequest {
        username: Username(name.to_string()),
        password: "pw".to_string(),
    };
    register(auth, &request, SessionIp(IpAddress::V4(1)))
        .expect("registration should succeed")
        .session
        .id
}

#[test]
fn only_the_owner_touches_a_project() {
    let mut auth = MemoryAuthStore::new(5);
    let mut projects = RedbProjectStore::in_memory().expect("store should open");
    let alice = session_of(&mut auth, "alice");
    let bob = session_of(&mut auth, "bob");

    let made = create_project(&mut auth, &mut projects, Some(&alice), "site".to_string(), None)
        .expect("creation should succeed");
    assert_eq!(made.name, "site");
    let id_text = uuid::Uuid::from_u128(made.id.0).to_string();

    let seen = get_project(&mut auth, &projects, Some(&alice), &id_text).expect("owner reads");
    assert_eq!(seen.id, made.id);
    assert_eq!(
        get_project(&mut auth, &projects, Some(&bob), &id_text).unwrap_err().message(),
        "You don't have permission to access this project"
    );
    assert_eq!(
        update_project(&mut auth, &mut projects, Some(&bob), &id_text, Some("x".to_string()), None)
            .unwrap_err()
            .message(),
        "You don't have permission to update this project"
    );
    assert_eq!(
        delete_project(&mut auth, &mut projects, Some(&bob), &id_text).unwrap_err().message(),
        "You don't have permission to delete this project"
    );
    assert_eq!(
        get_project(&mut auth, &projects, None, &id_text).unwrap_err().message(),
        "Not authenticated"
    );
    assert_eq!(
        get_project(&mut auth, &projects, Some(&SessionId("gone".to_string())), &id_text)
            .unwrap_err()
            .message(),
        "Not authenticated"
    );
    assert_eq!(
        get_project(&mut auth, &projects, Some(&alice), "nonsense").unwrap_err().message(),
        "Invalid project ID"
    );
    assert_eq!(
        get_project(
            &mut auth,
            &projects,
            Some(&alice),
            "00000000-0000-0000-0000-000000000000"
        )
        .unwrap_err()
        .message(),
        "Project not found"
    );
    assert_eq!(
        create_project(&mut auth, &mut projects, None, "x".to_string(), None)
            .unwrap_err()
            .message(),
        "Not authenticated"
    );

    let renamed = update_project(
        &mut auth,
        &mut projects,
        Some(&alice),
        &id_text,
        Some("blog".to_string()),
        Some(Some("words".to_string())),
    )
    .expect("owner updates");
    assert_eq!(renamed.name, "blog");
    assert_eq!(renamed.description.as_deref(), Some("words"));

    let mine = get_my_projects(&mut auth, &projects, Some(&alice)).expect("listing");
    assert_eq!(ids(&mine), vec![made.id.0]);
    assert_eq!(mine[0].name, "blog");
    assert!(get_my_projects(&mut auth, &projects, Some(&bob)).expect("listing").is_empty());
    assert_eq!(
        get_my_projects(&mut auth, &projects, None).unwrap_err().message(),
        "Not authenticated"
    );

    delete_project(&mut auth, &mut projects, Some(&alice), &id_text).expect("owner deletes");
    assert_eq!(
        delete_project(&mut auth, &mut projects, Some(&alice), &id_text).unwrap_err().message(),
        "Project not found"
    );
    assert!(get_my_projects(&mut auth, &projects, Some(&alice)).expect("listing").is_empty());
}
