//! The tables of the transactional backends, as the storage engine keeps
//! them: what a database, a write transaction and a read snapshot hold, and
//! what each table operation does to that. A database of users and sessions
//! has five tables, a database of projects two.
//!
//! Every operation can fail for reasons of the engine; what is stated holds
//! of the calls that succeed.

use vstd::prelude::*;

verus! {

/// A database of the redb engine.
#[verifier::external_type_specification]
#[verifier::external_body]
pub struct ExDatabase(redb::Database);

/// A read/write transaction of the engine. Only one exists at a time.
#[verifier::external_type_specification]
#[verifier::external_body]
pub struct ExWriteTransaction(redb::WriteTransaction);

/// A read-only transaction of the engine: a snapshot of what was committed
/// when it began.
#[verifier::external_type_specification]
#[verifier::external_body]
pub struct ExReadTransaction(redb::ReadTransaction);

/// Any failure that the engine reports.
#[verifier::external_type_specification]
#[verifier::external_body]
pub struct ExEngineError(redb::Error);

/// The rows of the five tables of one database.
#[verifier::ext_equal]
pub struct Tables {
    /// Which database the tables belong to.
    pub home: int,
    /// User records by user id.
    pub users: Map<u128, Seq<u8>>,
    /// User ids by username.
    pub usernames: Map<Seq<char>, u128>,
    /// Session records by token.
    pub sessions: Map<Seq<char>, Seq<u8>>,
    /// The pairs of a user id and a token of one of that user's sessions.
    pub user_sessions: Set<(u128, Seq<char>)>,
    /// Owning user ids by token.
    pub session_user: Map<Seq<char>, u128>,
}

impl Tables {
    /// Five empty tables of the database `home`.
    pub open spec fn empty(home: int) -> Tables {
        Tables {
            home,
            users: Map::empty(),
            usernames: Map::empty(),
            sessions: Map::empty(),
            user_sessions: Set::empty(),
            session_user: Map::empty(),
        }
    }
}

/// The rows of the two project tables of one database.
#[verifier::ext_equal]
pub struct ProjectTables {
    /// Which database the tables belong to.
    pub home: int,
    /// Project records by project id.
    pub projects: Map<u128, Seq<u8>>,
    /// The pairs of an owner's user id and the id of one of the owner's
    /// projects.
    pub user_projects: Set<(u128, u128)>,
}

impl ProjectTables {
    /// Two empty tables of the database `home`.
    pub open spec fn empty(home: int) -> ProjectTables {
        ProjectTables { home, projects: Map::empty(), user_projects: Set::empty() }
    }
}

/// Which database this is. Two handles are never the same database.
pub uninterp spec fn database_id(db: redb::Database) -> int;

/// Which database a write transaction belongs to.
pub uninterp spec fn database_of(txn: redb::WriteTransaction) -> int;

/// The user records committed to a database.
pub uninterp spec fn db_users(db: redb::Database) -> Map<u128, Seq<u8>>;

/// The username index committed to a database.
pub uninterp spec fn db_usernames(db: redb::Database) -> Map<Seq<char>, u128>;

/// The session records committed to a database.
pub uninterp spec fn db_sessions(db: redb::Database) -> Map<Seq<char>, Seq<u8>>;

/// The user-to-sessions index committed to a database.
pub uninterp spec fn db_user_sessions(db: redb::Database) -> Set<(u128, Seq<char>)>;

/// The session-to-user index committed to a database.
pub uninterp spec fn db_session_user(db: redb::Database) -> Map<Seq<char>, u128>;

/// The user records as a write transaction sees them.
pub uninterp spec fn txn_users(txn: redb::WriteTransaction) -> Map<u128, Seq<u8>>;

/// The username index as a write transaction sees it.
pub uninterp spec fn txn_usernames(txn: redb::WriteTransaction) -> Map<Seq<char>, u128>;

/// The session records as a write transaction sees them.
pub uninterp spec fn txn_sessions(txn: redb::WriteTransaction) -> Map<Seq<char>, Seq<u8>>;

/// The user-to-sessions index as a write transaction sees it.
pub uninterp spec fn txn_user_sessions(txn: redb::WriteTransaction) -> Set<(u128, Seq<char>)>;

/// The session-to-user index as a write transaction sees it.
pub uninterp spec fn txn_session_user(txn: redb::WriteTransaction) -> Map<Seq<char>, u128>;

/// The user records in a read snapshot.
pub uninterp spec fn snapshot_users(txn: redb::ReadTransaction) -> Map<u128, Seq<u8>>;

/// The username index in a read snapshot.
pub uninterp spec fn snapshot_usernames(txn: redb::ReadTransaction) -> Map<Seq<char>, u128>;

/// The session records in a read snapshot.
pub uninterp spec fn snapshot_sessions(txn: redb::ReadTransaction) -> Map<Seq<char>, Seq<u8>>;

/// The project records committed to a database.
pub uninterp spec fn db_projects(db: redb::Database) -> Map<u128, Seq<u8>>;

/// The owner-to-projects index committed to a database.
pub uninterp spec fn db_user_projects(db: redb::Database) -> Set<(u128, u128)>;

/// The project records as a write transaction sees them.
pub uninterp spec fn txn_projects(txn: redb::WriteTransaction) -> Map<u128, Seq<u8>>;

/// The owner-to-projects index as a write transaction sees it.
pub uninterp spec fn txn_user_projects(txn: redb::WriteTransaction) -> Set<(u128, u128)>;

/// The project records in a read snapshot.
pub uninterp spec fn snapshot_projects(txn: redb::ReadTransaction) -> Map<u128, Seq<u8>>;

/// The owner-to-projects index in a read snapshot.
pub uninterp spec fn snapshot_user_projects(txn: redb::ReadTransaction) -> Set<(u128, u128)>;

/// The project tables that are committed to a database.
pub open spec fn db_project_tables(db: redb::Database) -> ProjectTables {
    ProjectTables {
        home: database_id(db),
        projects: db_projects(db),
        user_projects: db_user_projects(db),
    }
}

/// The project tables that a write transaction sees.
pub open spec fn txn_project_tables(txn: redb::WriteTransaction) -> ProjectTables {
    ProjectTables {
        home: database_of(txn),
        projects: txn_projects(txn),
        user_projects: txn_user_projects(txn),
    }
}

/// Whether `ids` lists once each project id that `index` pairs with
/// `owner`.
pub open spec fn lists_project_ids(ids: Seq<u128>, index: Set<(u128, u128)>, owner: u128) -> bool {
    &&& forall|i: int| 0 <= i < ids.len() ==> index.contains((owner, #[trigger] ids[i]))
    &&& forall|id: u128| #[trigger]
        index.contains((owner, id)) ==> exists|i: int| 0 <= i < ids.len() && ids[i] == id
    &&& forall|i: int, j: int| 0 <= i < j < ids.len() ==> #[trigger] ids[i] != #[trigger] ids[j]
}

/// All that is committed to a database.
pub open spec fn db_tables(db: redb::Database) -> Tables {
    Tables {
        home: database_id(db),
        users: db_users(db),
        usernames: db_usernames(db),
        sessions: db_sessions(db),
        user_sessions: db_user_sessions(db),
        session_user: db_session_user(db),
    }
}

/// All that a write transaction sees.
pub open spec fn txn_tables(txn: redb::WriteTransaction) -> Tables {
    Tables {
        home: database_of(txn),
        users: txn_users(txn),
        usernames: txn_usernames(txn),
        sessions: txn_sessions(txn),
        user_sessions: txn_user_sessions(txn),
        session_user: txn_session_user(txn),
    }
}

/// What a lookup returns for `key` in `rows`.
pub open spec fn row_at<K, V>(rows: Map<K, V>, key: K) -> Option<V> {
    if rows.contains_key(key) {
        Some(rows[key])
    } else {
        None
    }
}

/// The bytes of an optional row.
pub open spec fn bytes_of(row: Option<Vec<u8>>) -> Option<Seq<u8>> {
    match row {
        Some(bytes) => Some(bytes@),
        None => None,
    }
}

/// Whether `tokens` lists once each token that `index` pairs with `uid`.
pub open spec fn lists_tokens(
    tokens: Seq<String>,
    index: Set<(u128, Seq<char>)>,
    uid: u128,
) -> bool {
    &&& forall|i: int| 0 <= i < tokens.len() ==> index.contains((uid, #[trigger] tokens[i]@))
    &&& forall|token: Seq<char>| #[trigger]
        index.contains((uid, token)) ==> exists|i: int| 0 <= i < tokens.len() && tokens[i]@ == token
    &&& forall|i: int, j: int|
        0 <= i < j < tokens.len() ==> #[trigger] tokens[i]@ != #[trigger] tokens[j]@
}

/// `Database::create`: opens the file at `path` as a database, making a new
/// one where there is none. Nothing is claimed of what an existing file
/// holds.
#[verifier::external_body]
pub(crate) fn open_database(path: &str) -> (r: Result<redb::Database, redb::Error>)
{
    Ok(redb::Database::create(path)?)
}

/// `Builder::create_with_backend` on a new `InMemoryBackend`: a new database
/// that no file backs. It starts without any table.
#[verifier::external_body]
pub(crate) fn open_memory_database() -> (r: Result<redb::Database, redb::Error>)
    ensures
        r matches Ok(db) ==> db_tables(db) == Tables::empty(database_id(db)),
        r matches Ok(db) ==> db_project_tables(db) == ProjectTables::empty(database_id(db)),
{
    Ok(redb::Builder::new().create_with_backend(redb::backends::InMemoryBackend::new())?)
}

/// `Database::begin_write`: the transaction belongs to the database and
/// starts from what is committed. The call waits for as long as another
/// write transaction of the database is alive; the stores hold one at a
/// time.
#[verifier::external_body]
pub(crate) fn begin_write(db: &redb::Database) -> (r: Result<redb::WriteTransaction, redb::Error>)
    ensures
        r matches Ok(txn) ==> database_of(txn) == database_id(*db),
        r matches Ok(txn) ==> txn_users(txn) == db_users(*db),
        r matches Ok(txn) ==> txn_usernames(txn) == db_usernames(*db),
        r matches Ok(txn) ==> txn_sessions(txn) == db_sessions(*db),
        r matches Ok(txn) ==> txn_user_sessions(txn) == db_user_sessions(*db),
        r matches Ok(txn) ==> txn_session_user(txn) == db_session_user(*db),
        r matches Ok(txn) ==> txn_projects(txn) == db_projects(*db),
        r matches Ok(txn) ==> txn_user_projects(txn) == db_user_projects(*db),
{
    Ok(db.begin_write()?)
}

/// `ReadableDatabase::begin_read`: the snapshot shows what is committed.
#[verifier::external_body]
pub(crate) fn begin_read(db: &redb::Database) -> (r: Result<redb::ReadTransaction, redb::Error>)
    ensures
        r matches Ok(txn) ==> snapshot_users(txn) == db_users(*db),
        r matches Ok(txn) ==> snapshot_usernames(txn) == db_usernames(*db),
        r matches Ok(txn) ==> snapshot_sessions(txn) == db_sessions(*db),
        r matches Ok(txn) ==> snapshot_projects(txn) == db_projects(*db),
        r matches Ok(txn) ==> snapshot_user_projects(txn) == db_user_projects(*db),
{
    Ok(redb::ReadableDatabase::begin_read(db)?)
}

/// `WriteTransaction::commit`, for a transaction of the database `db`: on
/// success the database holds what the transaction saw. A commit is atomic:
/// one that fails has left the database as it was, or has taken effect as a
/// whole.
#[verifier::external_body]
pub(crate) fn commit(txn: redb::WriteTransaction, db: &mut redb::Database) -> (r: Result<
    (),
    redb::Error,
>)
    requires
        database_of(txn) == database_id(*old(db)),
    ensures
        r is Ok ==> db_tables(*final(db)) == txn_tables(txn),
        r is Ok ==> db_project_tables(*final(db)) == txn_project_tables(txn),
        r is Err ==> {
            ||| db_tables(*final(db)) == db_tables(*old(db)) && db_project_tables(*final(db))
                == db_project_tables(*old(db))
            ||| db_tables(*final(db)) == txn_tables(txn) && db_project_tables(*final(db))
                == txn_project_tables(txn)
        },
{
    let _ = db;
    Ok(txn.commit()?)
}

/// Opens each of the five tables with `open_table` or
/// `open_multimap_table`, which makes a table that does not exist yet. The
/// rows stay as they are: a table that is made has none.
#[verifier::external_body]
pub(crate) fn create_tables(txn: &mut redb::WriteTransaction) -> (r: Result<(), redb::Error>)
    ensures
        r is Ok ==> txn_tables(*final(txn)) == txn_tables(*old(txn)),
{
    txn.open_table(redb::TableDefinition::<u128, Vec<u8>>::new("users"))?;
    txn.open_table(redb::TableDefinition::<&str, u128>::new("usernames"))?;
    txn.open_table(redb::TableDefinition::<&str, Vec<u8>>::new("sessions"))?;
    txn.open_multimap_table(redb::MultimapTableDefinition::<u128, &str>::new("user_sessions_v2"))?;
    txn.open_table(redb::TableDefinition::<&str, u128>::new("session_user"))?;
    Ok(())
}

/// `get` on the table `users`.
#[verifier::external_body]
pub(crate) fn users_get(txn: &redb::WriteTransaction, id: u128) -> (r: Result<
    Option<Vec<u8>>,
    redb::Error,
>)
    ensures
        r matches Ok(row) ==> bytes_of(row) == row_at(txn_users(*txn), id),
{
    let table = txn.open_table(redb::TableDefinition::<u128, Vec<u8>>::new("users"))?;
    let row = redb::ReadableTable::get(&table, id)?;
    Ok(row.map(|guard| guard.value()))
}

/// `insert` on the table `users`: the row under `id` becomes `bytes`.
#[verifier::external_body]
pub(crate) fn users_insert(txn: &mut redb::WriteTransaction, id: u128, bytes: Vec<u8>) -> (r: Result<
    (),
    redb::Error,
>)
    ensures
        r is Ok ==> txn_tables(*final(txn)) == (Tables {
            users: txn_users(*old(txn)).insert(id, bytes@),
            ..txn_tables(*old(txn))
        }),
{
    let mut table = txn.open_table(redb::TableDefinition::<u128, Vec<u8>>::new("users"))?;
    table.insert(id, bytes)?;
    Ok(())
}

/// `remove` on the table `users`: the row under `id` goes and is returned.
#[verifier::external_body]
pub(crate) fn users_remove(txn: &mut redb::WriteTransaction, id: u128) -> (r: Result<
    Option<Vec<u8>>,
    redb::Error,
>)
    ensures
        r is Ok ==> txn_tables(*final(txn)) == (Tables {
            users: txn_users(*old(txn)).remove(id),
            ..txn_tables(*old(txn))
        }),
        r matches Ok(row) ==> bytes_of(row) == row_at(txn_users(*old(txn)), id),
{
    let mut table = txn.open_table(redb::TableDefinition::<u128, Vec<u8>>::new("users"))?;
    let row = table.remove(id)?;
    Ok(row.map(|guard| guard.value()))
}

/// `get` on the table `usernames`.
#[verifier::external_body]
pub(crate) fn usernames_get(txn: &redb::WriteTransaction, name: &str) -> (r: Result<
    Option<u128>,
    redb::Error,
>)
    ensures
        r matches Ok(row) ==> row == row_at(txn_usernames(*txn), name@),
{
    let table = txn.open_table(redb::TableDefinition::<&str, u128>::new("usernames"))?;
    let row = redb::ReadableTable::get(&table, name)?;
    Ok(row.map(|guard| guard.value()))
}

/// `insert` on the table `usernames`: the row under `name` becomes `id`.
#[verifier::external_body]
pub(crate) fn usernames_insert(txn: &mut redb::WriteTransaction, name: &str, id: u128) -> (r: Result<
    (),
    redb::Error,
>)
    ensures
        r is Ok ==> txn_tables(*final(txn)) == (Tables {
            usernames: txn_usernames(*old(txn)).insert(name@, id),
            ..txn_tables(*old(txn))
        }),
{
    let mut table = txn.open_table(redb::TableDefinition::<&str, u128>::new("usernames"))?;
    table.insert(name, id)?;
    Ok(())
}

/// `remove` on the table `usernames`: the row under `name` goes.
#[verifier::external_body]
pub(crate) fn usernames_remove(txn: &mut redb::WriteTransaction, name: &str) -> (r: Result<
    (),
    redb::Error,
>)
    ensures
        r is Ok ==> txn_tables(*final(txn)) == (Tables {
            usernames: txn_usernames(*old(txn)).remove(name@),
            ..txn_tables(*old(txn))
        }),
{
    let mut table = txn.open_table(redb::TableDefinition::<&str, u128>::new("usernames"))?;
    table.remove(name)?;
    Ok(())
}

/// `get` on the table `sessions`.
#[verifier::external_body]
pub(crate) fn sessions_get(txn: &redb::WriteTransaction, token: &str) -> (r: Result<
    Option<Vec<u8>>,
    redb::Error,
>)
    ensures
        r matches Ok(row) ==> bytes_of(row) == row_at(txn_sessions(*txn), token@),
{
    let table = txn.open_table(redb::TableDefinition::<&str, Vec<u8>>::new("sessions"))?;
    let row = redb::ReadableTable::get(&table, token)?;
    Ok(row.map(|guard| guard.value()))
}

/// `insert` on the table `sessions`: the row under `token` becomes `bytes`.
#[verifier::external_body]
pub(crate) fn sessions_insert(txn: &mut redb::WriteTransaction, token: &str, bytes: Vec<u8>) -> (r:
    Result<(), redb::Error>)
    ensures
        r is Ok ==> txn_tables(*final(txn)) == (Tables {
            sessions: txn_sessions(*old(txn)).insert(token@, bytes@),
            ..txn_tables(*old(txn))
        }),
{
    let mut table = txn.open_table(redb::TableDefinition::<&str, Vec<u8>>::new("sessions"))?;
    table.insert(token, bytes)?;
    Ok(())
}

/// `remove` on the table `sessions`: the row under `token` goes.
#[verifier::external_body]
pub(crate) fn sessions_remove(txn: &mut redb::WriteTransaction, token: &str) -> (r: Result<
    (),
    redb::Error,
>)
    ensures
        r is Ok ==> txn_tables(*final(txn)) == (Tables {
            sessions: txn_sessions(*old(txn)).remove(token@),
            ..txn_tables(*old(txn))
        }),
{
    let mut table = txn.open_table(redb::TableDefinition::<&str, Vec<u8>>::new("sessions"))?;
    table.remove(token)?;
    Ok(())
}

/// `get` on the multimap table `user_sessions_v2`, collected: the tokens
/// paired with `uid`.
#[verifier::external_body]
pub(crate) fn user_sessions_get(txn: &redb::WriteTransaction, uid: u128) -> (r: Result<
    Vec<String>,
    redb::Error,
>)
    ensures
        r matches Ok(tokens) ==> lists_tokens(tokens@, txn_user_sessions(*txn), uid),
{
    let table = txn.open_multimap_table(
        redb::MultimapTableDefinition::<u128, &str>::new("user_sessions_v2"),
    )?;
    let values = redb::ReadableMultimapTable::get(&table, uid)?;
    let tokens: Result<Vec<String>, redb::StorageError> = values.map(
        |item| item.map(|guard| guard.value().to_string()),
    ).collect();
    Ok(tokens?)
}

/// `insert` on the multimap table `user_sessions_v2`: `uid` is paired with
/// `token`.
#[verifier::external_body]
pub(crate) fn user_sessions_insert(txn: &mut redb::WriteTransaction, uid: u128, token: &str) -> (r:
    Result<(), redb::Error>)
    ensures
        r is Ok ==> txn_tables(*final(txn)) == (Tables {
            user_sessions: txn_user_sessions(*old(txn)).insert((uid, token@)),
            ..txn_tables(*old(txn))
        }),
{
    let mut table = txn.open_multimap_table(
        redb::MultimapTableDefinition::<u128, &str>::new("user_sessions_v2"),
    )?;
    table.insert(uid, token)?;
    Ok(())
}

/// `remove` on the multimap table `user_sessions_v2`: `uid` is no longer
/// paired with `token`.
#[verifier::external_body]
pub(crate) fn user_sessions_remove(txn: &mut redb::WriteTransaction, uid: u128, token: &str) -> (r:
    Result<(), redb::Error>)
    ensures
        r is Ok ==> txn_tables(*final(txn)) == (Tables {
            user_sessions: txn_user_sessions(*old(txn)).remove((uid, token@)),
            ..txn_tables(*old(txn))
        }),
{
    let mut table = txn.open_multimap_table(
        redb::MultimapTableDefinition::<u128, &str>::new("user_sessions_v2"),
    )?;
    table.remove(uid, token)?;
    Ok(())
}

/// `remove_all` on the multimap table `user_sessions_v2`: `uid` is no
/// longer paired with any token.
#[verifier::external_body]
pub(crate) fn user_sessions_remove_all(txn: &mut redb::WriteTransaction, uid: u128) -> (r: Result<
    (),
    redb::Error,
>)
    ensures
        r is Ok ==> txn_tables(*final(txn)) == (Tables {
            user_sessions: txn_user_sessions(*old(txn)).filter(
                |pair: (u128, Seq<char>)| pair.0 != uid,
            ),
            ..txn_tables(*old(txn))
        }),
{
    let mut table = txn.open_multimap_table(
        redb::MultimapTableDefinition::<u128, &str>::new("user_sessions_v2"),
    )?;
    table.remove_all(uid)?;
    Ok(())
}

/// `get` on the table `session_user`.
#[verifier::external_body]
pub(crate) fn session_user_get(txn: &redb::WriteTransaction, token: &str) -> (r: Result<
    Option<u128>,
    redb::Error,
>)
    ensures
        r matches Ok(row) ==> row == row_at(txn_session_user(*txn), token@),
{
    let table = txn.open_table(redb::TableDefinition::<&str, u128>::new("session_user"))?;
    let row = redb::ReadableTable::get(&table, token)?;
    Ok(row.map(|guard| guard.value()))
}

/// `insert` on the table `session_user`: the row under `token` becomes
/// `uid`.
#[verifier::external_body]
pub(crate) fn session_user_insert(txn: &mut redb::WriteTransaction, token: &str, uid: u128) -> (r:
    Result<(), redb::Error>)
    ensures
        r is Ok ==> txn_tables(*final(txn)) == (Tables {
            session_user: txn_session_user(*old(txn)).insert(token@, uid),
            ..txn_tables(*old(txn))
        }),
{
    let mut table = txn.open_table(redb::TableDefinition::<&str, u128>::new("session_user"))?;
    table.insert(token, uid)?;
    Ok(())
}

/// `remove` on the table `session_user`: the row under `token` goes.
#[verifier::external_body]
pub(crate) fn session_user_remove(txn: &mut redb::WriteTransaction, token: &str) -> (r: Result<
    (),
    redb::Error,
>)
    ensures
        r is Ok ==> txn_tables(*final(txn)) == (Tables {
            session_user: txn_session_user(*old(txn)).remove(token@),
            ..txn_tables(*old(txn))
        }),
{
    let mut table = txn.open_table(redb::TableDefinition::<&str, u128>::new("session_user"))?;
    table.remove(token)?;
    Ok(())
}

/// `get` on the table `users` of a read snapshot.
#[verifier::external_body]
pub(crate) fn snapshot_users_get(txn: &redb::ReadTransaction, id: u128) -> (r: Result<
    Option<Vec<u8>>,
    redb::Error,
>)
    ensures
        r matches Ok(row) ==> bytes_of(row) == row_at(snapshot_users(*txn), id),
{
    let table = txn.open_table(redb::TableDefinition::<u128, Vec<u8>>::new("users"))?;
    let row = table.get(id)?;
    Ok(row.map(|guard| guard.value()))
}

/// `get` on the table `usernames` of a read snapshot.
#[verifier::external_body]
pub(crate) fn snapshot_usernames_get(txn: &redb::ReadTransaction, name: &str) -> (r: Result<
    Option<u128>,
    redb::Error,
>)
    ensures
        r matches Ok(row) ==> row == row_at(snapshot_usernames(*txn), name@),
{
    let table = txn.open_table(redb::TableDefinition::<&str, u128>::new("usernames"))?;
    let row = table.get(name)?;
    Ok(row.map(|guard| guard.value()))
}

/// `get` on the table `sessions` of a read snapshot.
#[verifier::external_body]
pub(crate) fn snapshot_sessions_get(txn: &redb::ReadTransaction, token: &str) -> (r: Result<
    Option<Vec<u8>>,
    redb::Error,
>)
    ensures
        r matches Ok(row) ==> bytes_of(row) == row_at(snapshot_sessions(*txn), token@),
{
    let table = txn.open_table(redb::TableDefinition::<&str, Vec<u8>>::new("sessions"))?;
    let row = table.get(token)?;
    Ok(row.map(|guard| guard.value()))
}

/// Opens each of the two project tables with `open_table` or
/// `open_multimap_table`, which makes a table that does not exist yet. The
/// rows stay as they are: a table that is made has none.
#[verifier::external_body]
pub(crate) fn create_project_tables(txn: &mut redb::WriteTransaction) -> (r: Result<
    (),
    redb::Error,
>)
    ensures
        r is Ok ==> txn_project_tables(*final(txn)) == txn_project_tables(*old(txn)),
{
    txn.open_table(redb::TableDefinition::<u128, Vec<u8>>::new("projects"))?;
    txn.open_multimap_table(redb::MultimapTableDefinition::<u128, u128>::new("user_projects"))?;
    Ok(())
}

/// `get` on the table `projects`.
#[verifier::external_body]
pub(crate) fn projects_get(txn: &redb::WriteTransaction, id: u128) -> (r: Result<
    Option<Vec<u8>>,
    redb::Error,
>)
    ensures
        r matches Ok(row) ==> bytes_of(row) == row_at(txn_projects(*txn), id),
{
    let table = txn.open_table(redb::TableDefinition::<u128, Vec<u8>>::new("projects"))?;
    let row = redb::ReadableTable::get(&table, id)?;
    Ok(row.map(|guard| guard.value()))
}

/// `insert` on the table `projects`: the row under `id` becomes `bytes`.
#[verifier::external_body]
pub(crate) fn projects_insert(txn: &mut redb::WriteTransaction, id: u128, bytes: Vec<u8>) -> (r:
    Result<(), redb::Error>)
    ensures
        r is Ok ==> txn_project_tables(*final(txn)) == (ProjectTables {
            projects: txn_projects(*old(txn)).insert(id, bytes@),
            ..txn_project_tables(*old(txn))
        }),
{
    let mut table = txn.open_table(redb::TableDefinition::<u128, Vec<u8>>::new("projects"))?;
    table.insert(id, bytes)?;
    Ok(())
}

/// `remove` on the table `projects`: the row under `id` goes and is
/// returned.
#[verifier::external_body]
pub(crate) fn projects_remove(txn: &mut redb::WriteTransaction, id: u128) -> (r: Result<
    Option<Vec<u8>>,
    redb::Error,
>)
    ensures
        r is Ok ==> txn_project_tables(*final(txn)) == (ProjectTables {
            projects: txn_projects(*old(txn)).remove(id),
            ..txn_project_tables(*old(txn))
        }),
        r matches Ok(row) ==> bytes_of(row) == row_at(txn_projects(*old(txn)), id),
{
    let mut table = txn.open_table(redb::TableDefinition::<u128, Vec<u8>>::new("projects"))?;
    let row = table.remove(id)?;
    Ok(row.map(|guard| guard.value()))
}

/// `insert` on the multimap table `user_projects`: `owner` is paired with
/// `id`.
#[verifier::external_body]
pub(crate) fn user_projects_insert(txn: &mut redb::WriteTransaction, owner: u128, id: u128) -> (r:
    Result<(), redb::Error>)
    ensures
        r is Ok ==> txn_project_tables(*final(txn)) == (ProjectTables {
            user_projects: txn_user_projects(*old(txn)).insert((owner, id)),
            ..txn_project_tables(*old(txn))
        }),
{
    let mut table = txn.open_multimap_table(
        redb::MultimapTableDefinition::<u128, u128>::new("user_projects"),
    )?;
    table.insert(owner, id)?;
    Ok(())
}

/// `remove` on the multimap table `user_projects`: `owner` is no longer
/// paired with `id`.
#[verifier::external_body]
pub(crate) fn user_projects_remove(txn: &mut redb::WriteTransaction, owner: u128, id: u128) -> (r:
    Result<(), redb::Error>)
    ensures
        r is Ok ==> txn_project_tables(*final(txn)) == (ProjectTables {
            user_projects: txn_user_projects(*old(txn)).remove((owner, id)),
            ..txn_project_tables(*old(txn))
        }),
{
    let mut table = txn.open_multimap_table(
        redb::MultimapTableDefinition::<u128, u128>::new("user_projects"),
    )?;
    table.remove(owner, id)?;
    Ok(())
}

/// `get` on the table `projects` of a read snapshot.
#[verifier::external_body]
pub(crate) fn snapshot_projects_get(txn: &redb::ReadTransaction, id: u128) -> (r: Result<
    Option<Vec<u8>>,
    redb::Error,
>)
    ensures
        r matches Ok(row) ==> bytes_of(row) == row_at(snapshot_projects(*txn), id),
{
    let table = txn.open_table(redb::TableDefinition::<u128, Vec<u8>>::new("projects"))?;
    let row = table.get(id)?;
    Ok(row.map(|guard| guard.value()))
}

/// `get` on the multimap table `user_projects` of a read snapshot,
/// collected: the project ids paired with `owner`.
#[verifier::external_body]
pub(crate) fn snapshot_user_projects_get(txn: &redb::ReadTransaction, owner: u128) -> (r: Result<
    Vec<u128>,
    redb::Error,
>)
    ensures
        r matches Ok(ids) ==> lists_project_ids(ids@, snapshot_user_projects(*txn), owner),
{
    let table = txn.open_multimap_table(
        redb::MultimapTableDefinition::<u128, u128>::new("user_projects"),
    )?;
    let values = table.get(owner)?;
    let ids: Result<Vec<u128>, redb::StorageError> = values.map(
        |item| item.map(|guard| guard.value()),
    ).collect();
    Ok(ids?)
}

/// The message of an engine failure, as its `Display` impl writes it.
#[verifier::external_body]
pub(crate) fn engine_error_text(e: &redb::Error) -> (text: String)
{
    e.to_string()
}

} // verus!
