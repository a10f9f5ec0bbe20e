//! The transactional backend: five tables in one database, changed only
//! inside transactions.

use vstd::prelude::*;
use crate::clock::Timestamp;
use crate::credentials::PasswordHash;
use crate::error::AuthError;
use crate::model::{
    create_user_post, delete_user_post, extend_session_post, fetch_session_post, is_fault,
    issue_session_post, new_session, new_user, revoke_session_post, set_password_hash_post,
    StoreState,
};
use crate::storage::codec::{decode_session, decode_user, session_row, user_row};
use crate::storage::schema::{
    lemma_consistent_state_wf, lemma_index_matches_sessions, lemma_session_row_refines,
    lemma_session_row_replaced_refines, lemma_user_row_refines, lemma_user_row_replaced_refines,
    lemma_without_session_refines, lemma_without_sessions_refines, lemma_without_user_refines,
};
use crate::storage::tables::{
    begin_read, begin_write, bytes_of, commit, create_tables, db_tables, open_database,
    open_memory_database, row_at, snapshot_sessions_get, snapshot_usernames_get,
    snapshot_users_get, txn_tables, Tables,
};
use crate::storage::transactions::{
    cleanup_session_in, create_user_in, delete_user_in, engine_fault, extend_session_in,
    issue_session_in, revoke_session_in, set_password_hash_in,
};
use crate::storage::AuthStore;
use crate::types::{Role, Session, SessionId, SessionIp, User, UserId, Username};

verus! {

/// A store that keeps users and sessions in a database of the redb engine.
/// Every operation runs in transactions of its own; what it changes becomes
/// visible at once, on commit, or not at all.
pub struct RedbAuthStore {
    db: redb::Database,
    max_sessions_per_user: usize,
}

impl RedbAuthStore {
    /// The rows that are committed to the database.
    pub closed spec fn tables(&self) -> Tables {
        db_tables(self.db)
    }

    /// Makes sure that the five tables exist, then wraps the database.
    fn with_database(db: redb::Database, max_sessions_per_user: usize) -> (r: Result<
        Self,
        AuthError,
    >)
        ensures
            match r {
                Ok(store) => store.session_cap() == max_sessions_per_user && store.tables()
                    == db_tables(db),
                Err(e) => e is Internal,
            },
    {
        let mut store = RedbAuthStore { db, max_sessions_per_user };
        let mut txn = match begin_write(&store.db) {
            Ok(txn) => txn,
            Err(e) => {
                return Err(engine_fault(&e));
            },
        };
        match create_tables(&mut txn) {
            Ok(()) => {},
            Err(e) => {
                return Err(engine_fault(&e));
            },
        }
        match commit(txn, &mut store.db) {
            Ok(()) => {
                assert(store.tables() =~= db_tables(db));
                Ok(store)
            },
            Err(e) => Err(engine_fault(&e)),
        }
    }

    /// Opens the database file at `path`, creating it where there is none,
    /// and makes sure that the five tables exist. Nothing is known of what
    /// an existing file holds.
    pub fn new(path: &str, max_sessions_per_user: usize) -> (r: Result<Self, AuthError>)
        ensures
            match r {
                Ok(store) => store.session_cap() == max_sessions_per_user && store.may_fault(),
                Err(e) => e is Internal,
            },
    {
        match open_database(path) {
            Ok(db) => Self::with_database(db, max_sessions_per_user),
            Err(e) => Err(engine_fault(&e)),
        }
    }

    /// A store on a new database that lives in memory only. It starts
    /// empty.
    pub fn in_memory(max_sessions_per_user: usize) -> (r: Result<Self, AuthError>)
        ensures
            match r {
                Ok(store) => {
                    &&& store.session_cap() == max_sessions_per_user
                    &&& store.may_fault()
                    &&& store.tables() == Tables::empty(store.tables().home)
                    &&& store.consistent()
                    &&& store.state() == StoreState::empty()
                },
                Err(e) => e is Internal,
            },
    {
        match open_memory_database() {
            Ok(db) => match Self::with_database(db, max_sessions_per_user) {
                Ok(store) => {
                    assert(store.tables().state() =~= StoreState::empty());
                    Ok(store)
                },
                Err(e) => Err(e),
            },
            Err(e) => Err(engine_fault(&e)),
        }
    }

    /// The session row under `token` as committed, read in a snapshot.
    fn read_session_row(&self, token: &SessionId) -> (r: Result<Option<Vec<u8>>, AuthError>)
        ensures
            match r {
                Ok(row) => bytes_of(row) == row_at(self.tables().sessions, token@),
                Err(e) => e is Internal,
            },
    {
        let snapshot = match begin_read(&self.db) {
            Ok(snapshot) => snapshot,
            Err(e) => {
                return Err(engine_fault(&e));
            },
        };
        match snapshot_sessions_get(&snapshot, token.as_str()) {
            Ok(row) => Ok(row),
            Err(e) => Err(engine_fault(&e)),
        }
    }

    /// Removes, in a transaction of its own, what the session tables hold of
    /// the expired session `token`, and reports the session as invalid.
    fn discard_expired(&mut self, token: &SessionId, now: Timestamp) -> (r: Result<
        Session,
        AuthError,
    >)
        requires
            old(self).tables().session_in(token@) matches Some(stored) && !stored.live_at(now),
        ensures
            final(self).session_cap() == old(self).session_cap(),
            r is Err,
            r matches Err(e) ==> e is Internal || e is InvalidSession,
            r matches Err(AuthError::InvalidSession) ==> final(self).tables()
                == old(self).tables().without_indexed_session(token@),
            old(self).consistent() ==> final(self).consistent(),
            old(self).consistent() ==> {
                ||| fetch_session_post(old(self).state(), final(self).state(), token@, now, r)
                ||| is_fault(r) && (final(self).state() == old(self).state() || fetch_session_post(
                    old(self).state(),
                    final(self).state(),
                    token@,
                    now,
                    Err::<Session, AuthError>(AuthError::InvalidSession),
                ))
            },
    {
        proof {
            if self.consistent() {
                lemma_consistent_state_wf(self.tables());
                lemma_without_session_refines(self.tables(), token@);
            }
        }
        let mut txn = match begin_write(&self.db) {
            Ok(txn) => txn,
            Err(e) => {
                return Err(engine_fault(&e));
            },
        };
        assert(txn_tables(txn) =~= self.tables());
        match cleanup_session_in(&mut txn, token) {
            Ok(()) => {},
            Err(e) => {
                return Err(e);
            },
        }
        match commit(txn, &mut self.db) {
            Ok(()) => Err(AuthError::InvalidSession),
            Err(e) => Err(engine_fault(&e)),
        }
    }
}

impl AuthStore for RedbAuthStore {
    open spec fn state(&self) -> StoreState {
        self.tables().state()
    }

    open spec fn consistent(&self) -> bool {
        self.tables().consistent()
    }

    open spec fn may_fault(&self) -> bool {
        true
    }

    closed spec fn session_cap(&self) -> usize {
        self.max_sessions_per_user
    }

    proof fn lemma_consistent_is_wf(&self) {
        lemma_consistent_state_wf(self.tables());
    }

    fn max_sessions_per_user(&self) -> (max: usize) {
        self.max_sessions_per_user
    }

    fn create_user_with_id(
        &mut self,
        username: &Username,
        password_hash: PasswordHash,
        role: Role,
        id: UserId,
    ) -> (r: Result<User, AuthError>)
        ensures
            !is_fault(r) ==> (r is Ok <==> !old(self).tables().usernames.contains_key(username@)),
            r matches Ok(user) ==> {
                &&& !old(self).tables().users.contains_key(id.0)
                &&& user@ == new_user(id.0, username@, password_hash@, role)
            },
            r matches Ok(user) ==> final(self).tables() == old(self).tables().with_user_row(
                id.0,
                username@,
                user_row(user@),
            ),
            r matches Err(e) ==> e is Internal || {
                &&& e is UserExists
                &&& old(self).tables().usernames.contains_key(username@)
                &&& final(self).tables() == old(self).tables()
            },
    {
        let ghost pre = self.tables();
        let ghost hash = password_hash@;
        proof {
            if self.consistent() {
                lemma_consistent_state_wf(pre);
            }
        }
        let mut txn = match begin_write(&self.db) {
            Ok(txn) => txn,
            Err(e) => {
                return Err(engine_fault(&e));
            },
        };
        assert(txn_tables(txn) =~= pre);
        let user = match create_user_in(&mut txn, username, password_hash, role, id) {
            Ok(user) => user,
            Err(e) => {
                return Err(e);
            },
        };
        proof {
            if pre.consistent() {
                lemma_user_row_refines(pre, user@);
                assert(create_user_post(
                    pre.state(),
                    txn_tables(txn).state(),
                    username@,
                    hash,
                    role,
                    id.0,
                    Ok::<User, AuthError>(user),
                ));
            }
        }
        match commit(txn, &mut self.db) {
            Ok(()) => Ok(user),
            Err(e) => Err(engine_fault(&e)),
        }
    }

    fn get_user_by_id(&self, id: &UserId) -> (r: Result<User, AuthError>)
        ensures
            match r {
                Ok(user) => self.tables().user_in(id.0) == Some(user@),
                Err(AuthError::NotFound) => !self.tables().users.contains_key(id.0),
                Err(e) => e is Internal,
            },
    {
        proof {
            if self.consistent() {
                lemma_consistent_state_wf(self.tables());
            }
        }
        let snapshot = match begin_read(&self.db) {
            Ok(snapshot) => snapshot,
            Err(e) => {
                return Err(engine_fault(&e));
            },
        };
        match snapshot_users_get(&snapshot, id.0) {
            Ok(Some(row)) => decode_user(row.as_slice()),
            Ok(None) => Err(AuthError::NotFound),
            Err(e) => Err(engine_fault(&e)),
        }
    }

    fn get_user_by_username(&self, username: &Username) -> (r: Result<User, AuthError>)
        ensures
            match r {
                Ok(user) => self.tables().usernames.contains_key(username@)
                    && self.tables().user_in(self.tables().usernames[username@]) == Some(user@),
                Err(AuthError::NotFound) => !self.tables().usernames.contains_key(username@)
                    || !self.tables().users.contains_key(self.tables().usernames[username@]),
                Err(e) => e is Internal,
            },
    {
        proof {
            if self.consistent() {
                lemma_consistent_state_wf(self.tables());
            }
        }
        let snapshot = match begin_read(&self.db) {
            Ok(snapshot) => snapshot,
            Err(e) => {
                return Err(engine_fault(&e));
            },
        };
        let id = match snapshot_usernames_get(&snapshot, username.as_str()) {
            Ok(Some(id)) => id,
            Ok(None) => {
                return Err(AuthError::NotFound);
            },
            Err(e) => {
                return Err(engine_fault(&e));
            },
        };
        match snapshot_users_get(&snapshot, id) {
            Ok(Some(row)) => {
                let r = decode_user(row.as_slice());
                proof {
                    if self.consistent() && r is Ok {
                        assert(self.tables().users.contains_key(id));
                        assert(self.state().names_user(username@, id));
                    }
                }
                r
            },
            // The index names a user whose row is missing: the tables
            // disagree. The caller is told that there is no such user.
            Ok(None) => Err(AuthError::NotFound),
            Err(e) => Err(engine_fault(&e)),
        }
    }

    fn set_password_hash(&mut self, id: &UserId, new_hash: PasswordHash) -> (r: Result<
        PasswordHash,
        AuthError,
    >)
        ensures
            !is_fault(r) ==> (r is Ok <==> old(self).tables().users.contains_key(id.0)),
            r matches Ok(hash) ==> hash@ == new_hash@,
            r matches Ok(_) ==> {
                &&& old(self).tables().user_in(id.0) matches Some(user)
                &&& final(self).tables() == old(self).tables().with_user_row_replaced(
                    id.0,
                    user_row(user.with_password_hash(new_hash@)),
                )
            },
            r matches Err(e) ==> e is Internal || {
                &&& e is NotFound
                &&& !old(self).tables().users.contains_key(id.0)
                &&& final(self).tables() == old(self).tables()
            },
    {
        let ghost pre = self.tables();
        let ghost hash = new_hash@;
        proof {
            if self.consistent() {
                lemma_consistent_state_wf(pre);
            }
        }
        let mut txn = match begin_write(&self.db) {
            Ok(txn) => txn,
            Err(e) => {
                return Err(engine_fault(&e));
            },
        };
        assert(txn_tables(txn) =~= pre);
        let stored = match set_password_hash_in(&mut txn, id, new_hash) {
            Ok(stored) => stored,
            Err(e) => {
                return Err(e);
            },
        };
        proof {
            if pre.consistent() {
                lemma_user_row_replaced_refines(pre, id.0, hash);
                assert(set_password_hash_post(
                    pre.state(),
                    txn_tables(txn).state(),
                    id.0,
                    hash,
                    Ok::<PasswordHash, AuthError>(stored),
                ));
            }
        }
        match commit(txn, &mut self.db) {
            Ok(()) => Ok(stored),
            Err(e) => Err(engine_fault(&e)),
        }
    }

    fn delete_user(&mut self, id: &UserId) -> (r: Result<(), AuthError>)
        ensures
            !is_fault(r) ==> (r is Ok <==> old(self).tables().users.contains_key(id.0)),
            r matches Ok(_) ==> {
                &&& old(self).tables().user_in(id.0) matches Some(user)
                &&& final(self).tables() == old(self).tables().without_user(id.0, user.username)
            },
            r matches Err(e) ==> e is Internal || {
                &&& e is NotFound
                &&& !old(self).tables().users.contains_key(id.0)
                &&& final(self).tables() == old(self).tables()
            },
    {
        let ghost pre = self.tables();
        proof {
            if self.consistent() {
                lemma_consistent_state_wf(pre);
            }
        }
        let mut txn = match begin_write(&self.db) {
            Ok(txn) => txn,
            Err(e) => {
                return Err(engine_fault(&e));
            },
        };
        assert(txn_tables(txn) =~= pre);
        match delete_user_in(&mut txn, id) {
            Ok(()) => {},
            Err(e) => {
                return Err(e);
            },
        }
        proof {
            if pre.consistent() {
                lemma_without_user_refines(pre, id.0);
                assert(delete_user_post(
                    pre.state(),
                    txn_tables(txn).state(),
                    id.0,
                    Ok::<(), AuthError>(()),
                ));
            }
        }
        match commit(txn, &mut self.db) {
            Ok(()) => Ok(()),
            Err(e) => Err(engine_fault(&e)),
        }
    }

    fn issue_session_with(
        &mut self,
        id: &UserId,
        ip: SessionIp,
        now: Timestamp,
        token: SessionId,
    ) -> (r: Result<Session, AuthError>)
        ensures
            !is_fault(r) ==> (r matches Err(AuthError::NotFound)
                <==> !old(self).tables().users.contains_key(id.0)),
            !is_fault(r) && old(self).tables().users.contains_key(id.0) ==> (r matches Err(
                AuthError::SessionLimitReached,
            ) <==> old(self).tables().live_tokens(id.0, now).len() >= old(self).session_cap()),
            r matches Ok(session) ==> session@ == new_session(token@, id.0, ip, now),
            r matches Ok(session) ==> final(self).tables() == old(self).tables().without_sessions(
                id.0,
                old(self).tables().stale_tokens(id.0, now),
            ).with_session_row(id.0, token@, session_row(session@)),
            r matches Err(e) ==> e is Internal || final(self).tables() == old(self).tables(),
            r matches Err(AuthError::NotFound) ==> !old(self).tables().users.contains_key(id.0),
            r matches Err(AuthError::SessionLimitReached) ==> old(self).tables().live_tokens(
                id.0,
                now,
            ).len() >= old(self).session_cap(),
            r matches Err(e) ==> !(e is UserExists) && !(e is InvalidSession),
    {
        let ghost pre = self.tables();
        let ghost token_view = token@;
        proof {
            if self.consistent() {
                lemma_consistent_state_wf(pre);
                lemma_index_matches_sessions(pre, id.0, now);
                lemma_without_sessions_refines(pre, id.0, pre.stale_tokens(id.0, now));
                lemma_consistent_state_wf(
                    pre.without_sessions(id.0, pre.stale_tokens(id.0, now)),
                );
                assert(pre.without_sessions(id.0, pre.stale_tokens(id.0, now)).state()
                    =~= pre.state().reaped(id.0, now));
            }
        }
        let mut txn = match begin_write(&self.db) {
            Ok(txn) => txn,
            Err(e) => {
                return Err(engine_fault(&e));
            },
        };
        assert(txn_tables(txn) =~= pre);
        let session = match issue_session_in(
            &mut txn,
            id,
            ip,
            now,
            token,
            self.max_sessions_per_user,
        ) {
            Ok(session) => session,
            Err(e) => {
                return Err(e);
            },
        };
        proof {
            if pre.consistent() {
                let swept = pre.without_sessions(id.0, pre.stale_tokens(id.0, now));
                lemma_session_row_refines(swept, session@);
                assert(issue_session_post(
                    pre.state(),
                    txn_tables(txn).state(),
                    id.0,
                    ip,
                    now,
                    token_view,
                    self.max_sessions_per_user,
                    Ok::<Session, AuthError>(session),
                ));
            }
        }
        match commit(txn, &mut self.db) {
            Ok(()) => Ok(session),
            Err(e) => Err(engine_fault(&e)),
        }
    }

    fn fetch_session_at(&mut self, token: &SessionId, now: Timestamp) -> (r: Result<
        Session,
        AuthError,
    >)
        ensures
            !is_fault(r) ==> (r is Ok <==> (old(self).tables().session_in(token@) matches Some(
                stored,
            ) && stored.live_at(now))),
            r matches Ok(session) ==> {
                &&& old(self).tables().session_in(token@) == Some(session@)
                &&& session@.live_at(now)
                &&& final(self).tables() == old(self).tables()
            },
            r matches Err(e) ==> e is Internal || e is InvalidSession,
            r matches Err(AuthError::InvalidSession) ==> {
                ||| !old(self).tables().sessions.contains_key(token@) && final(self).tables()
                    == old(self).tables()
                ||| old(self).tables().session_in(token@) matches Some(stored) && !stored.live_at(
                    now,
                ) && final(self).tables() == old(self).tables().without_indexed_session(token@)
            },
    {
        proof {
            if self.consistent() {
                lemma_consistent_state_wf(self.tables());
            }
        }
        let row = match self.read_session_row(token) {
            Ok(Some(row)) => row,
            Ok(None) => {
                return Err(AuthError::InvalidSession);
            },
            Err(e) => {
                return Err(e);
            },
        };
        let session = match decode_session(row.as_slice()) {
            Ok(session) => session,
            Err(e) => {
                return Err(e);
            },
        };
        if session.is_live_at(now) {
            return Ok(session);
        }
        self.discard_expired(token, now)
    }

    fn extend_session_at(&mut self, token: &SessionId, now: Timestamp) -> (r: Result<
        Session,
        AuthError,
    >)
        ensures
            !is_fault(r) ==> (r is Ok <==> (old(self).tables().session_in(token@) matches Some(
                stored,
            ) && stored.live_at(now))),
            r matches Ok(session) ==> {
                &&& old(self).tables().session_in(token@) matches Some(stored)
                &&& stored.live_at(now)
                &&& session@ == stored.with_expiry(now.session_end())
                &&& final(self).tables() == old(self).tables().with_session_row_replaced(
                    token@,
                    session_row(session@),
                )
            },
            r matches Err(e) ==> e is Internal || e is InvalidSession,
            r matches Err(AuthError::InvalidSession) ==> {
                ||| !old(self).tables().sessions.contains_key(token@) && final(self).tables()
                    == old(self).tables()
                ||| old(self).tables().session_in(token@) matches Some(stored) && !stored.live_at(
                    now,
                ) && final(self).tables() == old(self).tables().without_indexed_session(token@)
            },
    {
        let ghost pre = self.tables();
        proof {
            if self.consistent() {
                lemma_consistent_state_wf(pre);
            }
        }
        let row = match self.read_session_row(token) {
            Ok(Some(row)) => row,
            Ok(None) => {
                return Err(AuthError::InvalidSession);
            },
            Err(e) => {
                return Err(e);
            },
        };
        let seen = match decode_session(row.as_slice()) {
            Ok(seen) => seen,
            Err(e) => {
                return Err(e);
            },
        };
        if !seen.is_live_at(now) {
            let r = self.discard_expired(token, now);
            proof {
                if pre.consistent() {
                    assert(pre.state().after_extend(token@, now) == pre.state().after_fetch(
                        token@,
                        now,
                    ));
                    if fetch_session_post(
                        pre.state(),
                        self.state(),
                        token@,
                        now,
                        Err::<Session, AuthError>(AuthError::InvalidSession),
                    ) {
                        assert(extend_session_post(
                            pre.state(),
                            self.state(),
                            token@,
                            now,
                            Err::<Session, AuthError>(AuthError::InvalidSession),
                        ));
                    }
                }
            }
            return r;
        }
        let mut txn = match begin_write(&self.db) {
            Ok(txn) => txn,
            Err(e) => {
                return Err(engine_fault(&e));
            },
        };
        assert(txn_tables(txn) =~= pre);
        // The session is read again inside the write transaction, and its
        // expiry is checked again there.
        let session = match extend_session_in(&mut txn, token, now) {
            Ok(session) => session,
            Err(e) => {
                return Err(e);
            },
        };
        proof {
            if pre.consistent() {
                lemma_session_row_replaced_refines(pre, token@, now.session_end());
                assert(extend_session_post(
                    pre.state(),
                    txn_tables(txn).state(),
                    token@,
                    now,
                    Ok::<Session, AuthError>(session),
                ));
            }
        }
        match commit(txn, &mut self.db) {
            Ok(()) => Ok(session),
            Err(e) => Err(engine_fault(&e)),
        }
    }

    fn revoke_session(&mut self, token: &SessionId) -> (r: Result<(), AuthError>)
        ensures
            !is_fault(r) ==> (r is Ok <==> old(self).tables().session_user.contains_key(token@)),
            r matches Ok(_) ==> {
                &&& old(self).tables().session_user.contains_key(token@)
                &&& final(self).tables() == old(self).tables().without_indexed_session(token@)
            },
            r matches Err(e) ==> e is Internal || {
                &&& e is InvalidSession
                &&& !old(self).tables().session_user.contains_key(token@)
                &&& final(self).tables() == old(self).tables()
            },
    {
        let ghost pre = self.tables();
        proof {
            if self.consistent() {
                lemma_consistent_state_wf(pre);
            }
        }
        let mut txn = match begin_write(&self.db) {
            Ok(txn) => txn,
            Err(e) => {
                return Err(engine_fault(&e));
            },
        };
        assert(txn_tables(txn) =~= pre);
        match revoke_session_in(&mut txn, token) {
            Ok(()) => {},
            Err(e) => {
                return Err(e);
            },
        }
        proof {
            if pre.consistent() {
                lemma_without_session_refines(pre, token@);
                assert(revoke_session_post(
                    pre.state(),
                    txn_tables(txn).state(),
                    token@,
                    Ok::<(), AuthError>(()),
                ));
            }
        }
        match commit(txn, &mut self.db) {
            Ok(()) => Ok(()),
            Err(e) => Err(engine_fault(&e)),
        }
    }
}

} // verus!
