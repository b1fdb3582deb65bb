//! The repository: owns one open storage handle and exposes CRUD over
//! connection-profile records. Every method's contract is stated over the
//! logical table contents `rows()`, a sequence of (id, stored fields)
//! pairs in storage order.

use vstd::prelude::*;

use crate::clickhouse_connection::ClickhouseConnection;
use crate::clickhouse_connection::StoredProfile;
use crate::errors::{ControlledErrors, RepositoryError, StorageError};
use crate::locate::check_database_file;
use crate::storage::{
    apply_key,
    db_rows,
    delete_profile,
    ensure_table,
    find_row,
    fresh_id,
    insert_profile,
    loaded_matches,
    open_database,
    removed_rows,
    select_all,
    select_by_id,
    update_profile,
    updated_rows,
};

verus! {

/// A passphrase-protected store of connection profiles, backed by one
/// open handle to the encrypted database file.
pub struct Repository {
    connection: rusqlite::Connection,
}

impl Repository {
    /// The logical table: each stored row as (id, fields), in storage
    /// order.
    pub closed spec fn rows(&self) -> Seq<(int, StoredProfile)> {
        db_rows(self.connection)
    }

    /// Opens the repository under the platform data directory for the
    /// fixed application identity triple: locates (creating the directory
    /// and, through the engine, the file when missing), applies the
    /// passphrase as the cipher key, and ensures the table schema. Never
    /// fails with the `FirstTime` signal.
    pub fn new(passphrase: &String) -> (r: Result<Repository, RepositoryError>)
        ensures
            r matches Err(e) ==> !(e matches RepositoryError::ControlledError(ControlledErrors::FirstTime)),
    {
        let database_file = match check_database_file(&false) {
            Ok(p) => p,
            Err(e) => {
                return Err(e);
            },
        };
        Self::open_file(&database_file, passphrase)
    }

    /// Opens the repository on a caller-supplied database file path:
    /// opens the engine (creating the file when missing), applies the
    /// passphrase as the cipher key, and ensures the table schema. Every
    /// failure is a storage-engine failure; in particular a file keyed
    /// under a different passphrase fails on the schema statement.
    pub fn open_file(path: &String, passphrase: &String) -> (r: Result<Repository, RepositoryError>)
        ensures
            r matches Err(e) ==> e matches RepositoryError::SqliteError(_),
    {
        let mut connection = match open_database(path) {
            Ok(c) => c,
            Err(e) => {
                return Err(RepositoryError::SqliteError(e));
            },
        };
        match apply_key(&mut connection, passphrase) {
            Ok(()) => (),
            Err(e) => {
                return Err(RepositoryError::SqliteError(e));
            },
        }
        match ensure_table(&mut connection) {
            Ok(()) => (),
            Err(e) => {
                return Err(RepositoryError::SqliteError(e));
            },
        }
        Ok(Repository { connection })
    }

    /// Inserts one row holding every field of the profile except its `id`
    /// (the engine assigns a fresh one). On success the table is the old
    /// table with exactly that row appended; on failure it is unchanged.
    pub fn create(&mut self, connection: ClickhouseConnection) -> (r: Result<(), RepositoryError>)
        ensures
            r matches Ok(_) ==> exists|nid: int|
                #[trigger] fresh_id(old(self).rows(), nid) && final(self).rows() == old(
                    self,
                ).rows().push((nid, connection.stored())),
            r matches Err(e) ==> final(self).rows() == old(self).rows() && e matches
                RepositoryError::SqliteError(_),
    {
        match insert_profile(&mut self.connection, &connection) {
            Ok(()) => {
                proof {
                    let nid = choose|nid: int|
                        #[trigger] fresh_id(db_rows(old(self).connection), nid) && db_rows(
                            self.connection,
                        ) == db_rows(old(self).connection).push((nid, connection.stored()));
                    assert(fresh_id(old(self).rows(), nid) && self.rows() == old(
                        self,
                    ).rows().push((nid, connection.stored())));
                }
                Ok(())
            },
            Err(e) => Err(RepositoryError::SqliteError(e)),
        }
    }

    /// Reads every stored row, in storage order, as profile records with
    /// the id populated. An empty table yields an empty vector; a row
    /// that cannot be decoded fails the whole call.
    pub fn get_all(&self) -> (r: Result<Vec<ClickhouseConnection>, RepositoryError>)
        ensures
            r matches Ok(v) ==> loaded_matches(v@, self.rows()),
            r matches Err(e) ==> e matches RepositoryError::SqliteError(_),
    {
        match select_all(&self.connection) {
            Ok(v) => Ok(v),
            Err(e) => Err(RepositoryError::SqliteError(e)),
        }
    }

    /// Reads the single row carrying `id`. When no such row is stored the
    /// call does not succeed, and the engine reports the distinguishable
    /// "no such row" kind.
    pub fn get_by_id(&self, id: i32) -> (r: Result<ClickhouseConnection, RepositoryError>)
        ensures
            r matches Ok(p) ==> find_row(self.rows(), id as int) == Some(p.stored()) && p.id
                == Some(id),
            r matches Err(e) ==> e matches RepositoryError::SqliteError(_),
            r matches Err(RepositoryError::SqliteError(StorageError::NoRows)) ==> find_row(
                self.rows(),
                id as int,
            ) is None,
            find_row(self.rows(), id as int) is None ==> !(r matches Ok(_)),
    {
        match select_by_id(&self.connection, id) {
            Ok(p) => Ok(p),
            Err(e) => Err(RepositoryError::SqliteError(e)),
        }
    }

    /// Overwrites every field of the row at `id` with the supplied
    /// profile's fields (the profile's own `id` is ignored; the argument
    /// addresses the row). A silent no-op when no row matches, as the
    /// statement's WHERE clause then selects nothing; on failure the
    /// table is unchanged.
    pub fn update(&mut self, id: u32, connection: ClickhouseConnection) -> (r: Result<(), RepositoryError>)
        ensures
            r matches Ok(_) ==> final(self).rows() == updated_rows(
                old(self).rows(),
                id as int,
                connection.stored(),
            ),
            r matches Err(e) ==> final(self).rows() == old(self).rows() && e matches
                RepositoryError::SqliteError(_),
    {
        match update_profile(&mut self.connection, id, &connection) {
            Ok(()) => Ok(()),
            Err(e) => Err(RepositoryError::SqliteError(e)),
        }
    }

    /// Removes the row at `id`; the remaining rows keep their ids and
    /// their order. A silent no-op when no row matches; on failure the
    /// table is unchanged.
    pub fn delete(&mut self, id: u32) -> (r: Result<(), RepositoryError>)
        ensures
            r matches Ok(_) ==> final(self).rows() == removed_rows(old(self).rows(), id as int),
            r matches Err(e) ==> final(self).rows() == old(self).rows() && e matches
                RepositoryError::SqliteError(_),
    {
        match delete_profile(&mut self.connection, id) {
            Ok(()) => Ok(()),
            Err(e) => Err(RepositoryError::SqliteError(e)),
        }
    }
}

} // verus!
