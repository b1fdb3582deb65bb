//! The trusted surface over the embedded storage engine: the connection
//! type, a name for the logical table contents, and one wrapper per
//! statement the repository issues. Everything verified about the
//! repository rests on the contracts stated here against rusqlite and
//! SQLite's documented statement semantics.

use vstd::prelude::*;

use crate::clickhouse_connection::{ClickhouseConnection, StoredProfile};
use crate::errors::StorageError;

verus! {

/// Declares `rusqlite::Connection`, the open handle to the database file.
#[verifier::external_type_specification]
#[verifier::external_body]
pub struct ExConnection(rusqlite::Connection);

/// Declares `rusqlite::Error`, the engine's own failure type, which
/// `from_sqlite` maps onto the library's storage errors.
#[verifier::external_type_specification]
#[verifier::external_body]
pub struct ExSqliteError(rusqlite::Error);

/// Declares `rusqlite::Row`, a borrowed result row being decoded.
#[verifier::external_type_specification]
#[verifier::external_body]
pub struct ExRow<'a>(rusqlite::Row<'a>);

/// The logical contents of the connections table behind a connection:
/// each stored row as (id, fields), in storage (rowid) order.
pub uninterp spec fn db_rows(c: rusqlite::Connection) -> Seq<(int, StoredProfile)>;

/// An id the engine may assign to a new row: positive and strictly above
/// every id the table currently holds (the AUTOINCREMENT discipline).
pub open spec fn fresh_id(rows: Seq<(int, StoredProfile)>, nid: int) -> bool {
    1 <= nid && forall|i: int| 0 <= i < rows.len() ==> (#[trigger] rows[i]).0 < nid
}

/// The first stored row carrying `id`, if any.
pub open spec fn find_row(rows: Seq<(int, StoredProfile)>, id: int) -> Option<StoredProfile>
    decreases rows.len(),
{
    if rows.len() == 0 {
        None
    } else if rows[0].0 == id {
        Some(rows[0].1)
    } else {
        find_row(rows.subrange(1, rows.len() as int), id)
    }
}

/// The table after an update of every row carrying `id` to the fields `p`.
pub open spec fn updated_rows(rows: Seq<(int, StoredProfile)>, id: int, p: StoredProfile) -> Seq<
    (int, StoredProfile),
> {
    rows.map_values(
        |r: (int, StoredProfile)|
            if r.0 == id {
                (r.0, p)
            } else {
                r
            },
    )
}

/// Holds of a row that does not carry `id`.
pub open spec fn not_carrying(id: int) -> spec_fn((int, StoredProfile)) -> bool {
    |r: (int, StoredProfile)| r.0 != id
}

/// The table after removal of every row carrying `id`.
pub open spec fn removed_rows(rows: Seq<(int, StoredProfile)>, id: int) -> Seq<
    (int, StoredProfile),
> {
    rows.filter(not_carrying(id))
}

/// A loaded sequence reflects the table exactly: one record per row, in
/// order, fields equal and the id populated from the row.
pub open spec fn loaded_matches(
    loaded: Seq<ClickhouseConnection>,
    rows: Seq<(int, StoredProfile)>,
) -> bool {
    &&& loaded.len() == rows.len()
    &&& forall|i: int|
        0 <= i < rows.len() ==> (#[trigger] loaded[i]).stored() == rows[i].1 && (loaded[i].id
            matches Some(n) && n as int == rows[i].0)
}

/// Relies on `rusqlite::Error`: `QueryReturnedNoRows` marks a single-row
/// query that matched nothing; every other failure is carried as its
/// message.
#[verifier::external_body]
fn from_sqlite(e: rusqlite::Error) -> (r: StorageError) {
    match e {
        rusqlite::Error::QueryReturnedNoRows => StorageError::NoRows,
        other => StorageError::Engine(format!("{}", other)),
    }
}

/// Relies on `rusqlite::Row::get`: decodes each column of a row of the
/// connections table at its fixed index into the declared field type; a
/// stored value that cannot be coerced fails the decode.
#[verifier::external_body]
fn row_to_profile(row: &rusqlite::Row) -> (r: Result<ClickhouseConnection, rusqlite::Error>) {
    Ok(
        ClickhouseConnection {
            id: row.get(0)?,
            name: row.get(1)?,
            host: row.get(2)?,
            port: row.get(3)?,
            secure: row.get(4)?,
            username: row.get(5)?,
            password: row.get(6)?,
            database: row.get(7)?,
        },
    )
}

/// Relies on `rusqlite::Connection::open`: opens the database file at the
/// path, creating the file when it does not exist yet.
#[verifier::external_body]
pub(crate) fn open_database(path: &String) -> (r: Result<rusqlite::Connection, StorageError>) {
    rusqlite::Connection::open(path.as_str()).map_err(from_sqlite)
}

/// Relies on `rusqlite::Connection::pragma_update` with the SQLCipher key
/// pragma: applies the passphrase as the cipher key for all following
/// statements; it issues no statement against the table, so the stored
/// rows are untouched, and it does not validate the key eagerly.
#[verifier::external_body]
pub(crate) fn apply_key(conn: &mut rusqlite::Connection, passphrase: &String) -> (r: Result<
    (),
    StorageError,
>)
    ensures
        db_rows(*final(conn)) == db_rows(*old(conn)),
{
    conn.pragma_update(None, "key", passphrase.as_str()).map_err(from_sqlite)
}

/// Relies on `rusqlite::Connection::execute` with CREATE TABLE IF NOT
/// EXISTS: makes the connections table exist without touching any
/// existing row; under a key that does not match an existing file the
/// statement fails instead.
#[verifier::external_body]
pub(crate) fn ensure_table(conn: &mut rusqlite::Connection) -> (r: Result<(), StorageError>)
    ensures
        db_rows(*final(conn)) == db_rows(*old(conn)),
{
    let sql = "CREATE TABLE IF NOT EXISTS connections (
        id INTEGER PRIMARY KEY AUTOINCREMENT,
        name TEXT,
        host TEXT NOT NULL,
        port INTEGER NOT NULL,
        secure BOOLEAN NOT NULL,
        username TEXT NOT NULL,
        password TEXT,
        database TEXT
    )";
    match conn.execute(sql, []) {
        Ok(_) => Ok(()),
        Err(e) => Err(from_sqlite(e)),
    }
}

/// Relies on `rusqlite::Connection::execute` with INSERT: appends one row
/// holding the profile's stored fields, under a fresh AUTOINCREMENT id;
/// a failed statement leaves the table as it was.
#[verifier::external_body]
pub(crate) fn insert_profile(
    conn: &mut rusqlite::Connection,
    profile: &ClickhouseConnection,
) -> (r: Result<(), StorageError>)
    ensures
        r matches Ok(_) ==> exists|nid: int|
            #[trigger] fresh_id(db_rows(*old(conn)), nid) && db_rows(*final(conn)) == db_rows(
                *old(conn),
            ).push((nid, profile.stored())),
        r matches Err(_) ==> db_rows(*final(conn)) == db_rows(*old(conn)),
{
    let sql =
        "INSERT INTO connections (name, host, port, secure, username, password, database) VALUES (?1, ?2, ?3, ?4, ?5, ?6, ?7)";
    let params = (
        &profile.name, &profile.host, &profile.port, &profile.secure,
        &profile.username, &profile.password, &profile.database,
    );
    conn.execute(sql, params).map(|_| ()).map_err(from_sqlite)
}

/// Relies on `rusqlite::Connection::prepare` and
/// `rusqlite::Statement::query_map` with SELECT and no ORDER BY on a rowid
/// table: yields every stored row in rowid (insertion) order, each decoded
/// by `row_to_profile`; any row that fails to decode fails the whole call.
#[verifier::external_body]
pub(crate) fn select_all(conn: &rusqlite::Connection) -> (r: Result<
    Vec<ClickhouseConnection>,
    StorageError,
>)
    ensures
        r matches Ok(v) ==> loaded_matches(v@, db_rows(*conn)),
{
    let sql = "SELECT id, name, host, port, secure, username, password, database FROM connections";
    let mut stmt = conn.prepare(sql).map_err(from_sqlite)?;
    let iter = stmt.query_map([], |row| row_to_profile(row)).map_err(from_sqlite)?;
    let mut out = Vec::new();
    for item in iter {
        out.push(item.map_err(from_sqlite)?);
    }
    Ok(out)
}

/// Relies on `rusqlite::Connection::query_row` with SELECT ... WHERE id:
/// returns the first matching row decoded by `row_to_profile`, and
/// `QueryReturnedNoRows` when no row matches.
#[verifier::external_body]
pub(crate) fn select_by_id(conn: &rusqlite::Connection, id: i32) -> (r: Result<
    ClickhouseConnection,
    StorageError,
>)
    ensures
        r matches Ok(p) ==> find_row(db_rows(*conn), id as int) == Some(p.stored()) && p.id
            == Some(id),
        r matches Err(StorageError::NoRows) ==> find_row(db_rows(*conn), id as int) is None,
        find_row(db_rows(*conn), id as int) is None ==> !(r matches Ok(_)),
{
    let sql =
        "SELECT id, name, host, port, secure, username, password, database FROM connections WHERE id = ?1";
    match conn.query_row(sql, [id], |row| row_to_profile(row)) {
        Ok(p) => Ok(p),
        Err(e) => Err(from_sqlite(e)),
    }
}

/// Relies on `rusqlite::Connection::execute` with UPDATE ... WHERE id:
/// overwrites every stored field of each row carrying the id, touches no
/// other row, and is a no-op when none matches; a failed statement leaves
/// the table as it was.
#[verifier::external_body]
pub(crate) fn update_profile(
    conn: &mut rusqlite::Connection,
    id: u32,
    profile: &ClickhouseConnection,
) -> (r: Result<(), StorageError>)
    ensures
        r matches Ok(_) ==> db_rows(*final(conn)) == updated_rows(
            db_rows(*old(conn)),
            id as int,
            profile.stored(),
        ),
        r matches Err(_) ==> db_rows(*final(conn)) == db_rows(*old(conn)),
{
    let sql =
        "UPDATE connections SET name = ?1, host = ?2, port = ?3, secure = ?4, username = ?5, password = ?6, database = ?7 WHERE id = ?8";
    let params = (
        &profile.name, &profile.host, &profile.port, &profile.secure,
        &profile.username, &profile.password, &profile.database, &id,
    );
    conn.execute(sql, params).map(|_| ()).map_err(from_sqlite)
}

/// Relies on `rusqlite::Connection::execute` with DELETE FROM ... WHERE
/// id: removes every row carrying the id, keeps the rest in order, and is
/// a no-op when none matches; a failed statement leaves the table as it
/// was.
#[verifier::external_body]
pub(crate) fn delete_profile(conn: &mut rusqlite::Connection, id: u32) -> (r: Result<
    (),
    StorageError,
>)
    ensures
        r matches Ok(_) ==> db_rows(*final(conn)) == removed_rows(db_rows(*old(conn)), id as int),
        r matches Err(_) ==> db_rows(*final(conn)) == db_rows(*old(conn)),
{
    match conn.execute("DELETE FROM connections WHERE id = ?1", [id]) {
        Ok(_) => Ok(()),
        Err(e) => Err(from_sqlite(e)),
    }
}

} // verus!
