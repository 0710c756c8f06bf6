//! The SQLite table of listings: opening or creating the database file,
//! upserting a batch in one transaction, and reading the stored identifiers.
//!
//! What the database holds depends on the file and on the other connections
//! to it, so no contract here speaks of the table's contents. The contracts
//! say at which step a failure can come; the module `table` says what the
//! statements issued here mean for the table.

use rusqlite::Connection;
use rusqlite::OpenFlags;
use rusqlite::Row;
use rusqlite::Rows;
use rusqlite::Statement;
use rusqlite::Transaction;
use rusqlite::TransactionBehavior;
use std::path::Path;
use vstd::prelude::*;

use crate::error::Failure;
use crate::error::Stage;
use crate::error::StoreError;
use crate::listing::Id;
use crate::listing::Listing;

verus! {

/// Creates the table: one row per identifier.
pub const CREATE_TABLE_SQL: &'static str =
    "CREATE TABLE Listings (id INTEGER PRIMARY KEY, title TEXT NOT NULL, score INTEGER, user TEXT, url TEXT NOT NULL)";

/// Inserts a listing, or replaces the row that has its identifier.
pub const UPSERT_SQL: &'static str =
    "INSERT OR REPLACE INTO Listings (id, title, score, user, url) VALUES (?1, ?2, ?3, ?4, ?5)";

/// Selects every stored identifier.
pub const SELECT_IDS_SQL: &'static str = "SELECT id FROM Listings";

/// Column of the identifier in the result of [`SELECT_IDS_SQL`].
pub const ID_COLUMN: usize = 0;

/// `rusqlite::Connection`: a connection to one database. Opaque.
#[verifier::external_type_specification]
#[verifier::external_body]
pub struct ExConnection(rusqlite::Connection);

/// `rusqlite::Error`. Opaque.
#[verifier::external_type_specification]
#[verifier::external_body]
pub struct ExSqlError(rusqlite::Error);

/// `rusqlite::OpenFlags`: the flags a database is opened with. Opaque.
#[verifier::external_type_specification]
#[verifier::external_body]
pub struct ExOpenFlags(rusqlite::OpenFlags);

/// `rusqlite::Transaction`: an open transaction on a connection, rolled back
/// when dropped before it is committed. Opaque.
#[verifier::external_type_specification]
#[verifier::external_body]
pub struct ExTransaction<'conn>(rusqlite::Transaction<'conn>);

/// `rusqlite::Statement`: a prepared statement. Opaque.
#[verifier::external_type_specification]
#[verifier::external_body]
pub struct ExStatement<'conn>(rusqlite::Statement<'conn>);

/// `rusqlite::Rows`: the cursor over a query's result. Opaque.
#[verifier::external_type_specification]
#[verifier::external_body]
pub struct ExRows<'stmt>(rusqlite::Rows<'stmt>);

/// `rusqlite::Row`: the row a cursor stands on. Opaque.
#[verifier::external_type_specification]
#[verifier::external_body]
pub struct ExRow<'stmt>(rusqlite::Row<'stmt>);

/// `std::path::Path::exists`: whether something exists at the path right
/// now. Nothing is claimed of the answer.
#[verifier::external_body]
fn path_exists(path: &str) -> (found: bool) {
    Path::new(path).exists()
}

/// `OpenFlags::SQLITE_OPEN_READ_WRITE`. Nothing is claimed of the value.
#[verifier::external_body]
fn flag_read_write() -> (flags: OpenFlags) {
    OpenFlags::SQLITE_OPEN_READ_WRITE
}

/// `OpenFlags::SQLITE_OPEN_CREATE`. Nothing is claimed of the value.
#[verifier::external_body]
fn flag_create() -> (flags: OpenFlags) {
    OpenFlags::SQLITE_OPEN_CREATE
}

/// The `|` of `OpenFlags`: both sets of flags together. Nothing is claimed
/// of the value.
#[verifier::external_body]
fn flags_union(a: OpenFlags, b: OpenFlags) -> (flags: OpenFlags) {
    a | b
}

/// `Connection::open_with_flags`. It returns an error where the path cannot
/// be turned into a C string, which is so where it holds a NUL character,
/// or where SQLite cannot open it. Of the second nothing is claimed.
#[verifier::external_body]
fn open_with_flags(path: &str, flags: OpenFlags) -> (r: Result<Connection, rusqlite::Error>)
    ensures
        path@.contains('\0') ==> r is Err,
{
    Connection::open_with_flags(Path::new(path), flags)
}

/// `Connection::execute` with no parameters. It returns the number of rows
/// changed, or the error of SQLite. Nothing is claimed of either.
#[verifier::external_body]
fn execute(conn: &Connection, sql: &str) -> (r: Result<usize, rusqlite::Error>) {
    conn.execute(sql, [])
}

/// `Transaction::new` with `TransactionBehavior::Deferred`: begins a
/// transaction on the connection. Nothing is claimed of the outcome.
#[verifier::external_body]
fn begin_deferred<'c>(conn: &'c mut Connection) -> (r: Result<Transaction<'c>, rusqlite::Error>) {
    Transaction::new(conn, TransactionBehavior::Deferred)
}

/// `Connection::execute` inside a transaction, with the five columns of a
/// listing as the parameters `?1` to `?5`, in the order id, title, score,
/// user, url. Nothing is claimed of the outcome.
#[verifier::external_body]
fn execute_listing(tx: &Transaction<'_>, sql: &str, listing: &Listing) -> (r: Result<
    usize,
    rusqlite::Error,
>) {
    tx.execute(sql, (listing.id, &listing.title, listing.score, &listing.user, &listing.url))
}

/// `Transaction::commit`. Nothing is claimed of the outcome.
#[verifier::external_body]
fn commit(tx: Transaction<'_>) -> (r: Result<(), rusqlite::Error>) {
    tx.commit()
}

/// `Connection::prepare`. Nothing is claimed of the outcome.
#[verifier::external_body]
fn prepare<'c>(conn: &'c Connection, sql: &str) -> (r: Result<Statement<'c>, rusqlite::Error>) {
    conn.prepare(sql)
}

/// `Statement::query` with no parameters. Nothing is claimed of the outcome.
#[verifier::external_body]
fn query<'s>(stmt: &'s mut Statement<'_>) -> (r: Result<Rows<'s>, rusqlite::Error>) {
    stmt.query([])
}

/// `Rows::next`: the next row, `None` after the last, or the error of
/// stepping. Nothing is claimed of which.
#[verifier::external_body]
fn next_row<'r, 's>(rows: &'r mut Rows<'s>) -> (r: Result<Option<&'r Row<'s>>, rusqlite::Error>) {
    rows.next()
}

/// `Row::get` of an identifier: the value of the column, or an error where
/// the column does not exist or does not hold an integer in the range of an
/// identifier. Nothing is claimed of which.
#[verifier::external_body]
fn row_id(row: &Row<'_>, column: usize) -> (r: Result<Id, rusqlite::Error>) {
    row.get(column)
}

/// The `Display` text of a `rusqlite::Error`. Nothing is claimed of it.
#[verifier::external_body]
fn error_text(error: &rusqlite::Error) -> (text: String) {
    error.to_string()
}

/// Passes a success of the database on as it is, and turns a failure into
/// the library's error, marked with the stage at which it came.
fn at_stage<T>(stage: Stage, outcome: Result<T, rusqlite::Error>) -> (r: Result<T, StoreError>)
    ensures
        outcome matches Ok(value) ==> r == Ok::<T, StoreError>(value),
        outcome is Err ==> r is Err && r->Err_0.stage == stage,
{
    match outcome {
        Ok(value) => Ok(value),
        Err(error) => Err(StoreError { stage, message: error_text(&error) }),
    }
}

/// Creates the database file at `path`, or opens the one that is there, and
/// creates the table in it.
///
/// Fails at stage `Open` where the file can be neither opened nor created,
/// as it cannot where the path holds a NUL character, and at stage `Schema`
/// where the table cannot be created, as when the database already has it.
pub fn db_create(path: &str) -> (r: Result<Connection, StoreError>)
    ensures
        r is Err ==> r->Err_0.stage == Stage::Open || r->Err_0.stage == Stage::Schema,
        path@.contains('\0') ==> r is Err && r->Err_0.stage == Stage::Open,
{
    let flags = flags_union(flag_read_write(), flag_create());
    let conn = at_stage(Stage::Open, open_with_flags(path, flags))?;
    at_stage(Stage::Schema, execute(&conn, CREATE_TABLE_SQL))?;
    Ok(conn)
}

/// Opens the database file at `path` for reading and writing. The file must
/// exist, and the path must hold no NUL character.
pub fn db_open(path: &str) -> (r: Result<Connection, StoreError>)
    ensures
        r is Err ==> r->Err_0.stage == Stage::Open,
        path@.contains('\0') ==> r is Err,
{
    at_stage(Stage::Open, open_with_flags(path, flag_read_write()))
}

/// Which of the two ways of connecting applies.
#[derive(Debug, Clone, Copy, PartialEq, Eq, Structural)]
pub enum ConnectMode {
    /// The file is there: open it as it is.
    OpenExisting,
    /// The file is missing: create it and provision the table.
    CreateNew,
}

/// The way to connect, given whether the database file exists.
pub fn connect_mode(file_exists: bool) -> (mode: ConnectMode)
    ensures
        file_exists ==> mode == ConnectMode::OpenExisting,
        !file_exists ==> mode == ConnectMode::CreateNew,
{
    if file_exists {
        ConnectMode::OpenExisting
    } else {
        ConnectMode::CreateNew
    }
}

/// Connects to the database at `path`: opens the file where it exists, and
/// otherwise creates it and provisions the table. A path that holds a NUL
/// character fails at stage `Open` either way.
pub fn db_connect(path: &str) -> (r: Result<Connection, StoreError>)
    ensures
        r is Err ==> r->Err_0.stage == Stage::Open || r->Err_0.stage == Stage::Schema,
        r is Err ==> r->Err_0.stage.failure_of() == Failure::Startup,
        path@.contains('\0') ==> r is Err && r->Err_0.stage == Stage::Open,
{
    match connect_mode(path_exists(path)) {
        ConnectMode::OpenExisting => db_open(path),
        ConnectMode::CreateNew => db_create(path),
    }
}

/// Upserts a batch in one transaction: each listing is inserted, or
/// replaces the row that has its identifier, in the order of the batch.
///
/// Either the whole batch is committed or, on the first failure, the
/// transaction is dropped and with it everything written so far. An empty
/// batch is an empty transaction: it writes nothing, so it cannot fail at
/// stage `Write`.
pub fn db_upsert(conn: &mut Connection, listings: &Vec<Listing>) -> (r: Result<(), StoreError>)
    ensures
        r is Err ==> r->Err_0.stage == Stage::Begin || r->Err_0.stage == Stage::Write
            || r->Err_0.stage == Stage::Commit,
        r is Err ==> r->Err_0.stage.failure_of() == Failure::Persistence,
        r is Err && r->Err_0.stage == Stage::Write ==> listings@.len() > 0,
{
    let tx = at_stage(Stage::Begin, begin_deferred(conn))?;
    let mut i: usize = 0;
    while i < listings.len()
        invariant
            i <= listings.len(),
        decreases listings.len() - i,
    {
        at_stage(Stage::Write, execute_listing(&tx, UPSERT_SQL, &listings[i]))?;
        i += 1;
    }
    at_stage(Stage::Commit, commit(tx))
}

/// Reads every stored identifier, in the order in which the database hands
/// them out. That order is the database's own: callers must not rely on it.
pub fn db_query_ids(conn: &mut Connection) -> (r: Result<Vec<Id>, StoreError>)
    ensures
        r is Err ==> r->Err_0.stage == Stage::Prepare || r->Err_0.stage == Stage::Query
            || r->Err_0.stage == Stage::Read,
        r is Err ==> r->Err_0.stage.failure_of() == Failure::Persistence,
{
    let mut stmt = at_stage(Stage::Prepare, prepare(conn, SELECT_IDS_SQL))?;
    let mut rows = at_stage(Stage::Query, query(&mut stmt))?;
    let mut ids: Vec<Id> = Vec::new();
    while ids.len() < usize::MAX
        decreases usize::MAX - ids.len(),
    {
        match at_stage(Stage::Read, next_row(&mut rows))? {
            Some(row) => {
                let id = at_stage(Stage::Read, row_id(row, ID_COLUMN))?;
                ids.push(id);
            },
            None => {
                return Ok(ids);
            },
        }
    }
    Err(StoreError { stage: Stage::Read, message: overflow_text() })
}

/// The message for a result with more rows than a vector can hold.
fn overflow_text() -> (text: String)
    ensures
        text@ == "more identifiers than can be held"@,
{
    "more identifiers than can be held".to_string()
}

} // verus!
