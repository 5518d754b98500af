//! The store: one SQLite table that keeps, for each relative path, the
//! metadata and the checksum that the file had when it was last recorded.
//!
//! What a query finds depends on what the database file holds, so nothing is
//! claimed here of the answers that SQLite gives: each function hands its
//! arguments to SQLite and passes the answer on through a function that says
//! what the store makes of every answer. What is claimed is what the arguments
//! alone decide: a size that SQLite's signed integers cannot hold is refused.

use crate::checksum::Checksum;
use crate::model::Metadata;
use crate::rel_path::RelPath;
use core::time::Duration;
use rusqlite::{CachedStatement, Connection, Transaction};
use rusqlite_migration::{Migrations, M};
use vstd::prelude::*;

verus! {

/// Where the store lives, relative to the working directory.
pub const DB_NAME: &'static str = "./static-cdn.sqlite";

/// Nanoseconds in a second.
pub const NANOS_PER_SEC: u32 = 1_000_000_000;

/// Connection settings: write-ahead logging, so that readers do not block each
/// other, with relaxed flushing, an exclusive lock per connection and temporary
/// storage in memory.
pub const PRAGMAS: &'static str =
    "PRAGMA journal_mode = WAL; \
     PRAGMA synchronous = NORMAL; \
     PRAGMA locking_mode = EXCLUSIVE; \
     PRAGMA temp_store = MEMORY;";

/// The first version of the schema: the table of files, one row per path.
pub const SCHEMA_V1: &'static str =
    "CREATE TABLE files (\
         path TEXT NOT NULL PRIMARY KEY, \
         modified_since_epoch_sec REAL NOT NULL, \
         size INTEGER NOT NULL, \
         checksum BLOB NOT NULL\
     );";

const SELECT_BY_METADATA: &'static str =
    "SELECT * \
     FROM files \
     WHERE path = ?1 AND modified_since_epoch_sec = ?2 AND size = ?3";

const SELECT_BY_LEN_AND_CHECKSUM: &'static str =
    "SELECT * \
     FROM files \
     WHERE path = ?1 AND size = ?2 AND checksum = ?3";

const UPSERT_ENTRY: &'static str =
    "INSERT OR REPLACE INTO files (path, modified_since_epoch_sec, size, checksum) \
     VALUES (?1, ?2, ?3, ?4)";

const UPDATE_METADATA: &'static str =
    "UPDATE OR FAIL files \
     SET modified_since_epoch_sec = ?2, size = ?3 \
     WHERE path = ?1";

#[verifier::external_type_specification]
#[verifier::external_body]
pub struct ExConnection(Connection);

#[verifier::external_type_specification]
#[verifier::external_body]
pub struct ExTransaction<'conn>(Transaction<'conn>);

#[verifier::external_type_specification]
#[verifier::external_body]
pub struct ExCachedStatement<'conn>(CachedStatement<'conn>);

#[verifier::external_type_specification]
#[verifier::external_body]
pub struct ExSqliteError(rusqlite::Error);

#[verifier::external_type_specification]
#[verifier::external_body]
pub struct ExMigration<'u>(M<'u>);

#[verifier::external_type_specification]
#[verifier::external_body]
pub struct ExMigrations<'m>(Migrations<'m>);

#[verifier::external_type_specification]
#[verifier::external_body]
pub struct ExMigrationError(rusqlite_migration::Error);

/// The SQL that a migration step runs to bring the schema one version up.
pub uninterp spec fn migration_script(step: M<'static>) -> Seq<char>;

/// The scripts of the steps that a set of migrations holds, first step first.
pub uninterp spec fn migration_scripts(migrations: Migrations<'static>) -> Seq<Seq<char>>;

/// `M::up`: a migration step that runs `sql` and has no way back.
#[verifier::external_body]
fn migration_up(sql: &'static str) -> (step: M<'static>)
    ensures
        migration_script(step) == sql@,
{
    M::up(sql)
}

/// `Migrations::new`: the set of migrations that holds `steps` in their order.
#[verifier::external_body]
fn migrations_new(steps: Vec<M<'static>>) -> (migrations: Migrations<'static>)
    ensures
        migration_scripts(migrations) == steps@.map_values(|step: M<'static>| migration_script(step)),
{
    Migrations::new(steps)
}

/// `Migrations::to_latest`: runs the steps that the database lacks. Whether it
/// succeeds depends on the database.
#[verifier::external_body]
fn migrations_to_latest(migrations: &Migrations<'static>, conn: &mut Connection) -> (r: Result<
    (),
    rusqlite_migration::Error,
>) {
    migrations.to_latest(conn)
}

// The calls into SQLite. What they return depends on the database that the
// connection is open on, so none of them promises anything of that. Those that
// bind a size promise what the size alone decides.

/// `Connection::open`: opens the database file at `path` and creates it where
/// there is none.
#[verifier::external_body]
fn connection_open(path: &str) -> (r: Result<Connection, rusqlite::Error>) {
    Connection::open(path)
}

/// `Connection::open_in_memory`: opens a new database that lives in memory.
#[verifier::external_body]
fn connection_open_in_memory() -> (r: Result<Connection, rusqlite::Error>) {
    Connection::open_in_memory()
}

/// `Connection::execute_batch`: runs the statements of `sql` one after another.
#[verifier::external_body]
fn connection_execute_batch(conn: &Connection, sql: &str) -> (r: Result<(), rusqlite::Error>) {
    conn.execute_batch(sql)
}

/// `Connection::prepare_cached`: the prepared statement for `sql`, from the
/// connection's cache where it is there.
#[verifier::external_body]
fn connection_prepare_cached<'conn>(conn: &'conn Connection, sql: &str) -> (r: Result<
    CachedStatement<'conn>,
    rusqlite::Error,
>) {
    conn.prepare_cached(sql)
}

/// `Connection::transaction`: begins a transaction, which rolls back when it is
/// dropped without a commit.
#[verifier::external_body]
fn connection_transaction<'conn>(conn: &'conn mut Connection) -> (r: Result<
    Transaction<'conn>,
    rusqlite::Error,
>) {
    conn.transaction()
}

/// `Deref` of `Transaction`: the connection that the transaction runs on.
#[verifier::external_body]
fn transaction_connection<'a>(tx: &'a Transaction<'_>) -> (conn: &'a Connection) {
    tx
}

/// `Transaction::commit`: makes what was written in the transaction permanent.
#[verifier::external_body]
fn transaction_commit(tx: Transaction<'_>) -> (r: Result<(), rusqlite::Error>) {
    tx.commit()
}

/// `Statement::exists` with a path, a modification time and a size bound to the
/// statement's three parameters: whether the query returns any row. The time is
/// bound as floating-point seconds. A `u64` is bound as a signed integer of 64
/// bits: where it does not fit, binding fails, and so does the call.
#[verifier::external_body]
fn statement_exists_by_metadata(
    stmt: &mut CachedStatement<'_>,
    path: &str,
    secs: u64,
    nanos: u32,
    size: u64,
) -> (r: Result<bool, rusqlite::Error>)
    requires
        nanos < NANOS_PER_SEC,
    ensures
        size > i64::MAX ==> r is Err,
{
    stmt.exists((path, Duration::new(secs, nanos).as_secs_f64(), size))
}

/// `Statement::exists` with a path, a size and the checksum's bytes bound to the
/// statement's three parameters: whether the query returns any row. A size that
/// does not fit a signed integer of 64 bits fails to bind, and so does the call.
#[verifier::external_body]
fn statement_exists_by_content(
    stmt: &mut CachedStatement<'_>,
    path: &str,
    size: u64,
    checksum: [u8; 8],
) -> (r: Result<bool, rusqlite::Error>)
    ensures
        size > i64::MAX ==> r is Err,
{
    stmt.exists((path, size, checksum))
}

/// `Statement::execute` with a path, a modification time, a size and the
/// checksum's bytes bound to the statement's four parameters: the number of rows
/// that the statement changed. A size that does not fit a signed integer of 64
/// bits fails to bind, and so does the call.
#[verifier::external_body]
fn statement_execute_entry(
    stmt: &mut CachedStatement<'_>,
    path: &str,
    secs: u64,
    nanos: u32,
    size: u64,
    checksum: [u8; 8],
) -> (r: Result<usize, rusqlite::Error>)
    requires
        nanos < NANOS_PER_SEC,
    ensures
        size > i64::MAX ==> r is Err,
{
    stmt.execute((path, Duration::new(secs, nanos).as_secs_f64(), size, checksum))
}

/// `Statement::execute` with a path, a modification time and a size bound to the
/// statement's three parameters: the number of rows that the statement changed.
/// A size that does not fit a signed integer of 64 bits fails to bind, and so
/// does the call.
#[verifier::external_body]
fn statement_execute_metadata(
    stmt: &mut CachedStatement<'_>,
    path: &str,
    secs: u64,
    nanos: u32,
    size: u64,
) -> (r: Result<usize, rusqlite::Error>)
    requires
        nanos < NANOS_PER_SEC,
    ensures
        size > i64::MAX ==> r is Err,
{
    stmt.execute((path, Duration::new(secs, nanos).as_secs_f64(), size))
}

/// Why the store could not do what was asked of it.
#[derive(Debug)]
pub enum DbError {
    /// SQLite refused or failed.
    Sqlite(rusqlite::Error),
    /// The schema could not be brought to its latest version.
    Migration(rusqlite_migration::Error),
    /// A write that has to change exactly one row changed this many.
    RowCount(usize),
}

/// Holds the values for the metadata columns in the table: when the file was
/// last modified, in whole seconds since the Unix epoch and nanoseconds beyond
/// them, and how many bytes it has.
#[derive(Debug, Clone, Copy, PartialEq, Eq)]
pub struct MetadataValues {
    modified_secs: u64,
    modified_nanos: u32,
    size: u64,
}

impl View for MetadataValues {
    type V = Metadata;

    closed spec fn view(&self) -> Metadata {
        Metadata {
            modified_ns: (self.modified_secs * NANOS_PER_SEC + self.modified_nanos) as nat,
            size: self.size as nat,
        }
    }
}

impl Default for MetadataValues {
    fn default() -> (metadata: Self)
        ensures
            metadata@ == (Metadata { modified_ns: 0, size: 0 }),
    {
        MetadataValues::new(0, 0, 0)
    }
}

impl MetadataValues {
    #[verifier::type_invariant]
    spec fn subsecond(&self) -> bool {
        self.modified_nanos < NANOS_PER_SEC
    }

    /// The metadata of a file of `size` bytes that was last modified `secs`
    /// seconds and `nanos` nanoseconds after the Unix epoch.
    pub fn new(secs: u64, nanos: u32, size: u64) -> (metadata: Self)
        requires
            nanos < NANOS_PER_SEC,
        ensures
            metadata@ == (Metadata {
                modified_ns: (secs * NANOS_PER_SEC + nanos) as nat,
                size: size as nat,
            }),
    {
        MetadataValues { modified_secs: secs, modified_nanos: nanos, size }
    }
}

/// The migrations that bring a database to the current schema, oldest first.
pub fn migrations() -> (set: Migrations<'static>)
    ensures
        migration_scripts(set) == seq![SCHEMA_V1@],
{
    let mut steps: Vec<M<'static>> = Vec::new();
    steps.push(migration_up(SCHEMA_V1));
    let set = migrations_new(steps);
    assert(migration_scripts(set) =~= seq![SCHEMA_V1@]);
    set
}

/// Whether the store can hold a size. SQLite keeps integers signed, in 64 bits.
pub open spec fn storable(size: nat) -> bool {
    size <= i64::MAX
}

/// What the store makes of an answer of SQLite: the value as it came, or the
/// error as an error of the store.
pub open spec fn answered<T>(answer: Result<T, rusqlite::Error>) -> Result<T, DbError> {
    match answer {
        Ok(value) => Ok(value),
        Err(e) => Err(DbError::Sqlite(e)),
    }
}

/// What the store makes of the number of rows that a write has changed.
pub open spec fn one_row(changed: usize) -> Result<(), DbError> {
    if changed == 1 {
        Ok(())
    } else {
        Err(DbError::RowCount(changed))
    }
}

/// What the store makes of the answer of SQLite to a write that is meant for one
/// row.
pub open spec fn written(answer: Result<usize, rusqlite::Error>) -> Result<(), DbError> {
    match answer {
        Ok(changed) => one_row(changed),
        Err(e) => Err(DbError::Sqlite(e)),
    }
}

/// What setting a connection up comes to, given the answer to the migrations:
/// the connection, or the error as an error of the store.
pub open spec fn migrated(conn: Connection, answer: Result<(), rusqlite_migration::Error>)
    -> Result<Connection, DbError> {
    match answer {
        Ok(()) => Ok(conn),
        Err(e) => Err(DbError::Migration(e)),
    }
}

/// Takes an answer of SQLite as the store gives it on.
pub fn from_sqlite<T>(answer: Result<T, rusqlite::Error>) -> (r: Result<T, DbError>)
    ensures
        r == answered(answer),
{
    match answer {
        Ok(value) => Ok(value),
        Err(e) => Err(DbError::Sqlite(e)),
    }
}

/// The rule for a write that is meant for one row: it has to change exactly one.
pub fn single_row(changed: usize) -> (r: Result<(), DbError>)
    ensures
        r == one_row(changed),
        r is Ok <==> changed == 1,
        r matches Err(e) ==> e == DbError::RowCount(changed),
{
    if changed == 1 {
        Ok(())
    } else {
        Err(DbError::RowCount(changed))
    }
}

/// Takes the answer of SQLite to a write that is meant for one row: the write
/// has succeeded where SQLite has and exactly one row has changed.
pub fn from_write(answer: Result<usize, rusqlite::Error>) -> (r: Result<(), DbError>)
    ensures
        r == written(answer),
{
    match answer {
        Ok(changed) => single_row(changed),
        Err(e) => Err(DbError::Sqlite(e)),
    }
}

/// Takes the answer to the migrations of a connection that is being set up.
pub fn from_migration(conn: Connection, answer: Result<(), rusqlite_migration::Error>) -> (r:
    Result<Connection, DbError>)
    ensures
        r == migrated(conn, answer),
{
    match answer {
        Ok(()) => Ok(conn),
        Err(e) => Err(DbError::Migration(e)),
    }
}

/// Set up a connection, with PRAGMAs and schema migrations. Whether that works
/// is for SQLite to say: an error of the settings is an error of SQLite, one of
/// the migrations a migration error.
pub fn setup(conn: Connection) -> (r: Result<Connection, DbError>)
    ensures
        r matches Err(e) ==> e is Sqlite || e is Migration,
{
    let mut conn = conn;
    match from_sqlite(connection_execute_batch(&conn, PRAGMAS)) {
        Ok(()) => {},
        Err(e) => {
            return Err(e);
        },
    }
    let set = migrations();
    let answer = migrations_to_latest(&set, &mut conn);
    from_migration(conn, answer)
}

/// Opens the store in the working directory, creating it where there is none,
/// and brings its schema up to date.
pub fn open() -> (r: Result<Connection, DbError>)
    ensures
        r matches Err(e) ==> e is Sqlite || e is Migration,
{
    match from_sqlite(connection_open(DB_NAME)) {
        Ok(conn) => setup(conn),
        Err(e) => Err(e),
    }
}

/// In memory transient database
pub fn open_transient() -> (r: Result<Connection, DbError>)
    ensures
        r matches Err(e) ==> e is Sqlite || e is Migration,
{
    match from_sqlite(connection_open_in_memory()) {
        Ok(conn) => setup(conn),
        Err(e) => Err(e),
    }
}

/// Begins the write transaction of a run.
pub fn begin<'conn>(conn: &'conn mut Connection) -> (r: Result<Transaction<'conn>, DbError>)
    ensures
        r matches Err(e) ==> e is Sqlite,
{
    from_sqlite(connection_transaction(conn))
}

/// Commits the write transaction of a run.
pub fn commit_transaction(tx: Transaction<'_>) -> (r: Result<(), DbError>)
    ensures
        r matches Err(e) ==> e is Sqlite,
{
    from_sqlite(transaction_commit(tx))
}

/// Whether the store has a row for `path` with exactly this modification time
/// and size. The store keeps times as floating-point seconds and compares them
/// as such. A size that the store cannot hold is refused, whatever the store
/// holds; every other answer is the one of SQLite.
pub fn exists_by_metadata(
    conn: &mut Connection,
    path: &RelPath,
    metadata_values: &MetadataValues,
) -> (r: Result<bool, DbError>)
    ensures
        !storable(metadata_values@.size) ==> r is Err,
        r matches Err(e) ==> e is Sqlite,
{
    proof {
        use_type_invariant(metadata_values);
    }
    let mut stmt = match from_sqlite(connection_prepare_cached(&*conn, SELECT_BY_METADATA)) {
        Ok(stmt) => stmt,
        Err(e) => {
            return Err(e);
        },
    };
    from_sqlite(
        statement_exists_by_metadata(
            &mut stmt,
            path.get_relative_path(),
            metadata_values.modified_secs,
            metadata_values.modified_nanos,
            metadata_values.size,
        ),
    )
}

/// Whether the store has a row for `path` with exactly this size and checksum,
/// whatever its modification time. A size that the store cannot hold is
/// refused, whatever the store holds; every other answer is the one of SQLite.
pub fn exists_by_len_and_checksum(
    conn: &mut Connection,
    path: &RelPath,
    metadata_values: &MetadataValues,
    checksum: Checksum,
) -> (r: Result<bool, DbError>)
    ensures
        !storable(metadata_values@.size) ==> r is Err,
        r matches Err(e) ==> e is Sqlite,
{
    let mut stmt = match from_sqlite(
        connection_prepare_cached(&*conn, SELECT_BY_LEN_AND_CHECKSUM),
    ) {
        Ok(stmt) => stmt,
        Err(e) => {
            return Err(e);
        },
    };
    from_sqlite(
        statement_exists_by_content(
            &mut stmt,
            path.get_relative_path(),
            metadata_values.size,
            checksum.bytes(),
        ),
    )
}

/// Writes the whole row for `path`, in place of the one that may be there. A
/// size that the store cannot hold is refused by SQLite before anything is
/// written. A write that SQLite has made is taken for done only where it has
/// changed exactly one row.
pub fn upsert_entry(
    tx: &Transaction,
    path: &RelPath,
    metadata_values: &MetadataValues,
    checksum: Checksum,
) -> (r: Result<(), DbError>)
    ensures
        !storable(metadata_values@.size) ==> (r matches Err(e) && e is Sqlite),
        r matches Err(e) ==> e is Sqlite || (e matches DbError::RowCount(n) && n != 1),
{
    proof {
        use_type_invariant(metadata_values);
    }
    let mut stmt = match from_sqlite(
        connection_prepare_cached(transaction_connection(tx), UPSERT_ENTRY),
    ) {
        Ok(stmt) => stmt,
        Err(e) => {
            return Err(e);
        },
    };
    from_write(
        statement_execute_entry(
            &mut stmt,
            path.get_relative_path(),
            metadata_values.modified_secs,
            metadata_values.modified_nanos,
            metadata_values.size,
            checksum.bytes(),
        ),
    )
}

/// Writes the metadata columns of the row that `path` has, and leaves its
/// checksum alone. A size that the store cannot hold is refused by SQLite
/// before anything is written. A write that SQLite has made is taken for done
/// only where it has changed exactly one row.
pub fn update_metadata(tx: &Transaction, path: &RelPath, metadata_values: &MetadataValues) -> (r:
    Result<(), DbError>)
    ensures
        !storable(metadata_values@.size) ==> (r matches Err(e) && e is Sqlite),
        r matches Err(e) ==> e is Sqlite || (e matches DbError::RowCount(n) && n != 1),
{
    proof {
        use_type_invariant(metadata_values);
    }
    let mut stmt = match from_sqlite(
        connection_prepare_cached(transaction_connection(tx), UPDATE_METADATA),
    ) {
        Ok(stmt) => stmt,
        Err(e) => {
            return Err(e);
        },
    };
    from_write(
        statement_execute_metadata(
            &mut stmt,
            path.get_relative_path(),
            metadata_values.modified_secs,
            metadata_values.modified_nanos,
            metadata_values.size,
        ),
    )
}

} // verus!
