//! The rollup store: one SQLite table per resolution tier, schema creation
//! and row insertion. All SQLite access goes through the trusted wrappers in
//! this module; everything around them, including the exact statement text
//! handed to the store, is verified.
//!
//! Durable layout note for external readers of the tables: every metric
//! column is typed INTEGER, and the continuous metrics (load averages, CPU
//! percentage) are stored in fixed-point hundredths of a unit; the boundary
//! that feeds and consumes snapshots converts between hundredths and
//! floating point.

use vstd::prelude::*;
use vstd::string::StringExecFns;

verus! {

/// One of the four fixed resolution tiers of the rollup pipeline.
#[derive(Clone, Copy, Debug, PartialEq, Eq, Structural)]
pub enum Tier {
    Per10Second,
    Per1Minute,
    Per5Minute,
    Per1Hour,
}

/// The period of a tier, in seconds.
pub open spec fn spec_period(t: Tier) -> int {
    match t {
        Tier::Per10Second => 10,
        Tier::Per1Minute => 60,
        Tier::Per5Minute => 300,
        Tier::Per1Hour => 3600,
    }
}

/// The name of the table that persists a tier. Column order and naming form
/// the durable layout other tools may read directly.
pub open spec fn spec_table_name(t: Tier) -> Seq<char> {
    match t {
        Tier::Per10Second => "DataPer10Second"@,
        Tier::Per1Minute => "DataPer1Minute"@,
        Tier::Per5Minute => "DataPer5Minute"@,
        Tier::Per1Hour => "DataPer1Hour"@,
    }
}

/// The table that persists a tier.
pub fn table_name(t: Tier) -> (r: &'static str)
    ensures
        r@ == spec_table_name(t),
{
    match t {
        Tier::Per10Second => "DataPer10Second",
        Tier::Per1Minute => "DataPer1Minute",
        Tier::Per5Minute => "DataPer5Minute",
        Tier::Per1Hour => "DataPer1Hour",
    }
}

/// Errors surfaced by the store and the range reader.
#[derive(Clone, Copy, Debug, PartialEq, Eq, Structural)]
pub enum StoreError {
    /// The database could not be opened.
    Open,
    /// A statement failed to prepare or run.
    Query,
    /// A returned row did not have the expected shape (fourteen integer
    /// columns, the value columns non-negative).
    BadRow,
    /// The query range was malformed: a negative bound, a stop before the
    /// start, a non-positive period, or a range too large to materialize.
    InvalidRange,
    /// Returned timestamps were not an ascending subsequence of the expected
    /// grid, so gap positions cannot be aligned.
    Misaligned,
}

#[verifier::external_type_specification]
#[verifier::external_body]
pub struct ExConnection(rusqlite::Connection);

#[verifier::external_type_specification]
#[verifier::external_body]
pub struct ExRusqliteError(rusqlite::Error);

/// Relies on rusqlite's `Connection::open`: opens (creating it if absent) the
/// SQLite database file at `db_path`.
#[verifier::external_body]
pub(crate) fn open_connection(db_path: &str) -> (r: Result<
    rusqlite::Connection,
    rusqlite::Error,
>) {
    rusqlite::Connection::open(db_path)
}

/// Relies on rusqlite's `Connection::execute`: runs one parameterless SQL
/// statement.
#[verifier::external_body]
fn execute_sql(conn: &rusqlite::Connection, sql: &str) -> (r: Result<(), rusqlite::Error>) {
    conn.execute(sql, []).map(|_| ())
}

/// Relies on rusqlite's `Connection::execute`: runs `sql` with the fourteen
/// fields of `data`, in declaration order, bound as the positional parameters
/// `?1` to `?14`. A counter above `i64::MAX` exceeds SQLite's integer range
/// and makes the call fail rather than wrap.
#[verifier::external_body]
fn execute_insert(
    conn: &rusqlite::Connection,
    sql: &str,
    data: &crate::monitoring_data::MonitoringData,
) -> (r: Result<(), rusqlite::Error>) {
    let params = (
        data.timestamp, data.load_1, data.load_5, data.load_15, data.cpu_usage,
        data.memory_used, data.memory_free, data.swap_used, data.swap_free, data.disk_used,
        data.disk_read, data.disk_write, data.network_rx, data.network_tx,
    );
    conn.execute(sql, params).map(|_| ())
}

/// Relies on rusqlite's `Connection::prepare`, `Statement::query_map` and
/// `Row::get`: selects the rows of `table` with `start <= timestamp < stop`,
/// asking for ascending timestamp order, and hands each row back as its
/// fourteen integer column values.
#[verifier::external_body]
pub(crate) fn query_rows(
    conn: &rusqlite::Connection,
    table: &str,
    start: i64,
    stop: i64,
) -> (r: Result<Vec<Vec<i64>>, rusqlite::Error>) {
    let sql = format!(
        "SELECT * FROM {} WHERE timestamp >= {} AND timestamp < {} ORDER BY timestamp ASC;",
        table, start, stop
    );
    let mut stmt = conn.prepare(&sql)?;
    let rows = stmt.query_map([], |row| (0..14).map(|i| row.get::<_, i64>(i)).collect())?;
    rows.collect()
}

/// Write handle on the rollup store.
pub struct SQLiteDB {
    sqlite_conn: rusqlite::Connection,
}

impl SQLiteDB {
    /// Opens the store at `db_path`.
    pub fn new(db_path: &str) -> (r: Result<SQLiteDB, StoreError>)
    {
        match open_connection(db_path) {
            Ok(conn) => Ok(SQLiteDB { sqlite_conn: conn }),
            Err(_) => Err(StoreError::Open),
        }
    }

    /// Idempotently creates the table `table_name` with the durable rollup
    /// schema: an integer timestamp primary key and one INTEGER column per
    /// metric field, in the fixed column order of `spec_sql_create_table`.
    /// The statement handed to the store is exactly that text; only the
    /// execution itself is trusted (`execute_sql`).
    pub fn crate_table(&self, table_name: &str) -> (r: Result<(), rusqlite::Error>)
    {
        let sql = sql_create_table(table_name);
        execute_sql(&self.sqlite_conn, sql.as_str())
    }

    /// Inserts one averaged row into `table_name`; the statement handed to the
    /// store is exactly `spec_sql_insert_row(table_name@)`, feeding each
    /// column of the durable layout from the matching field of `data`. Fails
    /// when the timestamp already exists in that table (primary-key
    /// violation); callers treat that as non-fatal.
    pub fn insert_data(
        &self,
        table_name: &str,
        data: crate::monitoring_data::MonitoringData,
    ) -> (r: Result<(), rusqlite::Error>)
    {
        let sql = sql_insert_row(table_name);
        execute_insert(&self.sqlite_conn, sql.as_str(), &data)
    }
}

/// The exact CREATE TABLE statement handed to the store for `table`: an
/// idempotent create with the integer timestamp primary key and the thirteen
/// INTEGER metric columns in durable order.
pub open spec fn spec_sql_create_table(table: Seq<char>) -> Seq<char> {
    "CREATE TABLE IF NOT EXISTS "@ + table
        + " (timestamp INTEGER PRIMARY KEY, load_1 INTEGER, load_5 INTEGER, load_15 INTEGER, cpu_usage INTEGER, memory_used INTEGER, memory_free INTEGER, swap_used INTEGER, swap_free INTEGER, disk_used INTEGER, disk_read INTEGER, disk_write INTEGER, network_rx INTEGER, network_tx INTEGER)"@
}

/// Builds the CREATE TABLE statement for `table_name`.
fn sql_create_table(table_name: &str) -> (r: String)
    ensures
        r@ == spec_sql_create_table(table_name@),
{
    let mut s: String = "CREATE TABLE IF NOT EXISTS ".to_owned();
    s.append(table_name);
    s.append(
        " (timestamp INTEGER PRIMARY KEY, load_1 INTEGER, load_5 INTEGER, load_15 INTEGER, cpu_usage INTEGER, memory_used INTEGER, memory_free INTEGER, swap_used INTEGER, swap_free INTEGER, disk_used INTEGER, disk_read INTEGER, disk_write INTEGER, network_rx INTEGER, network_tx INTEGER)",
    );
    s
}

/// The exact INSERT statement handed to the store for `table`: the fourteen
/// columns of the durable layout in order, each fed by the positional
/// parameter of the same rank.
pub open spec fn spec_sql_insert_row(table: Seq<char>) -> Seq<char> {
    "INSERT INTO "@ + table
        + " (timestamp, load_1, load_5, load_15, cpu_usage, memory_used, memory_free, swap_used, swap_free, disk_used, disk_read, disk_write, network_rx, network_tx) VALUES (?1, ?2, ?3, ?4, ?5, ?6, ?7, ?8, ?9, ?10, ?11, ?12, ?13, ?14)"@
}

/// Builds the INSERT statement for one row of `table_name`.
fn sql_insert_row(table_name: &str) -> (r: String)
    ensures
        r@ == spec_sql_insert_row(table_name@),
{
    let mut s: String = "INSERT INTO ".to_owned();
    s.append(table_name);
    s.append(
        " (timestamp, load_1, load_5, load_15, cpu_usage, memory_used, memory_free, swap_used, swap_free, disk_used, disk_read, disk_write, network_rx, network_tx) VALUES (?1, ?2, ?3, ?4, ?5, ?6, ?7, ?8, ?9, ?10, ?11, ?12, ?13, ?14)",
    );
    s
}

} // verus!
