//! The idempotent store: one durable sqlite table
//! `solar(pvSolar NUMERIC, solar NUMERIC, timestamp TEXT UNIQUE)`.
//!
//! Deduplication is the uniqueness constraint on `timestamp` and nothing
//! else: inserting a timestamp the table already holds is a silent no-op, so
//! re-fetching any window can only add rows, never change one. Rows are only
//! ever added — the store grows and is never updated or deleted.
//!
//! The contracts here describe the `solar` table as `ensure_schema` lays it
//! out, reached through a run's one connection; one run is the store's only
//! writer, so what a statement finds is what the previous statements left.

use vstd::prelude::*;
use crate::record::SolarData;

verus! {

/// Declares rusqlite's `Connection` — the handle to the sqlite database —
/// so that it can stand in signatures and fields; its inside stays opaque.
#[verifier::external_type_specification]
#[verifier::external_body]
pub struct ExConnection(rusqlite::Connection);

/// The rows of the `solar` table reachable through a connection: each stored
/// timestamp mapped to the `(pv_solar, solar)` texts that were bound when its
/// row was inserted.
pub uninterp spec fn store_rows(conn: rusqlite::Connection) -> Map<Seq<char>, (Seq<char>, Seq<char>)>;

/// How the store answered one insert.
#[derive(Debug, Clone, Copy, PartialEq, Eq, Structural)]
pub enum InsertOutcome {
    /// The timestamp was new; the row is now stored.
    Inserted,
    /// A row with this timestamp already existed; nothing changed.
    Duplicate,
    /// The database refused the row for some other reason; nothing changed.
    Failed,
}

/// How one insert of `vals` under the key `ts` moves the table from `pre` to
/// `post`: an accepted insert adds exactly the one new row, a duplicate is a
/// no-op on a table that already holds the key, and any other failure is a
/// no-op.
pub open spec fn insert_transition(
    pre: Map<Seq<char>, (Seq<char>, Seq<char>)>,
    post: Map<Seq<char>, (Seq<char>, Seq<char>)>,
    ts: Seq<char>,
    vals: (Seq<char>, Seq<char>),
    outcome: InsertOutcome,
) -> bool {
    match outcome {
        InsertOutcome::Inserted => !pre.contains_key(ts) && post == pre.insert(ts, vals),
        InsertOutcome::Duplicate => pre.contains_key(ts) && post == pre,
        InsertOutcome::Failed => post == pre,
    }
}

/// Every row of `pre` stands unchanged in `post`: nothing the store held is
/// ever lost or rewritten.
pub open spec fn preserves_rows(
    pre: Map<Seq<char>, (Seq<char>, Seq<char>)>,
    post: Map<Seq<char>, (Seq<char>, Seq<char>)>,
) -> bool {
    forall|ts: Seq<char>|
        #[trigger] pre.contains_key(ts) ==> post.contains_key(ts) && post[ts] == pre[ts]
}

/// Relies on rusqlite's `Connection::open`: opens the database at `path`
/// (creating the file if absent), or fails. What the table already holds
/// depends on the file, so nothing is stated of the rows.
#[verifier::external_body]
fn open_conn(path: &str) -> (r: Option<rusqlite::Connection>) {
    rusqlite::Connection::open(path).ok()
}

/// Relies on rusqlite's `Connection::execute` running `CREATE TABLE IF NOT
/// EXISTS`: whether the statement succeeds or fails, no row is added,
/// changed or removed.
#[verifier::external_body]
fn create_solar_table(conn: &mut rusqlite::Connection) -> (r: bool)
    ensures
        store_rows(*final(conn)) == store_rows(*old(conn)),
{
    conn.execute(
        "CREATE TABLE IF NOT EXISTS solar (pvSolar NUMERIC, solar NUMERIC, timestamp TEXT UNIQUE)",
        (),
    ).is_ok()
}

/// Relies on rusqlite's `Connection::execute` running a single-row `INSERT`
/// into the `solar` table, whose `timestamp` column is its only constraint
/// (UNIQUE): sqlite stores the new row when the timestamp is absent, rejects
/// it with a constraint violation when it is present (the statement is
/// backed out whole), and on any other failure leaves the table as it was.
#[verifier::external_body]
fn insert_row(
    conn: &mut rusqlite::Connection,
    pv_solar: &str,
    solar: &str,
    timestamp: &str,
) -> (r: InsertOutcome)
    ensures
        insert_transition(
            store_rows(*old(conn)),
            store_rows(*final(conn)),
            timestamp@,
            (pv_solar@, solar@),
            r,
        ),
{
    let res = conn.execute(
        "INSERT INTO solar (pvSolar, solar, timestamp) VALUES (?1, ?2, ?3)",
        (pv_solar, solar, timestamp),
    );
    match res {
        Ok(_) => InsertOutcome::Inserted,
        Err(e) => match e.sqlite_error_code() {
            Some(rusqlite::ErrorCode::ConstraintViolation) => InsertOutcome::Duplicate,
            _ => InsertOutcome::Failed,
        },
    }
}

/// Relies on rusqlite's `Connection::query_row` running `SELECT COUNT(*) ...
/// WHERE timestamp = ?`: the count is 1 exactly when the timestamp is stored
/// (the UNIQUE constraint admits at most one such row) and 0 exactly when it
/// is not; when the query itself fails nothing is returned.
#[verifier::external_body]
fn count_timestamp(conn: &rusqlite::Connection, timestamp: &str) -> (r: Option<i64>)
    ensures
        r matches Some(n) ==> {
            &&& n == 1 <==> store_rows(*conn).contains_key(timestamp@)
            &&& n == 0 <==> !store_rows(*conn).contains_key(timestamp@)
        },
{
    let res: Result<i64, rusqlite::Error> = conn.query_row(
        "SELECT COUNT(*) FROM solar WHERE timestamp = ?1",
        (timestamp,),
        |row| row.get(0),
    );
    res.ok()
}

/// Relies on rusqlite's `Connection::close`: hands the connection back to
/// sqlite and reports whether shutting it down succeeded.
#[verifier::external_body]
fn close_conn(conn: rusqlite::Connection) -> (r: bool) {
    conn.close().is_ok()
}

/// The idempotent store: an open connection to the database holding the
/// `solar` table. Opened once per run, used for the schema check and the
/// full batch insert, then closed.
pub struct SolarStore {
    conn: rusqlite::Connection,
}

impl SolarStore {
    /// The table's current rows: each stored timestamp with its readings.
    pub closed spec fn rows(self) -> Map<Seq<char>, (Seq<char>, Seq<char>)> {
        store_rows(self.conn)
    }

    /// Opens the store at `path`, creating the database file if absent;
    /// `None` when it cannot be opened. The table keeps whatever rows the
    /// file already held.
    pub fn open(path: &str) -> (r: Option<SolarStore>) {
        match open_conn(path) {
            Some(conn) => Some(SolarStore { conn }),
            None => None,
        }
    }

    /// Creates the `solar` table if it does not exist. Idempotent and safe
    /// to call every run: however it ends, the stored rows are untouched.
    /// Returns whether the schema is now in place.
    pub fn ensure_schema(&mut self) -> (r: bool)
        ensures
            final(self).rows() == old(self).rows(),
    {
        create_solar_table(&mut self.conn)
    }

    /// Inserts one normalized sample. A timestamp the table already holds is
    /// reported `Duplicate` and changes nothing — the store's sole
    /// deduplication; a fresh timestamp the database accepts is stored with
    /// the sample's readings; any other failure changes nothing.
    pub fn insert(&mut self, sample: &SolarData) -> (r: InsertOutcome)
        ensures
            insert_transition(
                old(self).rows(),
                final(self).rows(),
                sample.timestamp@,
                (sample.pv_solar@, sample.solar@),
                r,
            ),
    {
        insert_row(
            &mut self.conn,
            sample.pv_solar.as_str(),
            sample.solar.as_str(),
            sample.timestamp.as_str(),
        )
    }

    /// Whether a sample with `timestamp` is stored; `None` when the lookup
    /// itself fails.
    pub fn contains_timestamp(&self, timestamp: &str) -> (r: Option<bool>)
        ensures
            r matches Some(b) ==> b == self.rows().contains_key(timestamp@),
    {
        match count_timestamp(&self.conn, timestamp) {
            Some(n) => Some(n == 1),
            None => None,
        }
    }

    /// Closes the store and reports whether shutdown succeeded.
    pub fn close(self) -> (r: bool) {
        close_conn(self.conn)
    }
}

/// Idempotent insert: once an insert of a timestamp has been answered —
/// accepted, or found already present — a second insert of the same
/// timestamp cannot be accepted again and changes nothing: the store keeps
/// exactly the one row it holds under that timestamp.
pub proof fn lemma_insert_idempotent(
    rows0: Map<Seq<char>, (Seq<char>, Seq<char>)>,
    rows1: Map<Seq<char>, (Seq<char>, Seq<char>)>,
    rows2: Map<Seq<char>, (Seq<char>, Seq<char>)>,
    ts: Seq<char>,
    vals1: (Seq<char>, Seq<char>),
    vals2: (Seq<char>, Seq<char>),
    o1: InsertOutcome,
    o2: InsertOutcome,
)
    requires
        insert_transition(rows0, rows1, ts, vals1, o1),
        insert_transition(rows1, rows2, ts, vals2, o2),
        o1 != InsertOutcome::Failed,
    ensures
        rows1.contains_key(ts),
        o2 != InsertOutcome::Inserted,
        rows2 == rows1,
{
}

/// First write wins: after a timestamp's row has been accepted with one pair
/// of readings, an insert of the same timestamp with any other readings
/// leaves the stored pair exactly as the first write put it.
pub proof fn lemma_first_write_wins(
    rows0: Map<Seq<char>, (Seq<char>, Seq<char>)>,
    rows1: Map<Seq<char>, (Seq<char>, Seq<char>)>,
    rows2: Map<Seq<char>, (Seq<char>, Seq<char>)>,
    ts: Seq<char>,
    vals1: (Seq<char>, Seq<char>),
    vals2: (Seq<char>, Seq<char>),
    o2: InsertOutcome,
)
    requires
        insert_transition(rows0, rows1, ts, vals1, InsertOutcome::Inserted),
        insert_transition(rows1, rows2, ts, vals2, o2),
    ensures
        rows2.contains_key(ts),
        rows2[ts] == vals1,
{
}

} // verus!
