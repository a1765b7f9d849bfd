//! The trusted boundary around the embedded SQLite engine. Everything the
//! store asks of rusqlite goes through one of the wrappers below; their
//! contracts speak of `table_rows`, the abstract contents of the `boxes`
//! table behind a connection.

use vstd::prelude::*;
use crate::db::Row;
use crate::db::rows_after_update;
use crate::db::rows_with_ip;
use crate::db::rows_with_key;
use crate::db::surviving_rows;

verus! {

#[verifier::external_type_specification]
#[verifier::external_body]
pub struct ExConnection(rusqlite::Connection);

#[verifier::external_type_specification]
#[verifier::external_body]
pub struct ExSqlError(rusqlite::Error);

/// The contents of the `boxes` table behind a connection, one element per
/// row, in the table's natural scan order.
pub uninterp spec fn table_rows(c: rusqlite::Connection) -> Seq<Row>;

/// The model of one row as it comes back from a query.
pub open spec fn row_view(t: (String, String, i64, i64)) -> Row {
    (t.0@, t.1@, t.2 as int, t.3 as int)
}

/// The model of a whole query result.
pub open spec fn raw_rows(v: Seq<(String, String, i64, i64)>) -> Seq<Row> {
    v.map_values(|t: (String, String, i64, i64)| row_view(t))
}

/// Relies on `rusqlite::Connection::open`: opens, or creates, the SQLite
/// database at the given path. Nothing is assumed of its contents.
#[verifier::external_body]
pub(crate) fn open_connection(path: &str) -> (r: Result<rusqlite::Connection, rusqlite::Error>) {
    rusqlite::Connection::open(path)
}

/// Relies on `rusqlite::Connection::execute` with `CREATE TABLE IF NOT
/// EXISTS`: idempotent bootstrap that never touches existing rows.
#[verifier::external_body]
pub(crate) fn create_boxes_table(conn: &mut rusqlite::Connection) -> (r: Result<
    (),
    rusqlite::Error,
>)
    ensures
        table_rows(*final(conn)) == table_rows(*old(conn)),
{
    let r = conn.execute(
        "CREATE TABLE IF NOT EXISTS boxes (
            public_ip TEXT NOT NULL,
            message TEXT,
            tunnel_configured INTEGER,
            timestamp INTEGER
        )",
        (),
    );
    match r {
        Ok(_) => Ok(()),
        Err(e) => Err(e),
    }
}

/// Relies on `rusqlite::Connection::execute` with a single-row `INSERT` of
/// bound parameters: on success the one new row stands at the end of the
/// table and the change count is 1; a failed statement changes nothing.
#[verifier::external_body]
pub(crate) fn insert_row(
    conn: &mut rusqlite::Connection,
    ip: &str,
    message: &str,
    tunnel: i64,
    stamp: i64,
) -> (r: Result<usize, rusqlite::Error>)
    ensures
        r matches Ok(n) ==> n == 1,
        r is Ok ==> table_rows(*final(conn)) == table_rows(*old(conn)).push(
            (ip@, message@, tunnel as int, stamp as int),
        ),
        r is Err ==> table_rows(*final(conn)) == table_rows(*old(conn)),
{
    conn.execute(
        "INSERT INTO boxes (public_ip, message, tunnel_configured, timestamp)
         VALUES (?1, ?2, ?3, ?4)",
        (ip, message, tunnel, stamp),
    )
}

/// Relies on `rusqlite::Connection::execute` with an `UPDATE` whose bound
/// parameters serve both the SET list and the WHERE clause: every row whose
/// `(public_ip, message)` pair equals the arguments is overwritten with the
/// argument values, the rest stay; the count is the number of matching
/// rows; a failed statement changes nothing.
#[verifier::external_body]
pub(crate) fn update_rows(
    conn: &mut rusqlite::Connection,
    ip: &str,
    message: &str,
    tunnel: i64,
    stamp: i64,
) -> (r: Result<usize, rusqlite::Error>)
    ensures
        r is Ok ==> table_rows(*final(conn)) == rows_after_update(
            table_rows(*old(conn)),
            (ip@, message@, tunnel as int, stamp as int),
        ),
        r matches Ok(n) ==> n == rows_with_key(table_rows(*old(conn)), ip@, message@).len(),
        r is Err ==> table_rows(*final(conn)) == table_rows(*old(conn)),
{
    conn.execute(
        "UPDATE boxes SET public_ip = ?1, message = ?2, tunnel_configured = ?3, timestamp = ?4
         WHERE public_ip = ?1 AND message = ?2",
        (ip, message, tunnel, stamp),
    )
}

/// Relies on `rusqlite::Connection::execute` with `DELETE ... WHERE
/// timestamp < ?1`: exactly the rows strictly older than the threshold
/// leave, the rest keep their order; the count is the number of rows
/// removed; a failed statement changes nothing.
#[verifier::external_body]
pub(crate) fn delete_rows_older_than(conn: &mut rusqlite::Connection, stamp: i64) -> (r: Result<
    usize,
    rusqlite::Error,
>)
    ensures
        r is Ok ==> table_rows(*final(conn)) == surviving_rows(
            table_rows(*old(conn)),
            stamp as int,
        ),
        r matches Ok(n) ==> n == table_rows(*old(conn)).len() - surviving_rows(
            table_rows(*old(conn)),
            stamp as int,
        ).len(),
        r is Err ==> table_rows(*final(conn)) == table_rows(*old(conn)),
{
    conn.execute("DELETE FROM boxes WHERE timestamp < ?1", (stamp,))
}

/// Relies on `rusqlite::Connection::execute_batch` with `DELETE FROM boxes`
/// followed by `VACUUM`: on success the table is empty and the space
/// reclaimed.
#[verifier::external_body]
pub(crate) fn delete_all_rows(conn: &mut rusqlite::Connection) -> (r: Result<
    (),
    rusqlite::Error,
>)
    ensures
        r is Ok ==> table_rows(*final(conn)) == Seq::<Row>::empty(),
{
    conn.execute_batch("DELETE FROM boxes; VACUUM;")
}

/// Relies on rusqlite `prepare`/`query_map` over `SELECT ... WHERE
/// public_ip = ?1`: on success exactly the rows with that public IP come
/// back, in the table's order.
#[verifier::external_body]
pub(crate) fn select_by_ip(conn: &rusqlite::Connection, ip: &str) -> (r: Result<
    Vec<(String, String, i64, i64)>,
    rusqlite::Error,
>)
    ensures
        r matches Ok(v) ==> raw_rows(v@) == rows_with_ip(table_rows(*conn), ip@),
{
    let mut stmt = conn.prepare(
        "SELECT public_ip, message, tunnel_configured, timestamp FROM boxes WHERE public_ip = ?1",
    )?;
    let rows = stmt.query_map((ip,), |row| {
        Ok((row.get(0)?, row.get(1)?, row.get(2)?, row.get(3)?))
    })?;
    rows.collect()
}

/// Relies on rusqlite `prepare`/`query_map` over `SELECT ... WHERE
/// public_ip = ?1 AND message = ?2`: on success exactly the rows with that
/// natural key come back, in the table's order.
#[verifier::external_body]
pub(crate) fn select_by_ip_and_message(
    conn: &rusqlite::Connection,
    ip: &str,
    message: &str,
) -> (r: Result<Vec<(String, String, i64, i64)>, rusqlite::Error>)
    ensures
        r matches Ok(v) ==> raw_rows(v@) == rows_with_key(table_rows(*conn), ip@, message@),
{
    let mut stmt = conn.prepare(
        "SELECT public_ip, message, tunnel_configured, timestamp FROM boxes
         WHERE public_ip = ?1 AND message = ?2",
    )?;
    let rows = stmt.query_map((ip, message), |row| {
        Ok((row.get(0)?, row.get(1)?, row.get(2)?, row.get(3)?))
    })?;
    rows.collect()
}

} // verus!
