//! The record store: the `Record` value type, the filter algebra used by
//! lookups, and the `Db` handle over the single `boxes` table.

use vstd::prelude::*;

verus! {

/// The mathematical model of one persisted row:
/// `(public_ip, message, tunnel_configured as an integer, timestamp)`.
pub type Row = (Seq<char>, Seq<char>, int, int);

/// One registration record. A value type: the store never constructs one
/// on its own, and no identity field exists beyond the fields themselves.
#[derive(Debug)]
pub struct Record {
    /// An IPv4/IPv6 literal; the store does not validate it.
    pub public_ip: String,
    /// An opaque tunnel-fingerprint hostname.
    pub message: String,
    /// Persisted as the integer 0 or 1.
    pub tunnel_configured: bool,
    /// Seconds since the Unix epoch, chosen by the caller.
    pub timestamp: i64,
}

impl View for Record {
    type V = (Seq<char>, Seq<char>, bool, int);

    open spec fn view(&self) -> Self::V {
        (self.public_ip@, self.message@, self.tunnel_configured, self.timestamp as int)
    }
}

impl Record {
    /// The table row this record is persisted as.
    pub open spec fn as_row(&self) -> Row {
        (
            self.public_ip@,
            self.message@,
            if self.tunnel_configured { 1int } else { 0int },
            self.timestamp as int,
        )
    }
}

/// The record a row is read back as: a non-zero flag column counts as `true`.
pub open spec fn row_record(row: Row) -> (Seq<char>, Seq<char>, bool, int) {
    (row.0, row.1, row.2 != 0, row.3)
}

/// The closed filter algebra of `find`: equality on the public IP, or on
/// the `(public_ip, message)` pair. No ranges, ordering or pagination.
pub enum FindFilter {
    PublicIp(String),
    PublicIpAndMessage(String, String),
}

/// The rows with a given public IP, in table order.
pub open spec fn rows_with_ip(rows: Seq<Row>, ip: Seq<char>) -> Seq<Row> {
    rows.filter(|row: Row| row.0 == ip)
}

/// The rows with a given `(public_ip, message)` natural key, in table order.
pub open spec fn rows_with_key(rows: Seq<Row>, ip: Seq<char>, message: Seq<char>) -> Seq<Row> {
    rows.filter(|row: Row| row.0 == ip && row.1 == message)
}

/// The rows a lookup returns: the selected rows, in table order.
pub open spec fn find_rows(rows: Seq<Row>, filter: FindFilter) -> Seq<Row> {
    match filter {
        FindFilter::PublicIp(ip) => rows_with_ip(rows, ip@),
        FindFilter::PublicIpAndMessage(ip, message) => rows_with_key(rows, ip@, message@),
    }
}

/// The table after an update: every row whose `(public_ip, message)` pair
/// equals the new row's own pair is overwritten with the new row — the
/// match key and the write key deliberately coincide, so the natural key
/// itself cannot be renamed — and every other row stays as it is.
pub open spec fn rows_after_update(rows: Seq<Row>, new_row: Row) -> Seq<Row> {
    rows.map_values(
        |row: Row| if row.0 == new_row.0 && row.1 == new_row.1 {
            new_row
        } else {
            row
        },
    )
}

/// The rows that survive an eviction with the given threshold: eviction is
/// strictly-less-than, so a row whose timestamp equals the threshold stays.
pub open spec fn surviving_rows(rows: Seq<Row>, threshold: int) -> Seq<Row> {
    rows.filter(|row: Row| row.3 >= threshold)
}

/// What a single-quote character becomes under SQL escaping.
pub open spec fn escape_char(c: char) -> Seq<char> {
    if c == '\'' {
        seq!['\'', '\'']
    } else {
        seq![c]
    }
}

/// SQL string escaping: every single-quote character is doubled and every
/// other character is kept as it is.
pub open spec fn escape_spec(s: Seq<char>) -> Seq<char>
    decreases s.len(),
{
    if s.len() == 0 {
        Seq::empty()
    } else {
        escape_spec(s.drop_last()) + escape_char(s.last())
    }
}

proof fn lemma_escape_spec_push(prefix: Seq<char>, c: char)
    ensures
        escape_spec(prefix.push(c)) == escape_spec(prefix) + escape_char(c),
{
    assert(prefix.push(c).drop_last() =~= prefix);
    assert(prefix.push(c).last() == c);
}

/// Relies on `String::push`: appends exactly the one character.
#[verifier::external_body]
pub(crate) fn push_char(s: &mut String, c: char)
    ensures
        final(s)@ == old(s)@.push(c),
{
    s.push(c);
}

/// Doubles every single-quote in the input, the fallback quoting discipline
/// for query text built without bound parameters. The store itself binds
/// every parameter, so it never rewrites values with this.
pub fn escape(string: &str) -> (r: String)
    ensures
        r@ == escape_spec(string@),
{
    let n = string.unicode_len();
    let mut out = String::new();
    let mut i: usize = 0;
    while i < n
        invariant
            n == string@.len(),
            i <= n,
            out@ == escape_spec(string@.take(i as int)),
        decreases n - i,
    {
        let c = string.get_char(i);
        if c == '\'' {
            push_char(&mut out, '\'');
            push_char(&mut out, '\'');
        } else {
            push_char(&mut out, c);
        }
        proof {
            let prefix = string@.take(i as int);
            assert(string@.take(i + 1) =~= prefix.push(string@[i as int]));
            lemma_escape_spec_push(prefix, string@[i as int]);
            assert(out@ =~= escape_spec(prefix) + escape_char(string@[i as int]));
        }
        i = i + 1;
    }
    proof {
        assert(string@.take(n as int) =~= string@);
    }
    out
}

/// The view of a list of records, one model tuple per record.
pub open spec fn records_view(records: Seq<Record>) -> Seq<(Seq<char>, Seq<char>, bool, int)> {
    records.map_values(|rec: Record| rec@)
}

/// The records a list of rows is read back as.
pub open spec fn read_back(rows: Seq<Row>) -> Seq<(Seq<char>, Seq<char>, bool, int)> {
    rows.map_values(|row: Row| row_record(row))
}

/// The storage fault every failed operation surfaces: the underlying
/// engine's error, never swallowed, never retried.
#[derive(Debug)]
pub struct StorageFault {
    pub cause: rusqlite::Error,
}

/// A handle over the single `boxes` table. It owns its connection for its
/// whole lifetime and holds no cache: every read reflects persisted state.
pub struct Db {
    connection: rusqlite::Connection,
}

impl View for Db {
    type V = Seq<Row>;

    closed spec fn view(&self) -> Seq<Row> {
        crate::sql::table_rows(self.connection)
    }
}

impl Db {
    /// Opens (or creates) the backing store at `path` and issues the
    /// idempotent table bootstrap. A failure of either step is surfaced:
    /// no handle exists that could silently degrade.
    pub fn new(path: &str) -> (r: Result<Db, StorageFault>) {
        let mut connection = match crate::sql::open_connection(path) {
            Ok(c) => c,
            Err(e) => {
                return Err(StorageFault { cause: e });
            },
        };
        match crate::sql::create_boxes_table(&mut connection) {
            Ok(_) => Ok(Db { connection }),
            Err(e) => Err(StorageFault { cause: e }),
        }
    }

    /// Seconds since the Unix epoch by the wall clock. A clock that reads
    /// before the epoch yields 0 and one beyond the signed range
    /// saturates, so the result is never negative.
    pub fn seconds_from_epoch() -> (r: i64)
        ensures
            r >= 0,
    {
        match crate::clock::since_epoch(&crate::clock::system_now()) {
            Ok(d) => {
                let s = crate::clock::duration_secs(&d);
                if s > i64::MAX as u64 {
                    i64::MAX
                } else {
                    s as i64
                }
            },
            Err(_) => 0,
        }
    }

    /// Looks up the records selected by the filter, in the table's natural
    /// scan order. Nothing matching is an empty list, not a fault.
    pub fn find(&self, filter: FindFilter) -> (r: Result<Vec<Record>, StorageFault>)
        ensures
            r matches Ok(records) ==> records_view(records@) == read_back(
                find_rows(self@, filter),
            ),
    {
        let queried = match &filter {
            FindFilter::PublicIp(ip) => crate::sql::select_by_ip(&self.connection, ip.as_str()),
            FindFilter::PublicIpAndMessage(ip, message) => crate::sql::select_by_ip_and_message(
                &self.connection,
                ip.as_str(),
                message.as_str(),
            ),
        };
        let raw = match queried {
            Ok(v) => v,
            Err(e) => {
                return Err(StorageFault { cause: e });
            },
        };
        proof {
            assert(crate::sql::raw_rows(raw@) == find_rows(self@, filter));
        }
        let mut records: Vec<Record> = Vec::new();
        let mut i: usize = 0;
        while i < raw.len()
            invariant
                i <= raw.len(),
                records_view(records@) =~= read_back(
                    crate::sql::raw_rows(raw@).take(i as int),
                ),
            decreases raw.len() - i,
        {
            let ghost prev = records@;
            let t = &raw[i];
            let rec = Record {
                public_ip: t.0.clone(),
                message: t.1.clone(),
                tunnel_configured: t.2 != 0,
                timestamp: t.3,
            };
            proof {
                assert(rec@ == row_record(crate::sql::row_view(raw@[i as int])));
            }
            records.push(rec);
            proof {
                let target = read_back(crate::sql::raw_rows(raw@).take(i + 1));
                assert(crate::sql::raw_rows(raw@).len() == raw@.len());
                assert(records_view(prev).len() == prev.len());
                assert(read_back(crate::sql::raw_rows(raw@).take(i as int)).len() == i);
                assert(prev.len() == i);
                assert(records@.len() == i + 1);
                assert forall|j: int| 0 <= j < i + 1 implies records_view(records@)[j]
                    == target[j] by {
                    if j < i {
                        assert(records@[j] == prev[j]);
                        assert(records_view(prev)[j] == read_back(
                            crate::sql::raw_rows(raw@).take(i as int),
                        )[j]);
                    }
                }
                assert(records_view(records@) =~= target);
            }
            i = i + 1;
        }
        proof {
            assert(crate::sql::raw_rows(raw@).take(raw@.len() as int) =~= crate::sql::raw_rows(
                raw@,
            ));
            assert(records_view(records@) =~= read_back(find_rows(self@, filter)));
        }
        Ok(records)
    }

    /// Appends the record as one new row — a pure insert that never looks
    /// for existing rows with the same key. On success the count is 1.
    pub fn add(&mut self, record: Record) -> (r: Result<usize, StorageFault>)
        ensures
            r is Ok ==> final(self)@ == old(self)@.push(record.as_row()),
            r matches Ok(n) ==> n == 1,
            r is Err ==> final(self)@ == old(self)@,
    {
        let tunnel = bool_as_int(&record.tunnel_configured);
        let outcome = crate::sql::insert_row(
            &mut self.connection,
            record.public_ip.as_str(),
            record.message.as_str(),
            tunnel as i64,
            record.timestamp,
        );
        match outcome {
            Ok(n) => Ok(n),
            Err(e) => Err(StorageFault { cause: e }),
        }
    }

    /// Overwrites every row whose `(public_ip, message)` pair equals the
    /// record's own pair with the record's values; the count — 0 when no
    /// row matches, a legitimate outcome — is the number of matching rows.
    pub fn update(&mut self, record: Record) -> (r: Result<usize, StorageFault>)
        ensures
            r is Ok ==> final(self)@ == rows_after_update(old(self)@, record.as_row()),
            r matches Ok(n) ==> n == rows_with_key(
                old(self)@,
                record.public_ip@,
                record.message@,
            ).len(),
            r is Err ==> final(self)@ == old(self)@,
    {
        let tunnel = bool_as_int(&record.tunnel_configured);
        let outcome = crate::sql::update_rows(
            &mut self.connection,
            record.public_ip.as_str(),
            record.message.as_str(),
            tunnel as i64,
            record.timestamp,
        );
        match outcome {
            Ok(n) => Ok(n),
            Err(e) => Err(StorageFault { cause: e }),
        }
    }

    /// Removes every row whose timestamp is strictly less than the
    /// threshold; a row that equals it survives. The count is the number
    /// of rows removed, 0 when nothing was eligible.
    pub fn delete_older_than(&mut self, timestamp: i64) -> (r: Result<usize, StorageFault>)
        ensures
            r is Ok ==> final(self)@ == surviving_rows(old(self)@, timestamp as int),
            r matches Ok(n) ==> n == old(self)@.len() - surviving_rows(
                old(self)@,
                timestamp as int,
            ).len(),
            r is Err ==> final(self)@ == old(self)@,
    {
        match crate::sql::delete_rows_older_than(&mut self.connection, timestamp) {
            Ok(n) => Ok(n),
            Err(e) => Err(StorageFault { cause: e }),
        }
    }

    /// Deletes every row and reclaims the space. An administrative and
    /// test-time capability, not part of the production-facing surface.
    pub fn clear(&mut self) -> (r: Result<(), StorageFault>)
        ensures
            r is Ok ==> final(self)@ == Seq::<Row>::empty(),
    {
        match crate::sql::delete_all_rows(&mut self.connection) {
            Ok(u) => Ok(u),
            Err(e) => Err(StorageFault { cause: e }),
        }
    }
}

/// The integer a boolean is stored as in the `tunnel_configured` column.
pub fn bool_as_int(value: &bool) -> (r: i32)
    ensures
        r == if *value { 1i32 } else { 0i32 },
{
    if *value {
        1
    } else {
        0
    }
}

/// Law: a lookup on an empty store selects nothing, whatever the filter.
pub proof fn lemma_find_on_empty_store(filter: FindFilter)
    ensures
        find_rows(Seq::<Row>::empty(), filter) == Seq::<Row>::empty(),
{
    broadcast use Seq::lemma_filter_len;

    match filter {
        FindFilter::PublicIp(ip) => {
            assert(rows_with_ip(Seq::<Row>::empty(), ip@) =~= Seq::<Row>::empty());
        },
        FindFilter::PublicIpAndMessage(ip, message) => {
            assert(rows_with_key(Seq::<Row>::empty(), ip@, message@) =~= Seq::<Row>::empty());
        },
    }
}

/// Law: the add/find round trip. Appending a record to a store in which
/// its `(public_ip, message)` key has no match makes the key lookup select
/// exactly that record's row — its timestamp included.
pub proof fn lemma_add_then_find(rows: Seq<Row>, record: Record)
    requires
        rows_with_key(rows, record.public_ip@, record.message@) == Seq::<Row>::empty(),
    ensures
        rows_with_key(rows.push(record.as_row()), record.public_ip@, record.message@) == seq![
            record.as_row(),
        ],
{
    broadcast use Seq::lemma_filter_push;

    assert(rows_with_key(rows.push(record.as_row()), record.public_ip@, record.message@) =~= seq![
        record.as_row(),
    ]);
}

/// Law: rows share a public IP without clashing. Appending two records
/// with the same `public_ip` and distinct `message` values to a store in
/// which that IP has no match makes the IP lookup select exactly the two
/// rows, in insertion order, each keeping its own flag and timestamp.
pub proof fn lemma_two_records_one_ip(rows: Seq<Row>, first: Record, second: Record)
    requires
        rows_with_ip(rows, first.public_ip@) == Seq::<Row>::empty(),
        second.public_ip@ == first.public_ip@,
        second.message@ != first.message@,
    ensures
        rows_with_ip(rows.push(first.as_row()).push(second.as_row()), first.public_ip@) == seq![
            first.as_row(),
            second.as_row(),
        ],
{
    broadcast use Seq::lemma_filter_push;

    assert(rows_with_ip(rows.push(first.as_row()).push(second.as_row()), first.public_ip@)
        =~= seq![first.as_row(), second.as_row()]);
}

/// Law: the eviction boundary is strict. With every row stamped `now`, a
/// threshold of `now` itself removes nothing, and any later threshold
/// removes every row.
pub proof fn lemma_eviction_boundary(rows: Seq<Row>, now: int, threshold: int)
    requires
        forall|j: int| 0 <= j < rows.len() ==> (#[trigger] rows[j]).3 == now,
    ensures
        surviving_rows(rows, now) == rows,
        threshold > now ==> surviving_rows(rows, threshold) == Seq::<Row>::empty(),
    decreases rows.len(),
{
    broadcast use Seq::lemma_filter_len, Seq::lemma_filter_push;

    if rows.len() == 0 {
        assert(surviving_rows(rows, now) =~= rows);
        assert(surviving_rows(rows, threshold) =~= Seq::<Row>::empty());
    } else {
        let prefix = rows.drop_last();
        assert forall|j: int| 0 <= j < prefix.len() implies (#[trigger] prefix[j]).3 == now by {
            assert(prefix[j] == rows[j]);
        }
        lemma_eviction_boundary(prefix, now, threshold);
        assert(rows =~= prefix.push(rows.last()));
        assert(rows[rows.len() - 1].3 == now);
        assert(surviving_rows(prefix.push(rows.last()), now) == surviving_rows(
            prefix,
            now,
        ).push(rows.last()));
        assert(surviving_rows(rows, now) =~= rows);
        if threshold > now {
            assert(surviving_rows(prefix.push(rows.last()), threshold) == surviving_rows(
                prefix,
                threshold,
            ));
            assert(surviving_rows(rows, threshold) =~= Seq::<Row>::empty());
        }
    }
}

/// The backing-store location for the two environments the service runs
/// in. Selection is an explicit argument rather than ambient state.
pub fn get_db_environment(test_env: bool) -> (r: String)
    ensures
        test_env ==> r@ == "./boxes_test.sqlite"@,
        !test_env ==> r@ == "./boxes.sqlite"@,
{
    if test_env {
        "./boxes_test.sqlite".to_owned()
    } else {
        "./boxes.sqlite".to_owned()
    }
}

} // verus!
