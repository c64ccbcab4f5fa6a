//! The range reader: queries one tier table over a half-open time range and
//! reconstructs a gap-free series aligned to the expected timestamp grid,
//! substituting default values at grid positions with no persisted row.

use crate::dbutils::{query_rows, open_connection, StoreError, Tier, table_name};
use crate::monitoring_data::MonitorVec;
use vstd::prelude::*;

verus! {

/// Query parameters for one range read.
pub struct ReadConfig {
    metric_name: Vec<String>,
    start_time: i64,
    stop_time: i64,
    period: i64,
}

impl ReadConfig {
    pub fn new(metric_name: Vec<String>, start_time: i64, stop_time: i64, period: i64) -> (r:
        Self)
        ensures
            r.spec_metric_name() == metric_name@,
            r.spec_start_time() == start_time,
            r.spec_stop_time() == stop_time,
            r.spec_period() == period,
    {
        Self { metric_name, start_time, stop_time, period }
    }

    pub closed spec fn spec_metric_name(self) -> Seq<String> {
        self.metric_name@
    }

    pub closed spec fn spec_start_time(self) -> int {
        self.start_time as int
    }

    pub closed spec fn spec_stop_time(self) -> int {
        self.stop_time as int
    }

    pub closed spec fn spec_period(self) -> int {
        self.period as int
    }
}

/// One range-read result: a timestamp sequence and, per metric, a value
/// sequence of equal length, index-aligned across all of them.
#[derive(Clone, Debug, PartialEq)]
pub struct ReadData {
    pub time_vec: Vec<i64>,
    pub monitor_vec: MonitorVec,
}

impl ReadData {
    pub fn new() -> (r: Self)
        ensures
            r.wf(),
            r.time_vec@.len() == 0,
    {
        Self { time_vec: Vec::new(), monitor_vec: MonitorVec::new(0) }
    }

    /// All value sequences have the same length as the timestamp sequence,
    /// and the row counter agrees with it.
    pub open spec fn wf(self) -> bool {
        &&& self.monitor_vec.cols_wf()
        &&& self.monitor_vec.spec_count() == self.time_vec@.len()
        &&& self.monitor_vec.len == self.time_vec@.len()
    }
}

/// The tier whose period matches; any non-matching period falls back to the
/// finest tier.
pub open spec fn spec_select_tier(period: int) -> Tier {
    if period == 60 {
        Tier::Per1Minute
    } else if period == 300 {
        Tier::Per5Minute
    } else if period == 3600 {
        Tier::Per1Hour
    } else {
        Tier::Per10Second
    }
}

/// Selects the tier table for a requested period.
pub fn select_table(period: i64) -> (t: Tier)
    ensures
        t == spec_select_tier(period as int),
{
    if period == 60 {
        Tier::Per1Minute
    } else if period == 300 {
        Tier::Per5Minute
    } else if period == 3600 {
        Tier::Per1Hour
    } else {
        Tier::Per10Second
    }
}

/// A range request is well formed when its bounds are non-negative epoch
/// seconds in order and its period is positive.
pub open spec fn params_ok(start: int, stop: int, period: int) -> bool {
    period >= 1 && start >= 0 && start <= stop
}

/// Number of grid slots a range covers.
pub open spec fn spec_req_len(start: int, stop: int, period: int) -> int {
    (stop - start) / period
}

/// The stop bound rounded down to a multiple of the period: the last slot of
/// the expected grid.
pub open spec fn spec_aligned_stop(stop: int, period: int) -> int {
    stop - (stop % period)
}

/// First slot of the expected grid.
pub open spec fn spec_grid_start(start: int, stop: int, period: int) -> int {
    spec_aligned_stop(stop, period) - period * (spec_req_len(start, stop, period) - 1)
}

/// The expected full grid: `spec_req_len` evenly spaced timestamps ending at
/// the aligned stop, in ascending order, independent of which rows exist.
pub open spec fn spec_grid(start: int, stop: int, period: int) -> Seq<i64>
    recommends
        params_ok(start, stop, period),
{
    Seq::new(
        spec_req_len(start, stop, period) as nat,
        |i: int| (spec_grid_start(start, stop, period) + i * period) as i64,
    )
}

/// The grid positions with no matching returned timestamp, under a single
/// forward walk of both sequences: at each grid position, the next unconsumed
/// returned timestamp either matches it and is consumed, or the position is
/// missing.
pub open spec fn spec_miss(full: Seq<i64>, got: Seq<i64>, i: int, j: int) -> Seq<usize>
    decreases full.len() - i,
{
    if i >= full.len() {
        Seq::empty()
    } else if 0 <= j < got.len() && got[j] == full[i] {
        spec_miss(full, got, i + 1, j + 1)
    } else {
        seq![i as usize] + spec_miss(full, got, i + 1, j)
    }
}

/// Where the same walk leaves the forward pointer into the returned
/// timestamps: the number of them consumed by matches.
pub open spec fn spec_matched(full: Seq<i64>, got: Seq<i64>, i: int, j: int) -> int
    decreases full.len() - i,
{
    if i >= full.len() {
        j
    } else if 0 <= j < got.len() && got[j] == full[i] {
        spec_matched(full, got, i + 1, j + 1)
    } else {
        spec_matched(full, got, i + 1, j)
    }
}

/// One value column merged onto the grid by the same walk: the matching value
/// where a returned timestamp equals the grid slot, the default elsewhere.
pub open spec fn spec_merge(
    full: Seq<i64>,
    got: Seq<i64>,
    vals: Seq<u64>,
    d: u64,
    i: int,
    j: int,
) -> Seq<u64>
    recommends
        vals.len() == got.len(),
    decreases full.len() - i,
{
    if i >= full.len() {
        Seq::empty()
    } else if 0 <= j < got.len() && got[j] == full[i] {
        seq![vals[j]] + spec_merge(full, got, vals, d, i + 1, j + 1)
    } else {
        seq![d] + spec_merge(full, got, vals, d, i + 1, j)
    }
}

/// Walks the full grid and the returned timestamps with one forward pointer
/// each and collects the grid positions with no matching returned timestamp.
pub fn find_miss(full_times_vec: &Vec<i64>, get_times_vec: &Vec<i64>) -> (miss_vec: Vec<usize>)
    ensures
        miss_vec@ == spec_miss(full_times_vec@, get_times_vec@, 0, 0),
{
    let full = full_times_vec;
    let got = get_times_vec;
    let mut miss_vec: Vec<usize> = Vec::new();
    let mut i: usize = 0;
    let mut index_get: usize = 0;
    while i < full.len()
        invariant
            0 <= i <= full@.len(),
            0 <= index_get <= got@.len(),
            spec_miss(full@, got@, 0, 0) == miss_vec@ + spec_miss(
                full@,
                got@,
                i as int,
                index_get as int,
            ),
        decreases full@.len() - i,
    {
        if index_get < got.len() && got[index_get] == full[i] {
            index_get = index_get + 1;
        } else {
            let ghost pre = miss_vec@;
            miss_vec.push(i);
            proof {
                assert((pre + seq![i as usize]) + spec_miss(
                    full@,
                    got@,
                    i as int + 1,
                    index_get as int,
                ) =~= pre + (seq![i as usize] + spec_miss(
                    full@,
                    got@,
                    i as int + 1,
                    index_get as int,
                )));
            }
        }
        i = i + 1;
    }
    proof {
        assert(miss_vec@ + spec_miss(full@, got@, full@.len() as int, index_get as int)
            =~= miss_vec@);
    }
    miss_vec
}

/// Walks the two sequences as `find_miss` does and returns how many returned
/// timestamps were consumed by matches: all of them exactly when the returned
/// timestamps form a subsequence of the grid under the forward walk.
pub fn merge_match_count(full: &Vec<i64>, got: &Vec<i64>) -> (matched: usize)
    ensures
        matched == spec_matched(full@, got@, 0, 0),
{
    let mut i: usize = 0;
    let mut j: usize = 0;
    while i < full.len()
        invariant
            0 <= i <= full@.len(),
            0 <= j <= got@.len(),
            spec_matched(full@, got@, 0, 0) == spec_matched(full@, got@, i as int, j as int),
        decreases full@.len() - i,
    {
        if j < got.len() && got[j] == full[i] {
            j = j + 1;
        }
        i = i + 1;
    }
    j
}

/// Builds one merged value column for the grid: returned values where their
/// timestamp matches the grid slot, the default value at missing slots.
fn fill_column(
    full: &Vec<i64>,
    got: &Vec<i64>,
    vals: &std::collections::VecDeque<u64>,
    default_data: u64,
) -> (r: std::collections::VecDeque<u64>)
    requires
        vals@.len() == got@.len(),
    ensures
        r@ == spec_merge(full@, got@, vals@, default_data, 0, 0),
{
    let mut out: std::collections::VecDeque<u64> = std::collections::VecDeque::new();
    let mut i: usize = 0;
    let mut j: usize = 0;
    while i < full.len()
        invariant
            0 <= i <= full@.len(),
            0 <= j <= got@.len(),
            vals@.len() == got@.len(),
            spec_merge(full@, got@, vals@, default_data, 0, 0) == out@ + spec_merge(
                full@,
                got@,
                vals@,
                default_data,
                i as int,
                j as int,
            ),
        decreases full@.len() - i,
    {
        let ghost pre = out@;
        let ghost rest = spec_merge(full@, got@, vals@, default_data, i as int, j as int);
        if j < got.len() && got[j] == full[i] {
            out.push_back(vals[j]);
            proof {
                let tail = spec_merge(full@, got@, vals@, default_data, i as int + 1, j as int + 1);
                assert((pre + seq![vals@[j as int]]) + tail =~= pre + (seq![vals@[j as int]]
                    + tail));
            }
            j = j + 1;
        } else {
            out.push_back(default_data);
            proof {
                let tail = spec_merge(full@, got@, vals@, default_data, i as int + 1, j as int);
                assert((pre + seq![default_data]) + tail =~= pre + (seq![default_data] + tail));
            }
        }
        i = i + 1;
    }
    proof {
        assert(out@ + spec_merge(full@, got@, vals@, default_data, full@.len() as int, j as int)
            =~= out@);
    }
    out
}

/// Returned timestamps lie in the requested half-open range and are strictly
/// ascending.
pub open spec fn times_ok(times: Seq<i64>, start: int, stop: int) -> bool {
    &&& forall|i: int| 0 <= i < times.len() ==> start <= #[trigger] times[i] < stop
    &&& forall|i: int| 0 < i < times.len() ==> times[i - 1] < #[trigger] times[i]
}

/// The returned rows as sequences of their column values.
pub open spec fn rows_view(rows: Seq<Vec<i64>>) -> Seq<Seq<i64>> {
    Seq::new(rows.len(), |k: int| rows[k]@)
}

/// One returned row has the expected shape: fourteen integer columns, the
/// thirteen metric columns non-negative.
pub open spec fn row_shape_ok(row: Seq<i64>) -> bool {
    row.len() == 14 && (forall|c: int| 1 <= c < 14 ==> row[c] >= 0)
}

/// The returned rows are acceptable for `[start, stop)`: every row has the
/// expected shape and the timestamps (column 0) are strictly ascending within
/// the range.
pub open spec fn rows_ok(rows: Seq<Seq<i64>>, start: int, stop: int) -> bool {
    &&& forall|k: int| 0 <= k < rows.len() ==> row_shape_ok(#[trigger] rows[k])
    &&& forall|k: int| 0 <= k < rows.len() ==> start <= #[trigger] rows[k][0] < stop
    &&& forall|k: int| 0 < k < rows.len() ==> rows[k - 1][0] < #[trigger] rows[k][0]
}

/// The result carries exactly the returned rows: timestamps from column 0 and
/// every metric column index-aligned from its row column, in row order.
pub open spec fn read_data_matches_rows(rd: ReadData, rows: Seq<Seq<i64>>) -> bool {
    let n = rows.len();
    &&& rd.time_vec@.len() == n
    &&& forall|k: int| 0 <= k < n ==> rd.time_vec@[k] == #[trigger] rows[k][0]
    &&& forall|k: int| 0 <= k < n ==> #[trigger] rd.monitor_vec.load_1@[k] == rows[k][1]
    &&& forall|k: int| 0 <= k < n ==> #[trigger] rd.monitor_vec.load_5@[k] == rows[k][2]
    &&& forall|k: int| 0 <= k < n ==> #[trigger] rd.monitor_vec.load_15@[k] == rows[k][3]
    &&& forall|k: int| 0 <= k < n ==> #[trigger] rd.monitor_vec.cpu_usage@[k] == rows[k][4]
    &&& forall|k: int| 0 <= k < n ==> #[trigger] rd.monitor_vec.memory_used@[k] == rows[k][5]
    &&& forall|k: int| 0 <= k < n ==> #[trigger] rd.monitor_vec.memory_free@[k] == rows[k][6]
    &&& forall|k: int| 0 <= k < n ==> #[trigger] rd.monitor_vec.swap_used@[k] == rows[k][7]
    &&& forall|k: int| 0 <= k < n ==> #[trigger] rd.monitor_vec.swap_free@[k] == rows[k][8]
    &&& forall|k: int| 0 <= k < n ==> #[trigger] rd.monitor_vec.disk_used@[k] == rows[k][9]
    &&& forall|k: int| 0 <= k < n ==> #[trigger] rd.monitor_vec.disk_read@[k] == rows[k][10]
    &&& forall|k: int| 0 <= k < n ==> #[trigger] rd.monitor_vec.disk_write@[k] == rows[k][11]
    &&& forall|k: int| 0 <= k < n ==> #[trigger] rd.monitor_vec.network_rx@[k] == rows[k][12]
    &&& forall|k: int| 0 <= k < n ==> #[trigger] rd.monitor_vec.network_tx@[k] == rows[k][13]
}

/// Validates and converts raw store rows into a read result, exactly: it
/// succeeds if and only if every row has the expected shape and the
/// timestamps are strictly ascending within `[start, stop)`, and then the
/// result carries exactly those rows' values; a malformed row is `BadRow`, an
/// out-of-range or out-of-order timestamp is `Misaligned`.
pub fn rows_to_read_data(rows: &Vec<Vec<i64>>, start: i64, stop: i64) -> (r: Result<
    ReadData,
    StoreError,
>)
    ensures
        ({
            let rs = rows_view(rows@);
            &&& (r is Ok <==> rows_ok(rs, start as int, stop as int))
            &&& (r matches Ok(rd) ==> {
                &&& rd.wf()
                &&& read_data_matches_rows(rd, rs)
                &&& times_ok(rd.time_vec@, start as int, stop as int)
            })
            &&& (r is Err ==> r == Err::<ReadData, StoreError>(StoreError::BadRow) || r
                == Err::<ReadData, StoreError>(StoreError::Misaligned))
            &&& (r == Err::<ReadData, StoreError>(StoreError::BadRow) ==> exists|k: int|
                0 <= k < rs.len() && !row_shape_ok(#[trigger] rs[k]))
            &&& (r == Err::<ReadData, StoreError>(StoreError::Misaligned) ==> exists|k: int|
                0 <= k < rs.len() && #[trigger] rs[k].len() == 14 && !(start <= rs[k][0] < stop
                    && (k == 0 || rs[k - 1][0] < rs[k][0])))
        }),
{
    let ghost rs = rows_view(rows@);
    let mut result = ReadData::new();
    let mut idx: usize = 0;
    while idx < rows.len()
        invariant
            rs == rows_view(rows@),
            0 <= idx <= rows@.len(),
            result.wf(),
            result.time_vec@.len() == idx,
            times_ok(result.time_vec@, start as int, stop as int),
            forall|k: int| 0 <= k < idx ==> row_shape_ok(#[trigger] rs[k]),
            forall|k: int| 0 <= k < idx ==> start <= #[trigger] rs[k][0] < stop,
            forall|k: int| 0 < k < idx ==> rs[k - 1][0] < #[trigger] rs[k][0],
            forall|k: int| 0 <= k < idx ==> result.time_vec@[k] == #[trigger] rs[k][0],
            forall|k: int| 0 <= k < idx ==> #[trigger] result.monitor_vec.load_1@[k] == rs[k][1],
            forall|k: int| 0 <= k < idx ==> #[trigger] result.monitor_vec.load_5@[k] == rs[k][2],
            forall|k: int| 0 <= k < idx ==> #[trigger] result.monitor_vec.load_15@[k] == rs[k][3],
            forall|k: int| 0 <= k < idx ==> #[trigger] result.monitor_vec.cpu_usage@[k]
                == rs[k][4],
            forall|k: int| 0 <= k < idx ==> #[trigger] result.monitor_vec.memory_used@[k]
                == rs[k][5],
            forall|k: int| 0 <= k < idx ==> #[trigger] result.monitor_vec.memory_free@[k]
                == rs[k][6],
            forall|k: int| 0 <= k < idx ==> #[trigger] result.monitor_vec.swap_used@[k]
                == rs[k][7],
            forall|k: int| 0 <= k < idx ==> #[trigger] result.monitor_vec.swap_free@[k]
                == rs[k][8],
            forall|k: int| 0 <= k < idx ==> #[trigger] result.monitor_vec.disk_used@[k]
                == rs[k][9],
            forall|k: int| 0 <= k < idx ==> #[trigger] result.monitor_vec.disk_read@[k]
                == rs[k][10],
            forall|k: int| 0 <= k < idx ==> #[trigger] result.monitor_vec.disk_write@[k]
                == rs[k][11],
            forall|k: int| 0 <= k < idx ==> #[trigger] result.monitor_vec.network_rx@[k]
                == rs[k][12],
            forall|k: int| 0 <= k < idx ==> #[trigger] result.monitor_vec.network_tx@[k]
                == rs[k][13],
        decreases rows@.len() - idx,
    {
        let row = &rows[idx];
        proof {
            assert(rs[idx as int] == rows@[idx as int]@);
            assert(row@ == rs[idx as int]);
        }
        if row.len() != 14 {
            assert(!row_shape_ok(rs[idx as int]));
            return Err(StoreError::BadRow);
        }
        let ts = row[0];
        if ts < start || ts >= stop {
            return Err(StoreError::Misaligned);
        }
        let n = result.time_vec.len();
        if n > 0 && result.time_vec[n - 1] >= ts {
            assert(rs[idx as int - 1][0] >= rs[idx as int][0]);
            return Err(StoreError::Misaligned);
        }
        let mut c: usize = 1;
        while c < 14
            invariant
                rs == rows_view(rows@),
                row@.len() == 14,
                row@ == rs[idx as int],
                0 <= idx < rs.len(),
                1 <= c <= 14,
                forall|m: int| 1 <= m < c ==> row@[m] >= 0,
            decreases 14 - c,
        {
            if row[c] < 0 {
                assert(rs[idx as int][c as int] < 0);
                assert(!row_shape_ok(rs[idx as int]));
                return Err(StoreError::BadRow);
            }
            c = c + 1;
        }
        result.time_vec.push(ts);
        result.monitor_vec.load_1.push_back(row[1] as u64);
        result.monitor_vec.load_5.push_back(row[2] as u64);
        result.monitor_vec.load_15.push_back(row[3] as u64);
        result.monitor_vec.cpu_usage.push_back(row[4] as u64);
        result.monitor_vec.memory_used.push_back(row[5] as u64);
        result.monitor_vec.memory_free.push_back(row[6] as u64);
        result.monitor_vec.swap_used.push_back(row[7] as u64);
        result.monitor_vec.swap_free.push_back(row[8] as u64);
        result.monitor_vec.disk_used.push_back(row[9] as u64);
        result.monitor_vec.disk_read.push_back(row[10] as u64);
        result.monitor_vec.disk_write.push_back(row[11] as u64);
        result.monitor_vec.network_rx.push_back(row[12] as u64);
        result.monitor_vec.network_tx.push_back(row[13] as u64);
        result.monitor_vec.len = result.time_vec.len();
        idx = idx + 1;
    }
    Ok(result)
}

/// Read handle on the rollup store.
pub struct SQLiteReader {
    conn: rusqlite::Connection,
}

impl SQLiteReader {
    /// Opens the store at `db_path` for reading.
    pub fn new(db_path: &str) -> (r: Result<SQLiteReader, StoreError>)
    {
        match open_connection(db_path) {
            Ok(conn) => Ok(SQLiteReader { conn }),
            Err(_) => Err(StoreError::Open),
        }
    }

    /// Queries the tier table selected by the config's period for all rows in
    /// `[start, stop)` and converts them through `rows_to_read_data`, which
    /// fixes the result exactly for every value the store can return. A
    /// failing query surfaces as `Query`; no gap-filling happens here.
    pub fn read_only(&mut self, read_config: &ReadConfig) -> (r: Result<ReadData, StoreError>)
        ensures
            (r matches Ok(rd) ==> {
                &&& rd.wf()
                &&& times_ok(
                    rd.time_vec@,
                    read_config.spec_start_time(),
                    read_config.spec_stop_time(),
                )
            }),
            (r is Err ==> {
                ||| r == Err::<ReadData, StoreError>(StoreError::Query)
                ||| r == Err::<ReadData, StoreError>(StoreError::BadRow)
                ||| r == Err::<ReadData, StoreError>(StoreError::Misaligned)
            }),
    {
        let start = read_config.start_time;
        let stop = read_config.stop_time;
        let tier = select_table(read_config.period);
        let name = table_name(tier);
        let rows = match query_rows(&self.conn, name, start, stop) {
            Ok(rows) => rows,
            Err(_) => {
                return Err(StoreError::Query);
            },
        };
        rows_to_read_data(&rows, start, stop)
    }

    /// Runs `read_only` and then aligns the result onto the expected grid,
    /// filling gaps with default values, per `audit_data`. On success the
    /// result is well formed, covers at least the expected grid length, and
    /// its timestamps are either the validated returned ones or exactly the
    /// full grid.
    pub fn read_with_fill(&mut self, read_config: &ReadConfig) -> (r: Result<
        ReadData,
        StoreError,
    >)
        ensures
            (r matches Ok(rd) ==> {
                let start = read_config.spec_start_time();
                let stop = read_config.spec_stop_time();
                let period = read_config.spec_period();
                &&& rd.wf()
                &&& params_ok(start, stop, period) ==> rd.time_vec@.len() >= spec_req_len(
                    start,
                    stop,
                    period,
                )
                &&& times_ok(rd.time_vec@, start, stop) || rd.time_vec@ == spec_grid(
                    start,
                    stop,
                    period,
                )
            }),
            (r is Err ==> {
                ||| r == Err::<ReadData, StoreError>(StoreError::Query)
                ||| r == Err::<ReadData, StoreError>(StoreError::BadRow)
                ||| r == Err::<ReadData, StoreError>(StoreError::Misaligned)
                ||| r == Err::<ReadData, StoreError>(StoreError::InvalidRange)
            }),
    {
        let mut result = match self.read_only(read_config) {
            Ok(rd) => rd,
            Err(e) => {
                return Err(e);
            },
        };
        match audit_data(&mut result, read_config) {
            Ok(()) => Ok(result),
            Err(e) => Err(e),
        }
    }
}

/// A merged column is exactly as long as the grid.
proof fn lemma_merge_len(full: Seq<i64>, got: Seq<i64>, vals: Seq<u64>, d: u64, i: int, j: int)
    requires
        0 <= i <= full.len(),
    ensures
        spec_merge(full, got, vals, d, i, j).len() == full.len() - i,
    decreases full.len() - i,
{
    if i < full.len() {
        if 0 <= j < got.len() && got[j] == full[i] {
            lemma_merge_len(full, got, vals, d, i + 1, j + 1);
        } else {
            lemma_merge_len(full, got, vals, d, i + 1, j);
        }
    }
}

/// The gap-filled result: the timestamp sequence is the full grid and every
/// value column is the original column merged onto the grid with the default
/// value `0` at missing slots.
pub open spec fn spec_gap_filled(pre: ReadData, post: ReadData, full: Seq<i64>) -> bool {
    let got = pre.time_vec@;
    &&& post.time_vec@ == full
    &&& post.monitor_vec.len == full.len()
    &&& post.monitor_vec.load_1@ == spec_merge(full, got, pre.monitor_vec.load_1@, 0, 0, 0)
    &&& post.monitor_vec.load_5@ == spec_merge(full, got, pre.monitor_vec.load_5@, 0, 0, 0)
    &&& post.monitor_vec.load_15@ == spec_merge(full, got, pre.monitor_vec.load_15@, 0, 0, 0)
    &&& post.monitor_vec.cpu_usage@ == spec_merge(full, got, pre.monitor_vec.cpu_usage@, 0, 0, 0)
    &&& post.monitor_vec.memory_used@ == spec_merge(
        full,
        got,
        pre.monitor_vec.memory_used@,
        0,
        0,
        0,
    )
    &&& post.monitor_vec.memory_free@ == spec_merge(
        full,
        got,
        pre.monitor_vec.memory_free@,
        0,
        0,
        0,
    )
    &&& post.monitor_vec.swap_used@ == spec_merge(full, got, pre.monitor_vec.swap_used@, 0, 0, 0)
    &&& post.monitor_vec.swap_free@ == spec_merge(full, got, pre.monitor_vec.swap_free@, 0, 0, 0)
    &&& post.monitor_vec.disk_used@ == spec_merge(full, got, pre.monitor_vec.disk_used@, 0, 0, 0)
    &&& post.monitor_vec.disk_read@ == spec_merge(full, got, pre.monitor_vec.disk_read@, 0, 0, 0)
    &&& post.monitor_vec.disk_write@ == spec_merge(
        full,
        got,
        pre.monitor_vec.disk_write@,
        0,
        0,
        0,
    )
    &&& post.monitor_vec.network_rx@ == spec_merge(
        full,
        got,
        pre.monitor_vec.network_rx@,
        0,
        0,
        0,
    )
    &&& post.monitor_vec.network_tx@ == spec_merge(
        full,
        got,
        pre.monitor_vec.network_tx@,
        0,
        0,
        0,
    )
}

/// The grid positions where a returned timestamp matches the grid slot, under
/// the same forward walk as `spec_miss`: the dual of the missing set.
pub open spec fn spec_hits(full: Seq<i64>, got: Seq<i64>, i: int, j: int) -> Seq<usize>
    decreases full.len() - i,
{
    if i >= full.len() {
        Seq::empty()
    } else if 0 <= j < got.len() && got[j] == full[i] {
        seq![i as usize] + spec_hits(full, got, i + 1, j + 1)
    } else {
        spec_hits(full, got, i + 1, j)
    }
}

/// Law: the forward-walk merge fills exactly the missing grid positions with
/// the default value, in original grid order, and carries the returned values
/// unchanged, in their original order, at exactly the matched positions; the
/// missing and matched positions partition the grid.
pub proof fn lemma_gap_fill_positions(
    full: Seq<i64>,
    got: Seq<i64>,
    vals: Seq<u64>,
    d: u64,
    i: int,
    j: int,
)
    requires
        full.len() <= usize::MAX,
        0 <= i <= full.len(),
        0 <= j <= got.len(),
        vals.len() == got.len(),
    ensures
        ({
            let merged = spec_merge(full, got, vals, d, i, j);
            let miss = spec_miss(full, got, i, j);
            let hits = spec_hits(full, got, i, j);
            let jf = spec_matched(full, got, i, j);
            &&& j <= jf <= got.len()
            &&& merged.len() == full.len() - i
            &&& miss.len() + hits.len() == full.len() - i
            &&& hits.len() == jf - j
            &&& forall|t: int|
                0 <= t < miss.len() ==> i <= #[trigger] miss[t] < full.len() && merged[miss[t]
                    - i] == d
            &&& forall|t: int|
                0 <= t < hits.len() ==> i <= #[trigger] hits[t] < full.len() && merged[hits[t]
                    - i] == vals[j + t] && full[hits[t] as int] == got[j + t]
        }),
    decreases full.len() - i,
{
    if i < full.len() {
        let merged = spec_merge(full, got, vals, d, i, j);
        let miss = spec_miss(full, got, i, j);
        let hits = spec_hits(full, got, i, j);
        if 0 <= j < got.len() && got[j] == full[i] {
            lemma_gap_fill_positions(full, got, vals, d, i + 1, j + 1);
            let merged2 = spec_merge(full, got, vals, d, i + 1, j + 1);
            let miss2 = spec_miss(full, got, i + 1, j + 1);
            let hits2 = spec_hits(full, got, i + 1, j + 1);
            assert forall|t: int|
                0 <= t < miss.len() implies i <= #[trigger] miss[t] < full.len() && merged[miss[t]
                - i] == d by {
                assert(miss[t] == miss2[t]);
                assert(merged[miss[t] - i] == merged2[miss2[t] - (i + 1)]);
            }
            assert forall|t: int|
                0 <= t < hits.len() implies i <= #[trigger] hits[t] < full.len() && merged[hits[t]
                - i] == vals[j + t] && full[hits[t] as int] == got[j + t] by {
                if t == 0 {
                    assert(hits[0] == i as usize);
                    assert(merged[0] == vals[j]);
                } else {
                    assert(hits[t] == hits2[t - 1]);
                    assert(merged[hits[t] - i] == merged2[hits2[t - 1] - (i + 1)]);
                    assert(merged2[hits2[t - 1] - (i + 1)] == vals[(j + 1) + (t - 1)]);
                }
            }
        } else {
            lemma_gap_fill_positions(full, got, vals, d, i + 1, j);
            let merged2 = spec_merge(full, got, vals, d, i + 1, j);
            let miss2 = spec_miss(full, got, i + 1, j);
            let hits2 = spec_hits(full, got, i + 1, j);
            assert forall|t: int|
                0 <= t < miss.len() implies i <= #[trigger] miss[t] < full.len() && merged[miss[t]
                - i] == d by {
                if t == 0 {
                    assert(miss[0] == i as usize);
                    assert(merged[0] == d);
                } else {
                    assert(miss[t] == miss2[t - 1]);
                    assert(merged[miss[t] - i] == merged2[miss2[t - 1] - (i + 1)]);
                }
            }
            assert forall|t: int|
                0 <= t < hits.len() implies i <= #[trigger] hits[t] < full.len() && merged[hits[t]
                - i] == vals[j + t] && full[hits[t] as int] == got[j + t] by {
                assert(hits[t] == hits2[t]);
                assert(merged[hits[t] - i] == merged2[hits2[t] - (i + 1)]);
            }
        }
    }
}

/// One merged column against its grid, returned timestamps and stored values:
/// the default `0` stands at exactly the missing positions and the stored
/// values stand, in order, at exactly the matched positions.
pub open spec fn col_gap_filled_ok(
    full: Seq<i64>,
    got: Seq<i64>,
    vals: Seq<u64>,
    merged: Seq<u64>,
) -> bool {
    let miss = spec_miss(full, got, 0, 0);
    let hits = spec_hits(full, got, 0, 0);
    &&& merged.len() == full.len()
    &&& miss.len() + hits.len() == full.len()
    &&& forall|t: int| 0 <= t < miss.len() ==> merged[#[trigger] miss[t] as int] == 0
    &&& forall|t: int|
        0 <= t < hits.len() ==> merged[#[trigger] hits[t] as int] == vals[t] && full[hits[t] as int]
            == got[t]
}

/// Law: a gap-filled result holds the zero default at exactly the missing
/// grid positions and every stored value at its matched grid position, in
/// original order, in all thirteen metric columns.
pub proof fn lemma_gap_filled_values(pre: ReadData, post: ReadData, full: Seq<i64>)
    requires
        pre.wf(),
        full.len() <= usize::MAX,
        spec_gap_filled(pre, post, full),
    ensures
        col_gap_filled_ok(full, pre.time_vec@, pre.monitor_vec.load_1@, post.monitor_vec.load_1@),
        col_gap_filled_ok(full, pre.time_vec@, pre.monitor_vec.load_5@, post.monitor_vec.load_5@),
        col_gap_filled_ok(
            full,
            pre.time_vec@,
            pre.monitor_vec.load_15@,
            post.monitor_vec.load_15@,
        ),
        col_gap_filled_ok(
            full,
            pre.time_vec@,
            pre.monitor_vec.cpu_usage@,
            post.monitor_vec.cpu_usage@,
        ),
        col_gap_filled_ok(
            full,
            pre.time_vec@,
            pre.monitor_vec.memory_used@,
            post.monitor_vec.memory_used@,
        ),
        col_gap_filled_ok(
            full,
            pre.time_vec@,
            pre.monitor_vec.memory_free@,
            post.monitor_vec.memory_free@,
        ),
        col_gap_filled_ok(
            full,
            pre.time_vec@,
            pre.monitor_vec.swap_used@,
            post.monitor_vec.swap_used@,
        ),
        col_gap_filled_ok(
            full,
            pre.time_vec@,
            pre.monitor_vec.swap_free@,
            post.monitor_vec.swap_free@,
        ),
        col_gap_filled_ok(
            full,
            pre.time_vec@,
            pre.monitor_vec.disk_used@,
            post.monitor_vec.disk_used@,
        ),
        col_gap_filled_ok(
            full,
            pre.time_vec@,
            pre.monitor_vec.disk_read@,
            post.monitor_vec.disk_read@,
        ),
        col_gap_filled_ok(
            full,
            pre.time_vec@,
            pre.monitor_vec.disk_write@,
            post.monitor_vec.disk_write@,
        ),
        col_gap_filled_ok(
            full,
            pre.time_vec@,
            pre.monitor_vec.network_rx@,
            post.monitor_vec.network_rx@,
        ),
        col_gap_filled_ok(
            full,
            pre.time_vec@,
            pre.monitor_vec.network_tx@,
            post.monitor_vec.network_tx@,
        ),
{
    let got = pre.time_vec@;
    lemma_gap_fill_positions(full, got, pre.monitor_vec.load_1@, 0, 0, 0);
    lemma_gap_fill_positions(full, got, pre.monitor_vec.load_5@, 0, 0, 0);
    lemma_gap_fill_positions(full, got, pre.monitor_vec.load_15@, 0, 0, 0);
    lemma_gap_fill_positions(full, got, pre.monitor_vec.cpu_usage@, 0, 0, 0);
    lemma_gap_fill_positions(full, got, pre.monitor_vec.memory_used@, 0, 0, 0);
    lemma_gap_fill_positions(full, got, pre.monitor_vec.memory_free@, 0, 0, 0);
    lemma_gap_fill_positions(full, got, pre.monitor_vec.swap_used@, 0, 0, 0);
    lemma_gap_fill_positions(full, got, pre.monitor_vec.swap_free@, 0, 0, 0);
    lemma_gap_fill_positions(full, got, pre.monitor_vec.disk_used@, 0, 0, 0);
    lemma_gap_fill_positions(full, got, pre.monitor_vec.disk_read@, 0, 0, 0);
    lemma_gap_fill_positions(full, got, pre.monitor_vec.disk_write@, 0, 0, 0);
    lemma_gap_fill_positions(full, got, pre.monitor_vec.network_rx@, 0, 0, 0);
    lemma_gap_fill_positions(full, got, pre.monitor_vec.network_tx@, 0, 0, 0);
}

/// Law: merging a fully populated range is the identity on the values: when
/// the returned timestamps are exactly the grid, the merged column is the
/// original column and no default entry is synthesized.
pub proof fn lemma_gap_fill_idempotent(full: Seq<i64>, vals: Seq<u64>, d: u64, i: int)
    requires
        0 <= i <= full.len(),
        vals.len() == full.len(),
    ensures
        spec_merge(full, full, vals, d, i, i) == vals.skip(i),
    decreases full.len() - i,
{
    if i < full.len() {
        lemma_gap_fill_idempotent(full, vals, d, i + 1);
        assert(seq![vals[i]] + vals.skip(i + 1) =~= vals.skip(i));
    } else {
        assert(spec_merge(full, full, vals, d, i, i) =~= vals.skip(i));
    }
}

/// Compares the row count against the expected grid length and, when rows are
/// missing, aligns the result onto the full grid, substituting the default
/// value at every missing slot. A fully populated result is returned
/// unchanged. Returned timestamps that do not form a forward-walk subsequence
/// of the grid cannot be aligned and are reported as `Misaligned`.
pub fn audit_data(read_data: &mut ReadData, read_config: &ReadConfig) -> (r: Result<
    (),
    StoreError,
>)
    requires
        old(read_data).wf(),
    ensures
        final(read_data).wf(),
        ({
            let start = read_config.spec_start_time();
            let stop = read_config.spec_stop_time();
            let period = read_config.spec_period();
            let req_len = spec_req_len(start, stop, period);
            let full = spec_grid(start, stop, period);
            let got = old(read_data).time_vec@;
            &&& (!params_ok(start, stop, period) ==> {
                &&& r == Err::<(), StoreError>(StoreError::InvalidRange)
                &&& *final(read_data) == *old(read_data)
            })
            &&& (params_ok(start, stop, period) && got.len() >= req_len ==> {
                &&& r is Ok
                &&& *final(read_data) == *old(read_data)
            })
            &&& (params_ok(start, stop, period) && got.len() < req_len ==> {
                &&& (req_len > usize::MAX ==> {
                    &&& r == Err::<(), StoreError>(StoreError::InvalidRange)
                    &&& *final(read_data) == *old(read_data)
                })
                &&& (req_len <= usize::MAX && spec_matched(full, got, 0, 0) != got.len() ==> {
                    &&& r == Err::<(), StoreError>(StoreError::Misaligned)
                    &&& *final(read_data) == *old(read_data)
                })
                &&& (req_len <= usize::MAX && spec_matched(full, got, 0, 0) == got.len() ==> {
                    &&& r is Ok
                    &&& spec_gap_filled(*old(read_data), *final(read_data), full)
                })
            })
        }),
{
    let start = read_config.start_time;
    let stop = read_config.stop_time;
    let period = read_config.period;
    if period < 1 || start < 0 || stop < start {
        return Err(StoreError::InvalidRange);
    }
    let req_len: i64 = (stop - start) / period;
    let get_len: usize = read_data.time_vec.len();
    if req_len <= 0 || (get_len as u128) >= (req_len as u128) {
        return Ok(());
    }
    if (req_len as u128) > (usize::MAX as u128) {
        return Err(StoreError::InvalidRange);
    }
    let req_len_us: usize = req_len as usize;
    let aligned_stop: i64 = stop - stop % period;
    proof {
        vstd::arithmetic::div_mod::lemma_fundamental_div_mod(stop as int - start, period as int);
        vstd::arithmetic::div_mod::lemma_mod_division_less_than_divisor(
            stop as int - start,
            period as int,
        );
        vstd::arithmetic::div_mod::lemma_mod_division_less_than_divisor(stop as int, period as int);
        vstd::arithmetic::mul::lemma_mul_is_distributive_sub(
            period as int,
            req_len as int,
            1,
        );
        vstd::arithmetic::mul::lemma_mul_nonnegative(period as int, req_len as int - 1);
        vstd::arithmetic::mul::lemma_mul_is_commutative(period as int, req_len as int - 1);
    }
    let prod: i64 = period * (req_len - 1);
    let start_time: i64 = aligned_stop - prod;
    assert(start_time == spec_grid_start(start as int, stop as int, period as int));
    assert(start_time + (req_len - 1) * period <= stop);
    let ghost full = spec_grid(start as int, stop as int, period as int);
    let mut full_time_vec: Vec<i64> = Vec::new();
    let mut k: usize = 0;
    while k < req_len_us
        invariant
            0 <= k <= req_len_us,
            req_len_us == spec_req_len(start as int, stop as int, period as int),
            1 <= period,
            0 <= start_time,
            req_len_us <= i64::MAX,
            start_time == spec_grid_start(start as int, stop as int, period as int),
            start_time + (req_len_us - 1) * period <= stop,
            full == spec_grid(start as int, stop as int, period as int),
            full_time_vec@.len() == k,
            forall|m: int| 0 <= m < k ==> full_time_vec@[m] == full[m],
        decreases req_len_us - k,
    {
        proof {
            vstd::arithmetic::mul::lemma_mul_inequality(
                k as int,
                req_len_us as int - 1,
                period as int,
            );
            vstd::arithmetic::mul::lemma_mul_nonnegative(k as int, period as int);
            assert(start_time + (k as int) * period <= stop);
        }
        let t: i64 = start_time + (k as i64) * period;
        full_time_vec.push(t);
        k = k + 1;
    }
    assert(full_time_vec@ =~= full);
    let matched = merge_match_count(&full_time_vec, &read_data.time_vec);
    if matched != get_len {
        return Err(StoreError::Misaligned);
    }
    let got_times = &read_data.time_vec;
    let mv = &read_data.monitor_vec;
    let load_1 = fill_column(&full_time_vec, got_times, &mv.load_1, 0);
    let load_5 = fill_column(&full_time_vec, got_times, &mv.load_5, 0);
    let load_15 = fill_column(&full_time_vec, got_times, &mv.load_15, 0);
    let cpu_usage = fill_column(&full_time_vec, got_times, &mv.cpu_usage, 0);
    let memory_used = fill_column(&full_time_vec, got_times, &mv.memory_used, 0);
    let memory_free = fill_column(&full_time_vec, got_times, &mv.memory_free, 0);
    let swap_used = fill_column(&full_time_vec, got_times, &mv.swap_used, 0);
    let swap_free = fill_column(&full_time_vec, got_times, &mv.swap_free, 0);
    let disk_used = fill_column(&full_time_vec, got_times, &mv.disk_used, 0);
    let disk_read = fill_column(&full_time_vec, got_times, &mv.disk_read, 0);
    let disk_write = fill_column(&full_time_vec, got_times, &mv.disk_write, 0);
    let network_rx = fill_column(&full_time_vec, got_times, &mv.network_rx, 0);
    let network_tx = fill_column(&full_time_vec, got_times, &mv.network_tx, 0);
    proof {
        let got = old(read_data).time_vec@;
        lemma_merge_len(full, got, old(read_data).monitor_vec.load_1@, 0, 0, 0);
        lemma_merge_len(full, got, old(read_data).monitor_vec.load_5@, 0, 0, 0);
        lemma_merge_len(full, got, old(read_data).monitor_vec.load_15@, 0, 0, 0);
        lemma_merge_len(full, got, old(read_data).monitor_vec.cpu_usage@, 0, 0, 0);
        lemma_merge_len(full, got, old(read_data).monitor_vec.memory_used@, 0, 0, 0);
        lemma_merge_len(full, got, old(read_data).monitor_vec.memory_free@, 0, 0, 0);
        lemma_merge_len(full, got, old(read_data).monitor_vec.swap_used@, 0, 0, 0);
        lemma_merge_len(full, got, old(read_data).monitor_vec.swap_free@, 0, 0, 0);
        lemma_merge_len(full, got, old(read_data).monitor_vec.disk_used@, 0, 0, 0);
        lemma_merge_len(full, got, old(read_data).monitor_vec.disk_read@, 0, 0, 0);
        lemma_merge_len(full, got, old(read_data).monitor_vec.disk_write@, 0, 0, 0);
        lemma_merge_len(full, got, old(read_data).monitor_vec.network_rx@, 0, 0, 0);
        lemma_merge_len(full, got, old(read_data).monitor_vec.network_tx@, 0, 0, 0);
    }
    read_data.monitor_vec.load_1 = load_1;
    read_data.monitor_vec.load_5 = load_5;
    read_data.monitor_vec.load_15 = load_15;
    read_data.monitor_vec.cpu_usage = cpu_usage;
    read_data.monitor_vec.memory_used = memory_used;
    read_data.monitor_vec.memory_free = memory_free;
    read_data.monitor_vec.swap_used = swap_used;
    read_data.monitor_vec.swap_free = swap_free;
    read_data.monitor_vec.disk_used = disk_used;
    read_data.monitor_vec.disk_read = disk_read;
    read_data.monitor_vec.disk_write = disk_write;
    read_data.monitor_vec.network_rx = network_rx;
    read_data.monitor_vec.network_tx = network_tx;
    read_data.monitor_vec.len = full_time_vec.len();
    read_data.time_vec = full_time_vec;
    Ok(())
}

} // verus!
