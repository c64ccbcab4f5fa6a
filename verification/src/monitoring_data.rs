//! Metric samples and the fixed-capacity sliding window (resolution ring)
//! that backs one rollup tier.

use std::collections::VecDeque;
use vstd::prelude::*;

verus! {

/// One metrics sample. Continuous metrics (the load averages and the CPU
/// percentage) are carried as fixed-point integers in hundredths of a unit,
/// so that every field averages with exact integer arithmetic; the remaining
/// fields are plain counters or byte counts.
#[derive(Clone, Copy, Debug, PartialEq, Eq, Structural)]
pub struct MonitoringData {
    /// Epoch seconds.
    pub timestamp: i64,
    /// 1-minute load average, in hundredths.
    pub load_1: u64,
    /// 5-minute load average, in hundredths.
    pub load_5: u64,
    /// 15-minute load average, in hundredths.
    pub load_15: u64,
    /// CPU usage, in hundredths of a percent.
    pub cpu_usage: u64,
    pub memory_used: u64,
    pub memory_free: u64,
    pub swap_used: u64,
    pub swap_free: u64,
    pub disk_used: u64,
    pub disk_read: u64,
    pub disk_write: u64,
    pub network_rx: u64,
    pub network_tx: u64,
}

/// Column-oriented store of samples: one queue per metric field, all queues
/// index-aligned. `len` is the ring capacity when the value is used as a
/// sliding window, and the row count when it carries query results.
#[derive(Clone, Debug, PartialEq)]
pub struct MonitorVec {
    pub len: usize,
    pub load_1: VecDeque<u64>,
    pub load_5: VecDeque<u64>,
    pub load_15: VecDeque<u64>,
    pub cpu_usage: VecDeque<u64>,
    pub memory_used: VecDeque<u64>,
    pub memory_free: VecDeque<u64>,
    pub swap_used: VecDeque<u64>,
    pub swap_free: VecDeque<u64>,
    pub disk_used: VecDeque<u64>,
    pub disk_read: VecDeque<u64>,
    pub disk_write: VecDeque<u64>,
    pub network_rx: VecDeque<u64>,
    pub network_tx: VecDeque<u64>,
}

/// One column after a ring insertion with capacity `cap`: the oldest element
/// is evicted first when the column is full, then the new element is appended.
pub open spec fn ring_insert(s: Seq<u64>, cap: int, v: u64) -> Seq<u64> {
    if s.len() >= cap && s.len() > 0 {
        s.drop_first().push(v)
    } else {
        s.push(v)
    }
}

/// Sum of a column, as a mathematical integer.
pub open spec fn seq_sum(s: Seq<u64>) -> int
    decreases s.len(),
{
    if s.len() == 0 {
        0
    } else {
        seq_sum(s.drop_last()) + s.last()
    }
}

/// Truncating integer mean of a non-empty column.
pub open spec fn col_avg(s: Seq<u64>) -> u64
    recommends
        s.len() > 0,
{
    (seq_sum(s) / (s.len() as int)) as u64
}

impl MonitorVec {
    /// All thirteen columns hold the same number of entries.
    pub open spec fn cols_wf(self) -> bool {
        &&& self.load_5@.len() == self.load_1@.len()
        &&& self.load_15@.len() == self.load_1@.len()
        &&& self.cpu_usage@.len() == self.load_1@.len()
        &&& self.memory_used@.len() == self.load_1@.len()
        &&& self.memory_free@.len() == self.load_1@.len()
        &&& self.swap_used@.len() == self.load_1@.len()
        &&& self.swap_free@.len() == self.load_1@.len()
        &&& self.disk_used@.len() == self.load_1@.len()
        &&& self.disk_read@.len() == self.load_1@.len()
        &&& self.disk_write@.len() == self.load_1@.len()
        &&& self.network_rx@.len() == self.load_1@.len()
        &&& self.network_tx@.len() == self.load_1@.len()
    }

    /// Number of stored samples.
    pub open spec fn spec_count(self) -> nat {
        self.load_1@.len()
    }

    /// Well-formedness as a ring: aligned columns within capacity `len`.
    pub open spec fn ring_wf(self) -> bool {
        self.cols_wf() && self.spec_count() <= self.len
    }

    /// The field-by-field truncating mean of all stored samples, stamped with
    /// the supplied timestamp.
    pub open spec fn spec_average(self, timestamp: i64) -> MonitoringData
        recommends
            self.spec_count() > 0,
    {
        MonitoringData {
            timestamp,
            load_1: col_avg(self.load_1@),
            load_5: col_avg(self.load_5@),
            load_15: col_avg(self.load_15@),
            cpu_usage: col_avg(self.cpu_usage@),
            memory_used: col_avg(self.memory_used@),
            memory_free: col_avg(self.memory_free@),
            swap_used: col_avg(self.swap_used@),
            swap_free: col_avg(self.swap_free@),
            disk_used: col_avg(self.disk_used@),
            disk_read: col_avg(self.disk_read@),
            disk_write: col_avg(self.disk_write@),
            network_rx: col_avg(self.network_rx@),
            network_tx: col_avg(self.network_tx@),
        }
    }

    pub fn new(queue_len: usize) -> (r: Self)
        ensures
            r.len == queue_len,
            r.cols_wf(),
            r.spec_count() == 0,
    {
        Self {
            len: queue_len,
            load_1: VecDeque::new(),
            load_5: VecDeque::new(),
            load_15: VecDeque::new(),
            cpu_usage: VecDeque::new(),
            memory_used: VecDeque::new(),
            memory_free: VecDeque::new(),
            swap_used: VecDeque::new(),
            swap_free: VecDeque::new(),
            disk_used: VecDeque::new(),
            disk_read: VecDeque::new(),
            disk_write: VecDeque::new(),
            network_rx: VecDeque::new(),
            network_tx: VecDeque::new(),
        }
    }

    fn pop_front(&mut self)
        requires
            old(self).cols_wf(),
            old(self).spec_count() > 0,
        ensures
            final(self).len == old(self).len,
            final(self).cols_wf(),
            final(self).load_1@ == old(self).load_1@.drop_first(),
            final(self).load_5@ == old(self).load_5@.drop_first(),
            final(self).load_15@ == old(self).load_15@.drop_first(),
            final(self).cpu_usage@ == old(self).cpu_usage@.drop_first(),
            final(self).memory_used@ == old(self).memory_used@.drop_first(),
            final(self).memory_free@ == old(self).memory_free@.drop_first(),
            final(self).swap_used@ == old(self).swap_used@.drop_first(),
            final(self).swap_free@ == old(self).swap_free@.drop_first(),
            final(self).disk_used@ == old(self).disk_used@.drop_first(),
            final(self).disk_read@ == old(self).disk_read@.drop_first(),
            final(self).disk_write@ == old(self).disk_write@.drop_first(),
            final(self).network_rx@ == old(self).network_rx@.drop_first(),
            final(self).network_tx@ == old(self).network_tx@.drop_first(),
    {
        let _ = self.load_1.pop_front();
        let _ = self.load_5.pop_front();
        let _ = self.load_15.pop_front();
        let _ = self.cpu_usage.pop_front();
        let _ = self.memory_used.pop_front();
        let _ = self.memory_free.pop_front();
        let _ = self.swap_used.pop_front();
        let _ = self.swap_free.pop_front();
        let _ = self.disk_used.pop_front();
        let _ = self.disk_read.pop_front();
        let _ = self.disk_write.pop_front();
        let _ = self.network_rx.pop_front();
        let _ = self.network_tx.pop_front();
    }

    fn push_back(&mut self, os_data: MonitoringData)
        requires
            old(self).cols_wf(),
        ensures
            final(self).len == old(self).len,
            final(self).cols_wf(),
            final(self).load_1@ == old(self).load_1@.push(os_data.load_1),
            final(self).load_5@ == old(self).load_5@.push(os_data.load_5),
            final(self).load_15@ == old(self).load_15@.push(os_data.load_15),
            final(self).cpu_usage@ == old(self).cpu_usage@.push(os_data.cpu_usage),
            final(self).memory_used@ == old(self).memory_used@.push(os_data.memory_used),
            final(self).memory_free@ == old(self).memory_free@.push(os_data.memory_free),
            final(self).swap_used@ == old(self).swap_used@.push(os_data.swap_used),
            final(self).swap_free@ == old(self).swap_free@.push(os_data.swap_free),
            final(self).disk_used@ == old(self).disk_used@.push(os_data.disk_used),
            final(self).disk_read@ == old(self).disk_read@.push(os_data.disk_read),
            final(self).disk_write@ == old(self).disk_write@.push(os_data.disk_write),
            final(self).network_rx@ == old(self).network_rx@.push(os_data.network_rx),
            final(self).network_tx@ == old(self).network_tx@.push(os_data.network_tx),
    {
        self.load_1.push_back(os_data.load_1);
        self.load_5.push_back(os_data.load_5);
        self.load_15.push_back(os_data.load_15);
        self.cpu_usage.push_back(os_data.cpu_usage);
        self.memory_used.push_back(os_data.memory_used);
        self.memory_free.push_back(os_data.memory_free);
        self.swap_used.push_back(os_data.swap_used);
        self.swap_free.push_back(os_data.swap_free);
        self.disk_used.push_back(os_data.disk_used);
        self.disk_read.push_back(os_data.disk_read);
        self.disk_write.push_back(os_data.disk_write);
        self.network_rx.push_back(os_data.network_rx);
        self.network_tx.push_back(os_data.network_tx);
    }

    /// Number of stored samples, as executable code.
    pub fn count(&self) -> (c: usize)
        requires
            self.cols_wf(),
        ensures
            c == self.spec_count(),
    {
        self.load_1.len()
    }

    /// Append a sample, evicting the oldest one first when the window is at
    /// capacity (strict FIFO eviction).
    pub fn insert(&mut self, os_data: MonitoringData)
        requires
            old(self).cols_wf(),
        ensures
            final(self).len == old(self).len,
            final(self).cols_wf(),
            cols_ring_insert(*old(self), *final(self), os_data),
    {
        if self.load_1.len() >= self.len {
            if self.load_1.len() > 0 {
                self.pop_front();
            }
        }
        self.push_back(os_data);
    }
}

/// One column after ring insertions of all of `vs` in order, oldest first.
pub open spec fn ring_inserts(s: Seq<u64>, cap: int, vs: Seq<u64>) -> Seq<u64>
    decreases vs.len(),
{
    if vs.len() == 0 {
        s
    } else {
        ring_insert(ring_inserts(s, cap, vs.drop_last()), cap, vs.last())
    }
}

/// Law: a ring of capacity `cap >= 1` that starts empty and receives the
/// values `vs` retains exactly the last `cap` of them, in their original
/// relative order; as long as it is not yet full it retains all of them.
pub proof fn lemma_ring_retains_last(cap: int, vs: Seq<u64>)
    requires
        cap >= 1,
    ensures
        vs.len() <= cap ==> ring_inserts(Seq::empty(), cap, vs) == vs,
        vs.len() > cap ==> ring_inserts(Seq::empty(), cap, vs) == vs.skip(vs.len() - cap),
    decreases vs.len(),
{
    if vs.len() == 0 {
        assert(ring_inserts(Seq::<u64>::empty(), cap, vs) =~= vs);
    } else {
        let head = vs.drop_last();
        lemma_ring_retains_last(cap, head);
        let prev = ring_inserts(Seq::<u64>::empty(), cap, head);
        if vs.len() <= cap {
            assert(prev == head);
            assert(prev.push(vs.last()) =~= vs);
        } else {
            if head.len() <= cap {
                assert(prev == head);
            } else {
                assert(prev == head.skip(head.len() - cap));
            }
            assert(prev.len() == cap);
            assert(prev.drop_first().push(vs.last()) =~= vs.skip(vs.len() - cap));
        }
    }
}

/// A column of identical values sums to its length times that value.
proof fn lemma_seq_sum_constant(s: Seq<u64>, v: u64)
    requires
        forall|i: int| 0 <= i < s.len() ==> s[i] == v,
    ensures
        seq_sum(s) == s.len() * v,
    decreases s.len(),
{
    if s.len() == 0 {
        assert(seq_sum(s) == 0);
    } else {
        lemma_seq_sum_constant(s.drop_last(), v);
        assert((s.len() - 1) * v + v == s.len() * v) by (nonlinear_arith);
    }
}

/// Law: the mean of a non-empty column every entry of which equals `v` is `v`.
pub proof fn lemma_average_constant(s: Seq<u64>, v: u64)
    requires
        s.len() > 0,
        forall|i: int| 0 <= i < s.len() ==> s[i] == v,
    ensures
        col_avg(s) == v,
{
    lemma_seq_sum_constant(s, v);
    let len = s.len() as int;
    assert(len * v == v * len) by (nonlinear_arith);
    vstd::arithmetic::div_mod::lemma_div_multiples_vanish(v as int, len);
}

/// Law: averaging a window in which every stored sample equals `v`, field by
/// field, returns `v` with the supplied timestamp, for continuous metrics and
/// counters alike.
pub proof fn lemma_get_average_constant(mv: MonitorVec, v: MonitoringData, timestamp: i64)
    requires
        mv.cols_wf(),
        mv.spec_count() > 0,
        forall|i: int| 0 <= i < mv.spec_count() ==> mv.load_1@[i] == v.load_1,
        forall|i: int| 0 <= i < mv.spec_count() ==> mv.load_5@[i] == v.load_5,
        forall|i: int| 0 <= i < mv.spec_count() ==> mv.load_15@[i] == v.load_15,
        forall|i: int| 0 <= i < mv.spec_count() ==> mv.cpu_usage@[i] == v.cpu_usage,
        forall|i: int| 0 <= i < mv.spec_count() ==> mv.memory_used@[i] == v.memory_used,
        forall|i: int| 0 <= i < mv.spec_count() ==> mv.memory_free@[i] == v.memory_free,
        forall|i: int| 0 <= i < mv.spec_count() ==> mv.swap_used@[i] == v.swap_used,
        forall|i: int| 0 <= i < mv.spec_count() ==> mv.swap_free@[i] == v.swap_free,
        forall|i: int| 0 <= i < mv.spec_count() ==> mv.disk_used@[i] == v.disk_used,
        forall|i: int| 0 <= i < mv.spec_count() ==> mv.disk_read@[i] == v.disk_read,
        forall|i: int| 0 <= i < mv.spec_count() ==> mv.disk_write@[i] == v.disk_write,
        forall|i: int| 0 <= i < mv.spec_count() ==> mv.network_rx@[i] == v.network_rx,
        forall|i: int| 0 <= i < mv.spec_count() ==> mv.network_tx@[i] == v.network_tx,
    ensures
        mv.spec_average(timestamp) == (MonitoringData { timestamp, ..v }),
{
    lemma_average_constant(mv.load_1@, v.load_1);
    lemma_average_constant(mv.load_5@, v.load_5);
    lemma_average_constant(mv.load_15@, v.load_15);
    lemma_average_constant(mv.cpu_usage@, v.cpu_usage);
    lemma_average_constant(mv.memory_used@, v.memory_used);
    lemma_average_constant(mv.memory_free@, v.memory_free);
    lemma_average_constant(mv.swap_used@, v.swap_used);
    lemma_average_constant(mv.swap_free@, v.swap_free);
    lemma_average_constant(mv.disk_used@, v.disk_used);
    lemma_average_constant(mv.disk_read@, v.disk_read);
    lemma_average_constant(mv.disk_write@, v.disk_write);
    lemma_average_constant(mv.network_rx@, v.network_rx);
    lemma_average_constant(mv.network_tx@, v.network_tx);
}

/// The sum of a column is bounded by its length times the largest element value.
proof fn lemma_seq_sum_bound(s: Seq<u64>)
    ensures
        0 <= seq_sum(s) <= s.len() * u64::MAX,
    decreases s.len(),
{
    if s.len() > 0 {
        lemma_seq_sum_bound(s.drop_last());
    }
}

/// Extending a column by one element adds that element to its sum.
proof fn lemma_seq_sum_take_step(s: Seq<u64>, i: int)
    requires
        0 <= i < s.len(),
    ensures
        seq_sum(s.take(i + 1)) == seq_sum(s.take(i)) + s[i],
{
    assert(s.take(i + 1).drop_last() =~= s.take(i));
    assert(s.take(i + 1).last() == s[i]);
}

/// Truncating integer mean of a non-empty column, by a single pass over it.
fn average_u64(data: &VecDeque<u64>) -> (r: u64)
    requires
        data@.len() > 0,
    ensures
        r == col_avg(data@),
{
    let n = data.len();
    let mut acc: u128 = 0;
    let mut i: usize = 0;
    while i < n
        invariant
            0 <= i <= data@.len(),
            n == data@.len(),
            acc == seq_sum(data@.take(i as int)),
            acc <= (i as int) * (u64::MAX as int),
        decreases data@.len() - i,
    {
        let x: u64 = data[i];
        proof {
            lemma_seq_sum_take_step(data@, i as int);
        }
        acc = acc + (x as u128);
        i = i + 1;
    }
    assert(data@.take(data@.len() as int) =~= data@);
    proof {
        let len = data@.len() as int;
        let max = u64::MAX as int;
        vstd::arithmetic::div_mod::lemma_div_multiples_vanish(max, len);
        vstd::arithmetic::div_mod::lemma_div_is_ordered(acc as int, len * max, len);
        vstd::arithmetic::div_mod::lemma_div_pos_is_pos(acc as int, len);
    }
    let avg: u128 = acc / (n as u128);
    avg as u64
}

impl MonitorVec {
    /// The field-by-field truncating mean of all stored samples, stamped with
    /// the supplied timestamp. The window must hold at least one sample.
    pub fn get_average(&self, timestamp: i64) -> (r: MonitoringData)
        requires
            self.cols_wf(),
            self.spec_count() > 0,
        ensures
            r == self.spec_average(timestamp),
    {
        MonitoringData {
            timestamp,
            load_1: average_u64(&self.load_1),
            load_5: average_u64(&self.load_5),
            load_15: average_u64(&self.load_15),
            cpu_usage: average_u64(&self.cpu_usage),
            memory_used: average_u64(&self.memory_used),
            memory_free: average_u64(&self.memory_free),
            swap_used: average_u64(&self.swap_used),
            swap_free: average_u64(&self.swap_free),
            disk_used: average_u64(&self.disk_used),
            disk_read: average_u64(&self.disk_read),
            disk_write: average_u64(&self.disk_write),
            network_rx: average_u64(&self.network_rx),
            network_tx: average_u64(&self.network_tx),
        }
    }
}

/// Every column of `post` is `pre`'s column after one ring insertion of the
/// matching field of `v`, with `pre.len` as the capacity.
pub open spec fn cols_ring_insert(pre: MonitorVec, post: MonitorVec, v: MonitoringData) -> bool {
    let cap = pre.len as int;
    &&& post.len == pre.len
    &&& post.load_1@ == ring_insert(pre.load_1@, cap, v.load_1)
    &&& post.load_5@ == ring_insert(pre.load_5@, cap, v.load_5)
    &&& post.load_15@ == ring_insert(pre.load_15@, cap, v.load_15)
    &&& post.cpu_usage@ == ring_insert(pre.cpu_usage@, cap, v.cpu_usage)
    &&& post.memory_used@ == ring_insert(pre.memory_used@, cap, v.memory_used)
    &&& post.memory_free@ == ring_insert(pre.memory_free@, cap, v.memory_free)
    &&& post.swap_used@ == ring_insert(pre.swap_used@, cap, v.swap_used)
    &&& post.swap_free@ == ring_insert(pre.swap_free@, cap, v.swap_free)
    &&& post.disk_used@ == ring_insert(pre.disk_used@, cap, v.disk_used)
    &&& post.disk_read@ == ring_insert(pre.disk_read@, cap, v.disk_read)
    &&& post.disk_write@ == ring_insert(pre.disk_write@, cap, v.disk_write)
    &&& post.network_rx@ == ring_insert(pre.network_rx@, cap, v.network_rx)
    &&& post.network_tx@ == ring_insert(pre.network_tx@, cap, v.network_tx)
}

} // verus!
