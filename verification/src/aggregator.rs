//! The cascading aggregator: four resolution rings tied together by the
//! trigger logic that turns 1 Hz samples into four persisted resolutions.
//!
//! Wall-clock timestamp alignment (not elapsed-tick counting) determines the
//! trigger points, so a clock change or a missed tick changes which
//! boundaries fire; this is a deliberate simplicity/robustness trade-off and
//! a known limitation. On a boundary, a tier's average is computed strictly
//! from the ring state before that tick's cascaded insert from the next
//! finer tier (snapshot-then-cascade), and a tier whose ring is still empty
//! does not fire.

use crate::dbutils::{SQLiteDB, Tier, table_name};
use crate::monitoring_data::{
    col_avg, cols_ring_insert, ring_insert, ring_inserts, MonitorVec, MonitoringData,
};
use vstd::prelude::*;

verus! {

/// Ring capacities encode the cascade ratio: ten 1 s samples make 10 s, six
/// 10 s averages make 1 min, five 1 min averages make 5 min, twelve 5 min
/// averages make 1 h.
pub const CAP_10S: usize = 10;

pub const CAP_1MIN: usize = 6;

pub const CAP_5MIN: usize = 5;

pub const CAP_1H: usize = 12;

/// The pipeline state: one resolution ring per tier, owned by a single tick
/// loop for the process lifetime.
pub struct Aggregator {
    pub monitor_10s_data: MonitorVec,
    pub monitor_1min_data: MonitorVec,
    pub monitor_5min_data: MonitorVec,
    pub monitor_1h_data: MonitorVec,
}

/// Every column of `post` is `pre`'s column after ring insertions of the
/// whole matching column of `data`, oldest row first.
pub open spec fn cols_ring_inserts_all(pre: MonitorVec, post: MonitorVec, data: MonitorVec) -> bool {
    let cap = pre.len as int;
    &&& post.len == pre.len
    &&& post.load_1@ == ring_inserts(pre.load_1@, cap, data.load_1@)
    &&& post.load_5@ == ring_inserts(pre.load_5@, cap, data.load_5@)
    &&& post.load_15@ == ring_inserts(pre.load_15@, cap, data.load_15@)
    &&& post.cpu_usage@ == ring_inserts(pre.cpu_usage@, cap, data.cpu_usage@)
    &&& post.memory_used@ == ring_inserts(pre.memory_used@, cap, data.memory_used@)
    &&& post.memory_free@ == ring_inserts(pre.memory_free@, cap, data.memory_free@)
    &&& post.swap_used@ == ring_inserts(pre.swap_used@, cap, data.swap_used@)
    &&& post.swap_free@ == ring_inserts(pre.swap_free@, cap, data.swap_free@)
    &&& post.disk_used@ == ring_inserts(pre.disk_used@, cap, data.disk_used@)
    &&& post.disk_read@ == ring_inserts(pre.disk_read@, cap, data.disk_read@)
    &&& post.disk_write@ == ring_inserts(pre.disk_write@, cap, data.disk_write@)
    &&& post.network_rx@ == ring_inserts(pre.network_rx@, cap, data.network_rx@)
    &&& post.network_tx@ == ring_inserts(pre.network_tx@, cap, data.network_tx@)
}

/// The average the finest tier persists on a boundary: the mean of its ring
/// after this tick's raw sample was inserted.
pub open spec fn spec_avg10(m10: MonitorVec, sample: MonitoringData, now: i64) -> MonitoringData {
    let cap = m10.len as int;
    MonitoringData {
        timestamp: now,
        load_1: col_avg(ring_insert(m10.load_1@, cap, sample.load_1)),
        load_5: col_avg(ring_insert(m10.load_5@, cap, sample.load_5)),
        load_15: col_avg(ring_insert(m10.load_15@, cap, sample.load_15)),
        cpu_usage: col_avg(ring_insert(m10.cpu_usage@, cap, sample.cpu_usage)),
        memory_used: col_avg(ring_insert(m10.memory_used@, cap, sample.memory_used)),
        memory_free: col_avg(ring_insert(m10.memory_free@, cap, sample.memory_free)),
        swap_used: col_avg(ring_insert(m10.swap_used@, cap, sample.swap_used)),
        swap_free: col_avg(ring_insert(m10.swap_free@, cap, sample.swap_free)),
        disk_used: col_avg(ring_insert(m10.disk_used@, cap, sample.disk_used)),
        disk_read: col_avg(ring_insert(m10.disk_read@, cap, sample.disk_read)),
        disk_write: col_avg(ring_insert(m10.disk_write@, cap, sample.disk_write)),
        network_rx: col_avg(ring_insert(m10.network_rx@, cap, sample.network_rx)),
        network_tx: col_avg(ring_insert(m10.network_tx@, cap, sample.network_tx)),
    }
}

/// How one tick at epoch second `now` moves the four rings: the raw sample
/// enters the finest ring; on each firing boundary the tier's average (from
/// the ring state before any same-tick cascaded insert) enters the next
/// coarser ring.
pub open spec fn spec_tick_rings(
    pre: Aggregator,
    post: Aggregator,
    sample: MonitoringData,
    now: i64,
) -> bool {
    let f10 = now as int % 10 == 0;
    let f60 = now as int % 60 == 0 && pre.monitor_1min_data.spec_count() > 0;
    let f300 = now as int % 300 == 0 && pre.monitor_5min_data.spec_count() > 0;
    let a10 = spec_avg10(pre.monitor_10s_data, sample, now);
    let a1m = pre.monitor_1min_data.spec_average(now);
    let a5m = pre.monitor_5min_data.spec_average(now);
    &&& cols_ring_insert(pre.monitor_10s_data, post.monitor_10s_data, sample)
    &&& (if f10 {
        cols_ring_insert(pre.monitor_1min_data, post.monitor_1min_data, a10)
    } else {
        post.monitor_1min_data == pre.monitor_1min_data
    })
    &&& (if f60 {
        cols_ring_insert(pre.monitor_5min_data, post.monitor_5min_data, a1m)
    } else {
        post.monitor_5min_data == pre.monitor_5min_data
    })
    &&& (if f300 {
        cols_ring_insert(pre.monitor_1h_data, post.monitor_1h_data, a5m)
    } else {
        post.monitor_1h_data == pre.monitor_1h_data
    })
}

/// The rows one tick persists, in fixed check order from the finest tier to
/// the coarsest; a boundary whose source ring is empty persists nothing for
/// that tier.
pub open spec fn spec_tick_out(pre: Aggregator, sample: MonitoringData, now: i64) -> Seq<
    (Tier, MonitoringData),
> {
    let f10 = now as int % 10 == 0;
    let f60 = now as int % 60 == 0 && pre.monitor_1min_data.spec_count() > 0;
    let f300 = now as int % 300 == 0 && pre.monitor_5min_data.spec_count() > 0;
    let f3600 = now as int % 3600 == 0 && pre.monitor_1h_data.spec_count() > 0;
    let a10 = spec_avg10(pre.monitor_10s_data, sample, now);
    let a1m = pre.monitor_1min_data.spec_average(now);
    let a5m = pre.monitor_5min_data.spec_average(now);
    let a1h = pre.monitor_1h_data.spec_average(now);
    (if f10 {
        seq![(Tier::Per10Second, a10)]
    } else {
        Seq::empty()
    }) + (if f60 {
        seq![(Tier::Per1Minute, a1m)]
    } else {
        Seq::empty()
    }) + (if f300 {
        seq![(Tier::Per5Minute, a5m)]
    } else {
        Seq::empty()
    }) + (if f3600 {
        seq![(Tier::Per1Hour, a1h)]
    } else {
        Seq::empty()
    })
}

impl Aggregator {
    /// The four rings are column-aligned and carry the fixed tier capacities.
    pub open spec fn wf(self) -> bool {
        &&& self.monitor_10s_data.cols_wf() && self.monitor_10s_data.len == CAP_10S
        &&& self.monitor_1min_data.cols_wf() && self.monitor_1min_data.len == CAP_1MIN
        &&& self.monitor_5min_data.cols_wf() && self.monitor_5min_data.len == CAP_5MIN
        &&& self.monitor_1h_data.cols_wf() && self.monitor_1h_data.len == CAP_1H
    }

    /// Fresh pipeline state with all four rings empty.
    pub fn new() -> (a: Aggregator)
        ensures
            a.wf(),
            a.monitor_10s_data.spec_count() == 0,
            a.monitor_1min_data.spec_count() == 0,
            a.monitor_5min_data.spec_count() == 0,
            a.monitor_1h_data.spec_count() == 0,
    {
        Aggregator {
            monitor_10s_data: MonitorVec::new(CAP_10S),
            monitor_1min_data: MonitorVec::new(CAP_1MIN),
            monitor_5min_data: MonitorVec::new(CAP_5MIN),
            monitor_1h_data: MonitorVec::new(CAP_1H),
        }
    }

    /// Seeds one tier's ring from rows read back from the store, oldest row
    /// first, so that a restart does not reset the coarser windows to empty.
    /// The other rings are unchanged.
    pub fn seed(&mut self, tier: Tier, data: &MonitorVec)
        requires
            old(self).wf(),
            data.cols_wf(),
        ensures
            final(self).wf(),
            match tier {
                Tier::Per10Second => {
                    &&& cols_ring_inserts_all(
                        old(self).monitor_10s_data,
                        final(self).monitor_10s_data,
                        *data,
                    )
                    &&& final(self).monitor_1min_data == old(self).monitor_1min_data
                    &&& final(self).monitor_5min_data == old(self).monitor_5min_data
                    &&& final(self).monitor_1h_data == old(self).monitor_1h_data
                },
                Tier::Per1Minute => {
                    &&& cols_ring_inserts_all(
                        old(self).monitor_1min_data,
                        final(self).monitor_1min_data,
                        *data,
                    )
                    &&& final(self).monitor_10s_data == old(self).monitor_10s_data
                    &&& final(self).monitor_5min_data == old(self).monitor_5min_data
                    &&& final(self).monitor_1h_data == old(self).monitor_1h_data
                },
                Tier::Per5Minute => {
                    &&& cols_ring_inserts_all(
                        old(self).monitor_5min_data,
                        final(self).monitor_5min_data,
                        *data,
                    )
                    &&& final(self).monitor_10s_data == old(self).monitor_10s_data
                    &&& final(self).monitor_1min_data == old(self).monitor_1min_data
                    &&& final(self).monitor_1h_data == old(self).monitor_1h_data
                },
                Tier::Per1Hour => {
                    &&& cols_ring_inserts_all(
                        old(self).monitor_1h_data,
                        final(self).monitor_1h_data,
                        *data,
                    )
                    &&& final(self).monitor_10s_data == old(self).monitor_10s_data
                    &&& final(self).monitor_1min_data == old(self).monitor_1min_data
                    &&& final(self).monitor_5min_data == old(self).monitor_5min_data
                },
            },
    {
        match tier {
            Tier::Per10Second => seed_ring(&mut self.monitor_10s_data, data),
            Tier::Per1Minute => seed_ring(&mut self.monitor_1min_data, data),
            Tier::Per5Minute => seed_ring(&mut self.monitor_5min_data, data),
            Tier::Per1Hour => seed_ring(&mut self.monitor_1h_data, data),
        }
    }

    /// One tick of the pipeline at epoch second `now`: inserts the raw
    /// sample, evaluates the four tier boundaries in fixed order from a
    /// single timestamp, and returns the rows to persist. All averages of
    /// coarser tiers are taken before any same-tick cascaded insert.
    pub fn tick(&mut self, sample: MonitoringData, now: i64) -> (out: Vec<(Tier, MonitoringData)>)
        requires
            old(self).wf(),
            now >= 0,
        ensures
            final(self).wf(),
            spec_tick_rings(*old(self), *final(self), sample, now),
            out@ == spec_tick_out(*old(self), sample, now),
    {
        let ghost pre = *old(self);
        let f10 = now % 10 == 0;
        let f60 = now % 60 == 0;
        let f300 = now % 300 == 0;
        let f3600 = now % 3600 == 0;
        self.monitor_10s_data.insert(sample);
        let a10 = if f10 {
            Some(self.monitor_10s_data.get_average(now))
        } else {
            None
        };
        let a1m = if f60 && self.monitor_1min_data.count() > 0 {
            Some(self.monitor_1min_data.get_average(now))
        } else {
            None
        };
        let a5m = if f300 && self.monitor_5min_data.count() > 0 {
            Some(self.monitor_5min_data.get_average(now))
        } else {
            None
        };
        let a1h = if f3600 && self.monitor_1h_data.count() > 0 {
            Some(self.monitor_1h_data.get_average(now))
        } else {
            None
        };
        let mut out: Vec<(Tier, MonitoringData)> = Vec::new();
        match a10 {
            Some(a) => {
                out.push((Tier::Per10Second, a));
                self.monitor_1min_data.insert(a);
            },
            None => {},
        }
        match a1m {
            Some(a) => {
                out.push((Tier::Per1Minute, a));
                self.monitor_5min_data.insert(a);
            },
            None => {},
        }
        match a5m {
            Some(a) => {
                out.push((Tier::Per5Minute, a));
                self.monitor_1h_data.insert(a);
            },
            None => {},
        }
        match a1h {
            Some(a) => {
                out.push((Tier::Per1Hour, a));
            },
            None => {},
        }
        proof {
            assert(out@ =~= spec_tick_out(pre, sample, now));
        }
        out
    }

    /// One tick, with the returned rows written to their tier tables. An
    /// insert failure (such as a duplicate timestamp under clock skew or a
    /// restart race) is non-fatal: the row is skipped and the pipeline goes
    /// on.
    pub fn tick_and_persist(&mut self, db: &SQLiteDB, sample: MonitoringData, now: i64)
        requires
            old(self).wf(),
            now >= 0,
        ensures
            final(self).wf(),
            spec_tick_rings(*old(self), *final(self), sample, now),
    {
        let out = self.tick(sample, now);
        let mut i: usize = 0;
        while i < out.len()
            decreases out@.len() - i,
        {
            let tier = out[i].0;
            let row = out[i].1;
            let _ = db.insert_data(table_name(tier), row);
            i = i + 1;
        }
    }
}

/// The cascaded 10-second averages of one metric field over a run of ticks:
/// for each tick on a 10-second boundary, the field (read by `f`) of the
/// average that the tick inserts into the 1-minute ring, in tick order.
pub open spec fn tens_avgs(
    states: Seq<Aggregator>,
    samples: Seq<MonitoringData>,
    nows: Seq<i64>,
    f: spec_fn(MonitoringData) -> u64,
) -> Seq<u64>
    decreases nows.len(),
{
    if nows.len() == 0 {
        Seq::empty()
    } else {
        let head = tens_avgs(states.drop_last(), samples.drop_last(), nows.drop_last(), f);
        let i = nows.len() - 1;
        if nows[i] as int % 10 == 0 {
            head.push(f(spec_avg10(states[i].monitor_10s_data, samples[i], nows[i])))
        } else {
            head
        }
    }
}

/// `g` reads, from a ring, exactly the column that the field read by `f`
/// feeds on insertion. Each of the thirteen field/column pairs satisfies
/// this, by the matching clause of `cols_ring_insert`.
pub open spec fn col_projection_ok(
    f: spec_fn(MonitoringData) -> u64,
    g: spec_fn(MonitorVec) -> Seq<u64>,
) -> bool {
    forall|pre: MonitorVec, post: MonitorVec, v: MonitoringData|
        #[trigger] cols_ring_insert(pre, post, v) ==> g(post) == ring_insert(
            g(pre),
            pre.len as int,
            f(v),
        )
}

/// Over any run of ticks, the 1-minute ring column read by `g` ends as the
/// ring fold of the cascaded 10-second averages of the field read by `f`,
/// and the ring capacity never changes.
pub proof fn lemma_minute_ring_from_trace(
    states: Seq<Aggregator>,
    samples: Seq<MonitoringData>,
    nows: Seq<i64>,
    f: spec_fn(MonitoringData) -> u64,
    g: spec_fn(MonitorVec) -> Seq<u64>,
)
    requires
        states.len() == nows.len() + 1,
        samples.len() == nows.len(),
        forall|i: int|
            0 <= i < nows.len() ==> spec_tick_rings(
                #[trigger] states[i],
                states[i + 1],
                samples[i],
                nows[i],
            ),
        col_projection_ok(f, g),
    ensures
        states.last().monitor_1min_data.len == states[0].monitor_1min_data.len,
        g(states.last().monitor_1min_data) == ring_inserts(
            g(states[0].monitor_1min_data),
            states[0].monitor_1min_data.len as int,
            tens_avgs(states, samples, nows, f),
        ),
    decreases nows.len(),
{
    if nows.len() == 0 {
        assert(states.last() == states[0]);
    } else {
        let n = nows.len() as int;
        let pstates = states.drop_last();
        let psamples = samples.drop_last();
        let pnows = nows.drop_last();
        assert forall|i: int|
            0 <= i < pnows.len() implies spec_tick_rings(
            #[trigger] pstates[i],
            pstates[i + 1],
            psamples[i],
            pnows[i],
        ) by {
            assert(pstates[i] == states[i]);
            assert(pstates[i + 1] == states[i + 1]);
            assert(psamples[i] == samples[i]);
            assert(pnows[i] == nows[i]);
        }
        lemma_minute_ring_from_trace(pstates, psamples, pnows, f, g);
        let prev = states[n - 1];
        let last = states[n];
        assert(pstates.last() == prev);
        assert(states.last() == last);
        assert(spec_tick_rings(prev, last, samples[n - 1], nows[n - 1]));
        let cap = states[0].monitor_1min_data.len as int;
        let head = tens_avgs(pstates, psamples, pnows, f);
        let vs = tens_avgs(states, samples, nows, f);
        if nows[n - 1] as int % 10 == 0 {
            let a10 = spec_avg10(prev.monitor_10s_data, samples[n - 1], nows[n - 1]);
            assert(cols_ring_insert(prev.monitor_1min_data, last.monitor_1min_data, a10));
            assert(g(last.monitor_1min_data) == ring_insert(
                g(prev.monitor_1min_data),
                prev.monitor_1min_data.len as int,
                f(a10),
            ));
            assert(vs == head.push(f(a10)));
            assert(vs.drop_last() =~= head);
            assert(vs.last() == f(a10));
        } else {
            assert(last.monitor_1min_data == prev.monitor_1min_data);
            assert(vs == head);
        }
    }
}

/// Law (cascade correctness): over any run of ticks that starts with an
/// empty 1-minute ring of capacity six and cascades at least six 10-second
/// averages, the 1-minute average taken at the end — which is, at a tick on
/// a minute boundary, exactly the value `spec_tick_out` persists to the
/// 1-minute table — equals, in the field read by `f`, the truncating mean of
/// the last six cascaded 10-second averages, in their original order.
#[verifier::rlimit(50)]
pub proof fn lemma_cascade_minute_mean(
    states: Seq<Aggregator>,
    samples: Seq<MonitoringData>,
    nows: Seq<i64>,
    f: spec_fn(MonitoringData) -> u64,
    g: spec_fn(MonitorVec) -> Seq<u64>,
    now: i64,
)
    requires
        states.len() == nows.len() + 1,
        samples.len() == nows.len(),
        forall|i: int|
            0 <= i < nows.len() ==> spec_tick_rings(
                #[trigger] states[i],
                states[i + 1],
                samples[i],
                nows[i],
            ),
        col_projection_ok(f, g),
        forall|mv: MonitorVec, ts: i64| f(#[trigger] mv.spec_average(ts)) == col_avg(g(mv)),
        g(states[0].monitor_1min_data) == Seq::<u64>::empty(),
        states[0].monitor_1min_data.len == 6,
        tens_avgs(states, samples, nows, f).len() >= 6,
    ensures
        ({
            let vs = tens_avgs(states, samples, nows, f);
            f(states.last().monitor_1min_data.spec_average(now)) == col_avg(
                vs.skip(vs.len() - 6),
            )
        }),
{
    lemma_minute_ring_from_trace(states, samples, nows, f, g);
    let vs = tens_avgs(states, samples, nows, f);
    crate::monitoring_data::lemma_ring_retains_last(6, vs);
    if vs.len() == 6 {
        assert(vs.skip(0) =~= vs);
    }
    let ring = states.last().monitor_1min_data;
    assert(g(ring) == vs.skip(vs.len() - 6));
    assert(f(ring.spec_average(now)) == col_avg(g(ring)));
}

/// The CPU field of a sample.
pub open spec fn cpu_field() -> spec_fn(MonitoringData) -> u64 {
    |v: MonitoringData| v.cpu_usage
}

/// The CPU column of a ring.
pub open spec fn cpu_col() -> spec_fn(MonitorVec) -> Seq<u64> {
    |mv: MonitorVec| mv.cpu_usage@
}

/// The cascade-correctness law instantiated for the CPU column: its two
/// projection hypotheses hold by the matching clauses of `cols_ring_insert`
/// and `spec_average`.
pub proof fn lemma_cascade_minute_mean_cpu(
    states: Seq<Aggregator>,
    samples: Seq<MonitoringData>,
    nows: Seq<i64>,
    now: i64,
)
    requires
        states.len() == nows.len() + 1,
        samples.len() == nows.len(),
        forall|i: int|
            0 <= i < nows.len() ==> spec_tick_rings(
                #[trigger] states[i],
                states[i + 1],
                samples[i],
                nows[i],
            ),
        states[0].monitor_1min_data.cpu_usage@ == Seq::<u64>::empty(),
        states[0].monitor_1min_data.len == 6,
        tens_avgs(states, samples, nows, cpu_field()).len() >= 6,
    ensures
        ({
            let vs = tens_avgs(states, samples, nows, cpu_field());
            states.last().monitor_1min_data.spec_average(now).cpu_usage == col_avg(
                vs.skip(vs.len() - 6),
            )
        }),
{
    let f = cpu_field();
    let g = cpu_col();
    assert forall|pre: MonitorVec, post: MonitorVec, v: MonitoringData|
        #[trigger] cols_ring_insert(pre, post, v) implies g(post) == ring_insert(
        g(pre),
        pre.len as int,
        f(v),
    ) by {}
    assert forall|mv: MonitorVec, ts: i64|
        f(#[trigger] mv.spec_average(ts)) == col_avg(g(mv)) by {}
    lemma_cascade_minute_mean(states, samples, nows, f, g, now);
}

/// Law: a ring of capacity `cap >= 1` that starts empty and receives all the
/// rows of `data` in order retains, in every metric column, exactly the last
/// `cap` values in their original relative order.
pub proof fn lemma_seeded_ring_retains_last(pre: MonitorVec, post: MonitorVec, data: MonitorVec)
    requires
        cols_ring_inserts_all(pre, post, data),
        pre.cols_wf(),
        data.cols_wf(),
        pre.spec_count() == 0,
        pre.len >= 1,
        data.spec_count() >= pre.len,
    ensures
        post.load_1@ == data.load_1@.skip(data.spec_count() - pre.len),
        post.load_5@ == data.load_5@.skip(data.spec_count() - pre.len),
        post.load_15@ == data.load_15@.skip(data.spec_count() - pre.len),
        post.cpu_usage@ == data.cpu_usage@.skip(data.spec_count() - pre.len),
        post.memory_used@ == data.memory_used@.skip(data.spec_count() - pre.len),
        post.memory_free@ == data.memory_free@.skip(data.spec_count() - pre.len),
        post.swap_used@ == data.swap_used@.skip(data.spec_count() - pre.len),
        post.swap_free@ == data.swap_free@.skip(data.spec_count() - pre.len),
        post.disk_used@ == data.disk_used@.skip(data.spec_count() - pre.len),
        post.disk_read@ == data.disk_read@.skip(data.spec_count() - pre.len),
        post.disk_write@ == data.disk_write@.skip(data.spec_count() - pre.len),
        post.network_rx@ == data.network_rx@.skip(data.spec_count() - pre.len),
        post.network_tx@ == data.network_tx@.skip(data.spec_count() - pre.len),
{
    let cap = pre.len as int;
    assert(pre.load_1@ =~= Seq::<u64>::empty());
    assert(pre.load_5@ =~= Seq::<u64>::empty());
    assert(pre.load_15@ =~= Seq::<u64>::empty());
    assert(pre.cpu_usage@ =~= Seq::<u64>::empty());
    assert(pre.memory_used@ =~= Seq::<u64>::empty());
    assert(pre.memory_free@ =~= Seq::<u64>::empty());
    assert(pre.swap_used@ =~= Seq::<u64>::empty());
    assert(pre.swap_free@ =~= Seq::<u64>::empty());
    assert(pre.disk_used@ =~= Seq::<u64>::empty());
    assert(pre.disk_read@ =~= Seq::<u64>::empty());
    assert(pre.disk_write@ =~= Seq::<u64>::empty());
    assert(pre.network_rx@ =~= Seq::<u64>::empty());
    assert(pre.network_tx@ =~= Seq::<u64>::empty());
    crate::monitoring_data::lemma_ring_retains_last(cap, data.load_1@);
    crate::monitoring_data::lemma_ring_retains_last(cap, data.load_5@);
    crate::monitoring_data::lemma_ring_retains_last(cap, data.load_15@);
    crate::monitoring_data::lemma_ring_retains_last(cap, data.cpu_usage@);
    crate::monitoring_data::lemma_ring_retains_last(cap, data.memory_used@);
    crate::monitoring_data::lemma_ring_retains_last(cap, data.memory_free@);
    crate::monitoring_data::lemma_ring_retains_last(cap, data.swap_used@);
    crate::monitoring_data::lemma_ring_retains_last(cap, data.swap_free@);
    crate::monitoring_data::lemma_ring_retains_last(cap, data.disk_used@);
    crate::monitoring_data::lemma_ring_retains_last(cap, data.disk_read@);
    crate::monitoring_data::lemma_ring_retains_last(cap, data.disk_write@);
    crate::monitoring_data::lemma_ring_retains_last(cap, data.network_rx@);
    crate::monitoring_data::lemma_ring_retains_last(cap, data.network_tx@);
}

/// Inserts every row of `data` into `ring`, oldest first, with ring eviction.
fn seed_ring(ring: &mut MonitorVec, data: &MonitorVec)
    requires
        old(ring).cols_wf(),
        data.cols_wf(),
    ensures
        final(ring).cols_wf(),
        final(ring).len == old(ring).len,
        cols_ring_inserts_all(*old(ring), *final(ring), *data),
{
    let n = data.count();
    let mut i: usize = 0;
    while i < n
        invariant
            0 <= i <= n,
            n == data.spec_count(),
            data.cols_wf(),
            ring.cols_wf(),
            ring.len == old(ring).len,
            ring.load_1@ == ring_inserts(old(ring).load_1@, old(ring).len as int, data.load_1@.take(i as int)),
            ring.load_5@ == ring_inserts(old(ring).load_5@, old(ring).len as int, data.load_5@.take(i as int)),
            ring.load_15@ == ring_inserts(old(ring).load_15@, old(ring).len as int, data.load_15@.take(i as int)),
            ring.cpu_usage@ == ring_inserts(old(ring).cpu_usage@, old(ring).len as int, data.cpu_usage@.take(i as int)),
            ring.memory_used@ == ring_inserts(old(ring).memory_used@, old(ring).len as int, data.memory_used@.take(i as int)),
            ring.memory_free@ == ring_inserts(old(ring).memory_free@, old(ring).len as int, data.memory_free@.take(i as int)),
            ring.swap_used@ == ring_inserts(old(ring).swap_used@, old(ring).len as int, data.swap_used@.take(i as int)),
            ring.swap_free@ == ring_inserts(old(ring).swap_free@, old(ring).len as int, data.swap_free@.take(i as int)),
            ring.disk_used@ == ring_inserts(old(ring).disk_used@, old(ring).len as int, data.disk_used@.take(i as int)),
            ring.disk_read@ == ring_inserts(old(ring).disk_read@, old(ring).len as int, data.disk_read@.take(i as int)),
            ring.disk_write@ == ring_inserts(old(ring).disk_write@, old(ring).len as int, data.disk_write@.take(i as int)),
            ring.network_rx@ == ring_inserts(old(ring).network_rx@, old(ring).len as int, data.network_rx@.take(i as int)),
            ring.network_tx@ == ring_inserts(old(ring).network_tx@, old(ring).len as int, data.network_tx@.take(i as int)),
        decreases n - i,
    {
        let row = MonitoringData {
            timestamp: 0,
            load_1: data.load_1[i],
            load_5: data.load_5[i],
            load_15: data.load_15[i],
            cpu_usage: data.cpu_usage[i],
            memory_used: data.memory_used[i],
            memory_free: data.memory_free[i],
            swap_used: data.swap_used[i],
            swap_free: data.swap_free[i],
            disk_used: data.disk_used[i],
            disk_read: data.disk_read[i],
            disk_write: data.disk_write[i],
            network_rx: data.network_rx[i],
            network_tx: data.network_tx[i],
        };
        ring.insert(row);
        proof {
            lemma_take_step(data.load_1@, i as int);
            lemma_take_step(data.load_5@, i as int);
            lemma_take_step(data.load_15@, i as int);
            lemma_take_step(data.cpu_usage@, i as int);
            lemma_take_step(data.memory_used@, i as int);
            lemma_take_step(data.memory_free@, i as int);
            lemma_take_step(data.swap_used@, i as int);
            lemma_take_step(data.swap_free@, i as int);
            lemma_take_step(data.disk_used@, i as int);
            lemma_take_step(data.disk_read@, i as int);
            lemma_take_step(data.disk_write@, i as int);
            lemma_take_step(data.network_rx@, i as int);
            lemma_take_step(data.network_tx@, i as int);
        }
        i = i + 1;
    }
    proof {
        assert(data.load_1@.take(n as int) =~= data.load_1@);
        assert(data.load_5@.take(n as int) =~= data.load_5@);
        assert(data.load_15@.take(n as int) =~= data.load_15@);
        assert(data.cpu_usage@.take(n as int) =~= data.cpu_usage@);
        assert(data.memory_used@.take(n as int) =~= data.memory_used@);
        assert(data.memory_free@.take(n as int) =~= data.memory_free@);
        assert(data.swap_used@.take(n as int) =~= data.swap_used@);
        assert(data.swap_free@.take(n as int) =~= data.swap_free@);
        assert(data.disk_used@.take(n as int) =~= data.disk_used@);
        assert(data.disk_read@.take(n as int) =~= data.disk_read@);
        assert(data.disk_write@.take(n as int) =~= data.disk_write@);
        assert(data.network_rx@.take(n as int) =~= data.network_rx@);
        assert(data.network_tx@.take(n as int) =~= data.network_tx@);
    }
}

/// One more taken element extends the fold by one insertion.
proof fn lemma_take_step(s: Seq<u64>, i: int)
    requires
        0 <= i < s.len(),
    ensures
        s.take(i + 1).drop_last() == s.take(i),
        s.take(i + 1).last() == s[i],
{
    assert(s.take(i + 1).drop_last() =~= s.take(i));
}

} // verus!
