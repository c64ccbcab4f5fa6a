use host_monitor::aggregator::Aggregator;
use host_monitor::dbutils::Tier;
use host_monitor::monitoring_data::MonitoringData;
use std::collections::HashMap;

fn sample(v: u64, ts: i64) -> MonitoringData {
    MonitoringData {
        timestamp: ts,
        load_1: v,
        load_5: v,
        load_15: v,
        cpu_usage: v,
        memory_used: v,
        memory_free: v,
        swap_used: v,
        swap_free: v,
        disk_used: v,
        disk_read: v,
        disk_write: v,
        network_rx: v,
        network_tx: v,
    }
}

#[test]
fn ten_samples_persist_their_mean_at_the_boundary() {
    let mut agg = Aggregator::new();
    let mut persisted: Vec<(Tier, MonitoringData)> = Vec::new();
    for tick in 1..=10i64 {
        // cpu_usage 1..10, carried in hundredths: 100..1000.
        let out = agg.tick(sample(tick as u64 * 100, tick), tick);
        persisted.extend(out);
    }
    assert_eq!(persisted.len(), 1);
    let (tier, row) = &persisted[0];
    assert_eq!(*tier, Tier::Per10Second);
    assert_eq!(row.timestamp, 10);
    // The mean of 1.00..10.00 is 5.50.
    assert_eq!(row.cpu_usage, 550);
}

#[test]
fn no_boundary_no_row() {
    let mut agg = Aggregator::new();
    for tick in 1..=9i64 {
        let out = agg.tick(sample(7, tick), tick);
        assert!(out.is_empty());
    }
}

#[test]
fn empty_coarse_ring_does_not_fire() {
    let mut agg = Aggregator::new();
    // The very first tick lands on an hour boundary: only the finest tier has
    // data, so only the 10-second row is persisted.
    let out = agg.tick(sample(5, 3600), 3600);
    assert_eq!(out.len(), 1);
    assert_eq!(out[0].0, Tier::Per10Second);
}

#[test]
fn minute_row_is_mean_of_its_six_ten_second_averages() {
    let mut agg = Aggregator::new();
    let mut by_tier_time: HashMap<(i64, i64), MonitoringData> = HashMap::new();
    let tier_key = |t: &Tier| match t {
        Tier::Per10Second => 10i64,
        Tier::Per1Minute => 60,
        Tier::Per5Minute => 300,
        Tier::Per1Hour => 3600,
    };
    for tick in 1..=3660i64 {
        // Deterministic field = tick number.
        let out = agg.tick(sample(tick as u64, tick), tick);
        for (tier, row) in out {
            by_tier_time.insert((tier_key(&tier), row.timestamp), row);
        }
    }
    // The 1-minute average computed at T is taken before T's own cascaded
    // insert, so it covers the 10-second averages persisted at T-60 .. T-10.
    for t_min in [120i64, 600, 3600] {
        let minute_row = by_tier_time.get(&(60, t_min)).expect("minute row present");
        let feeders: Vec<u64> = (0..6)
            .map(|k| {
                let ts = t_min - 60 + 10 * k;
                by_tier_time.get(&(10, ts)).expect("feeder present").cpu_usage
            })
            .collect();
        let independent_mean = feeders.iter().sum::<u64>() / 6;
        assert_eq!(minute_row.cpu_usage, independent_mean, "at T={}", t_min);
    }
}

#[test]
fn hour_boundary_fires_all_tiers_in_order() {
    let mut agg = Aggregator::new();
    let mut at_3600: Vec<Tier> = Vec::new();
    for tick in 1..=3600i64 {
        let out = agg.tick(sample(1, tick), tick);
        if tick == 3600 {
            at_3600 = out.into_iter().map(|(t, _)| t).collect();
        }
    }
    assert_eq!(
        at_3600,
        vec![Tier::Per10Second, Tier::Per1Minute, Tier::Per5Minute, Tier::Per1Hour]
    );
}

#[test]
fn seed_fills_a_ring_with_eviction() {
    let mut agg = Aggregator::new();
    let mut history = host_monitor::monitoring_data::MonitorVec::new(8);
    for v in 1..=8u64 {
        history.insert(sample(v, v as i64));
    }
    agg.seed(Tier::Per1Minute, &history);
    // Capacity of the 1-minute ring is 6: the last 6 of the 8 rows remain.
    let got: Vec<u64> = agg.monitor_1min_data.cpu_usage.iter().cloned().collect();
    assert_eq!(got, vec![3, 4, 5, 6, 7, 8]);
    assert!(agg.monitor_10s_data.cpu_usage.is_empty());
    assert!(agg.monitor_5min_data.cpu_usage.is_empty());
}
