use host_monitor::monitoring_data::{MonitorVec, MonitoringData};

fn sample(v: u64, ts: i64) -> MonitoringData {
    MonitoringData {
        timestamp: ts,
        load_1: v,
        load_5: v,
        load_15: v,
        cpu_usage: v,
        memory_used: v,
        memory_free: v,
        swap_used: v,
        swap_free: v,
        disk_used: v,
        disk_read: v,
        disk_write: v,
        network_rx: v,
        network_tx: v,
    }
}

#[test]
fn ring_retains_last_n() {
    let mut mv = MonitorVec::new(3);
    for v in 1..=5u64 {
        mv.insert(sample(v, v as i64));
    }
    let want: Vec<u64> = vec![3, 4, 5];
    let got: Vec<u64> = mv.cpu_usage.iter().cloned().collect();
    assert_eq!(got, want);
    let got_rx: Vec<u64> = mv.network_rx.iter().cloned().collect();
    assert_eq!(got_rx, want);
    assert_eq!(mv.len, 3);
}

#[test]
fn ring_keeps_all_below_capacity() {
    let mut mv = MonitorVec::new(10);
    for v in 1..=4u64 {
        mv.insert(sample(v, v as i64));
    }
    let got: Vec<u64> = mv.memory_used.iter().cloned().collect();
    assert_eq!(got, vec![1, 2, 3, 4]);
}

#[test]
fn average_of_constant_ring_is_the_constant() {
    let mut mv = MonitorVec::new(6);
    for i in 0..6 {
        mv.insert(sample(4200, i));
    }
    let avg = mv.get_average(77);
    assert_eq!(avg.timestamp, 77);
    assert_eq!(avg.load_1, 4200);
    assert_eq!(avg.cpu_usage, 4200);
    assert_eq!(avg.memory_used, 4200);
    assert_eq!(avg.network_tx, 4200);
}

#[test]
fn average_truncates() {
    let mut mv = MonitorVec::new(4);
    mv.insert(sample(1, 0));
    mv.insert(sample(2, 1));
    let avg = mv.get_average(5);
    assert_eq!(avg.cpu_usage, 1);
}

#[test]
fn average_mixed_values() {
    let mut mv = MonitorVec::new(4);
    mv.insert(sample(100, 0));
    mv.insert(sample(300, 1));
    let avg = mv.get_average(9);
    assert_eq!(avg.load_5, 200);
}

#[test]
fn eviction_after_wraparound_average() {
    let mut mv = MonitorVec::new(2);
    mv.insert(sample(10, 0));
    mv.insert(sample(20, 1));
    mv.insert(sample(60, 2));
    let avg = mv.get_average(3);
    assert_eq!(avg.disk_used, 40);
}
