use host_monitor::db_reader::{
    audit_data, find_miss, rows_to_read_data, select_table, ReadConfig, ReadData,
};
use host_monitor::dbutils::{StoreError, Tier};
use std::collections::VecDeque;

fn all_metrics() -> Vec<String> {
    vec!["all".to_string()]
}

/// A read result with the given timestamps and, in every metric column, the
/// given values.
fn read_data(times: &[i64], vals: &[u64]) -> ReadData {
    assert_eq!(times.len(), vals.len());
    let mut rd = ReadData::new();
    rd.time_vec = times.to_vec();
    let col: VecDeque<u64> = vals.iter().cloned().collect();
    rd.monitor_vec.len = times.len();
    rd.monitor_vec.load_1 = col.clone();
    rd.monitor_vec.load_5 = col.clone();
    rd.monitor_vec.load_15 = col.clone();
    rd.monitor_vec.cpu_usage = col.clone();
    rd.monitor_vec.memory_used = col.clone();
    rd.monitor_vec.memory_free = col.clone();
    rd.monitor_vec.swap_used = col.clone();
    rd.monitor_vec.swap_free = col.clone();
    rd.monitor_vec.disk_used = col.clone();
    rd.monitor_vec.disk_read = col.clone();
    rd.monitor_vec.disk_write = col.clone();
    rd.monitor_vec.network_rx = col.clone();
    rd.monitor_vec.network_tx = col;
    rd
}

#[test]
fn select_table_maps_canonical_periods() {
    assert_eq!(select_table(10), Tier::Per10Second);
    assert_eq!(select_table(60), Tier::Per1Minute);
    assert_eq!(select_table(300), Tier::Per5Minute);
    assert_eq!(select_table(3600), Tier::Per1Hour);
}

#[test]
fn select_table_falls_back_to_finest() {
    assert_eq!(select_table(7), Tier::Per10Second);
    assert_eq!(select_table(86400), Tier::Per10Second);
    assert_eq!(select_table(0), Tier::Per10Second);
}

#[test]
fn find_miss_marks_exactly_the_absent_positions() {
    // A grid of 10 timestamps with rows present only at positions 0, 2, 5, 9.
    let full: Vec<i64> = (1..=10).map(|k| k * 10).collect();
    let got: Vec<i64> = vec![10, 30, 60, 100];
    let miss = find_miss(&full, &got);
    assert_eq!(miss, vec![1, 3, 4, 6, 7, 8]);
}

#[test]
fn find_miss_empty_result_set() {
    let full: Vec<i64> = vec![10, 20];
    let got: Vec<i64> = vec![];
    assert_eq!(find_miss(&full, &got), vec![0, 1]);
}

#[test]
fn gap_fill_inserts_defaults_in_grid_order() {
    // Grid 10..100 step 10; rows present at grid positions {0, 2, 5, 9}.
    let rd_times = [10i64, 30, 60, 100];
    let rd_vals = [1u64, 2, 3, 4];
    let mut rd = read_data(&rd_times, &rd_vals);
    let cfg = ReadConfig::new(all_metrics(), 0, 101, 10);
    audit_data(&mut rd, &cfg).expect("audit succeeds");
    let want_times: Vec<i64> = (1..=10).map(|k| k * 10).collect();
    assert_eq!(rd.time_vec, want_times);
    let want_vals: Vec<u64> = vec![1, 0, 2, 0, 0, 3, 0, 0, 0, 4];
    let got: Vec<u64> = rd.monitor_vec.cpu_usage.iter().cloned().collect();
    assert_eq!(got, want_vals);
    let got_net: Vec<u64> = rd.monitor_vec.network_tx.iter().cloned().collect();
    assert_eq!(got_net, want_vals);
    assert_eq!(rd.monitor_vec.len, 10);
}

#[test]
fn fully_populated_range_is_returned_unchanged() {
    let times: Vec<i64> = (1..=10).map(|k| k * 10).collect();
    let vals: Vec<u64> = (1..=10).collect();
    let mut rd = read_data(&times, &vals);
    let before = rd.clone();
    let cfg = ReadConfig::new(all_metrics(), 0, 101, 10);
    audit_data(&mut rd, &cfg).expect("audit succeeds");
    assert_eq!(rd, before);
    assert_eq!(rd.time_vec.len(), 10);
    let got: Vec<u64> = rd.monitor_vec.load_1.iter().cloned().collect();
    assert_eq!(got, vals);
}

#[test]
fn zero_period_is_an_invalid_range() {
    let mut rd = read_data(&[], &[]);
    let cfg = ReadConfig::new(all_metrics(), 0, 100, 0);
    assert_eq!(audit_data(&mut rd, &cfg), Err(StoreError::InvalidRange));
}

#[test]
fn reversed_range_is_invalid() {
    let mut rd = read_data(&[], &[]);
    let cfg = ReadConfig::new(all_metrics(), 100, 0, 10);
    assert_eq!(audit_data(&mut rd, &cfg), Err(StoreError::InvalidRange));
}

#[test]
fn off_grid_timestamp_is_misaligned() {
    // 15 is inside the range but on no grid slot, so the gap positions cannot
    // be aligned.
    let mut rd = read_data(&[15], &[1]);
    let cfg = ReadConfig::new(all_metrics(), 0, 101, 10);
    assert_eq!(audit_data(&mut rd, &cfg), Err(StoreError::Misaligned));
}

#[test]
fn empty_result_fills_whole_grid() {
    let mut rd = read_data(&[], &[]);
    let cfg = ReadConfig::new(all_metrics(), 0, 31, 10);
    audit_data(&mut rd, &cfg).expect("audit succeeds");
    assert_eq!(rd.time_vec, vec![10, 20, 30]);
    let got: Vec<u64> = rd.monitor_vec.swap_used.iter().cloned().collect();
    assert_eq!(got, vec![0, 0, 0]);
}

#[test]
fn rows_convert_exactly() {
    let rows: Vec<Vec<i64>> = vec![
        vec![10, 1, 2, 3, 4, 5, 6, 7, 8, 9, 10, 11, 12, 13],
        vec![20, 21, 22, 23, 24, 25, 26, 27, 28, 29, 30, 31, 32, 33],
    ];
    let rd = rows_to_read_data(&rows, 0, 100).expect("valid rows");
    assert_eq!(rd.time_vec, vec![10, 20]);
    let load_1: Vec<u64> = rd.monitor_vec.load_1.iter().cloned().collect();
    assert_eq!(load_1, vec![1, 21]);
    let cpu: Vec<u64> = rd.monitor_vec.cpu_usage.iter().cloned().collect();
    assert_eq!(cpu, vec![4, 24]);
    let tx: Vec<u64> = rd.monitor_vec.network_tx.iter().cloned().collect();
    assert_eq!(tx, vec![13, 33]);
    assert_eq!(rd.monitor_vec.len, 2);
}

#[test]
fn short_row_is_bad() {
    let rows: Vec<Vec<i64>> = vec![vec![10, 1, 2]];
    assert_eq!(rows_to_read_data(&rows, 0, 100).unwrap_err(), StoreError::BadRow);
}

#[test]
fn negative_metric_is_bad() {
    let rows: Vec<Vec<i64>> = vec![vec![10, -1, 2, 3, 4, 5, 6, 7, 8, 9, 10, 11, 12, 13]];
    assert_eq!(rows_to_read_data(&rows, 0, 100).unwrap_err(), StoreError::BadRow);
}

#[test]
fn out_of_range_row_timestamp_is_misaligned() {
    let rows: Vec<Vec<i64>> = vec![vec![200, 1, 2, 3, 4, 5, 6, 7, 8, 9, 10, 11, 12, 13]];
    assert_eq!(rows_to_read_data(&rows, 0, 100).unwrap_err(), StoreError::Misaligned);
}

#[test]
fn unsorted_row_timestamps_are_misaligned() {
    let rows: Vec<Vec<i64>> = vec![
        vec![20, 1, 2, 3, 4, 5, 6, 7, 8, 9, 10, 11, 12, 13],
        vec![10, 1, 2, 3, 4, 5, 6, 7, 8, 9, 10, 11, 12, 13],
    ];
    assert_eq!(rows_to_read_data(&rows, 0, 100).unwrap_err(), StoreError::Misaligned);
}

#[test]
fn duplicate_row_timestamps_are_misaligned() {
    let rows: Vec<Vec<i64>> = vec![
        vec![10, 1, 2, 3, 4, 5, 6, 7, 8, 9, 10, 11, 12, 13],
        vec![10, 1, 2, 3, 4, 5, 6, 7, 8, 9, 10, 11, 12, 13],
    ];
    assert_eq!(rows_to_read_data(&rows, 0, 100).unwrap_err(), StoreError::Misaligned);
}

#[test]
fn read_data_new_is_empty() {
    let rd = ReadData::new();
    assert!(rd.time_vec.is_empty());
    assert_eq!(rd.monitor_vec.len, 0);
    assert!(rd.monitor_vec.load_15.is_empty());
}
