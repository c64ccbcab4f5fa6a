use host_monitor::db_reader::{ReadConfig, SQLiteReader};
use host_monitor::dbutils::{table_name, SQLiteDB, StoreError, Tier};
use host_monitor::monitoring_data::MonitoringData;

fn all_metrics() -> Vec<String> {
    vec!["all".to_string()]
}

fn row(ts: i64, v: u64) -> MonitoringData {
    MonitoringData {
        timestamp: ts,
        load_1: v,
        load_5: v + 1,
        load_15: v + 2,
        cpu_usage: v + 3,
        memory_used: v + 4,
        memory_free: v + 5,
        swap_used: v + 6,
        swap_free: v + 7,
        disk_used: v + 8,
        disk_read: v + 9,
        disk_write: v + 10,
        network_rx: v + 11,
        network_tx: v + 12,
    }
}

/// A shared in-memory database, so a writer and a reader see the same store
/// without touching the file system.
fn mem_db(name: &str) -> String {
    format!("file:{}?mode=memory&cache=shared", name)
}

fn create_all_tables(db: &SQLiteDB) {
    for tier in [Tier::Per10Second, Tier::Per1Minute, Tier::Per5Minute, Tier::Per1Hour] {
        db.crate_table(table_name(tier)).expect("create table");
    }
}

#[test]
fn round_trip_single_row() {
    let path = mem_db("round_trip");
    let db = SQLiteDB::new(&path).expect("open");
    create_all_tables(&db);
    let inserted = row(50, 100);
    db.insert_data(table_name(Tier::Per10Second), inserted.clone()).expect("insert");
    let mut reader = SQLiteReader::new(&path).expect("open reader");
    let cfg = ReadConfig::new(all_metrics(), 50, 60, 10);
    let rd = reader.read_with_fill(&cfg).expect("read");
    assert_eq!(rd.time_vec, vec![50]);
    assert_eq!(rd.monitor_vec.load_1[0], inserted.load_1);
    assert_eq!(rd.monitor_vec.load_5[0], inserted.load_5);
    assert_eq!(rd.monitor_vec.load_15[0], inserted.load_15);
    assert_eq!(rd.monitor_vec.cpu_usage[0], inserted.cpu_usage);
    assert_eq!(rd.monitor_vec.memory_used[0], inserted.memory_used);
    assert_eq!(rd.monitor_vec.memory_free[0], inserted.memory_free);
    assert_eq!(rd.monitor_vec.swap_used[0], inserted.swap_used);
    assert_eq!(rd.monitor_vec.swap_free[0], inserted.swap_free);
    assert_eq!(rd.monitor_vec.disk_used[0], inserted.disk_used);
    assert_eq!(rd.monitor_vec.disk_read[0], inserted.disk_read);
    assert_eq!(rd.monitor_vec.disk_write[0], inserted.disk_write);
    assert_eq!(rd.monitor_vec.network_rx[0], inserted.network_rx);
    assert_eq!(rd.monitor_vec.network_tx[0], inserted.network_tx);
    assert_eq!(rd.monitor_vec.len, 1);
}

#[test]
fn gaps_are_zero_filled_through_the_reader() {
    let path = mem_db("gap_fill");
    let db = SQLiteDB::new(&path).expect("open");
    create_all_tables(&db);
    db.insert_data(table_name(Tier::Per10Second), row(10, 100)).expect("insert");
    db.insert_data(table_name(Tier::Per10Second), row(30, 200)).expect("insert");
    let mut reader = SQLiteReader::new(&path).expect("open reader");
    let cfg = ReadConfig::new(all_metrics(), 0, 31, 10);
    let rd = reader.read_with_fill(&cfg).expect("read");
    assert_eq!(rd.time_vec, vec![10, 20, 30]);
    let got: Vec<u64> = rd.monitor_vec.load_1.iter().cloned().collect();
    assert_eq!(got, vec![100, 0, 200]);
    let got_cpu: Vec<u64> = rd.monitor_vec.cpu_usage.iter().cloned().collect();
    assert_eq!(got_cpu, vec![103, 0, 203]);
}

#[test]
fn read_only_returns_rows_without_filling() {
    let path = mem_db("read_only");
    let db = SQLiteDB::new(&path).expect("open");
    create_all_tables(&db);
    db.insert_data(table_name(Tier::Per10Second), row(20, 7)).expect("insert");
    let mut reader = SQLiteReader::new(&path).expect("open reader");
    let cfg = ReadConfig::new(all_metrics(), 0, 100, 10);
    let rd = reader.read_only(&cfg).expect("read");
    assert_eq!(rd.time_vec, vec![20]);
    assert_eq!(rd.monitor_vec.len, 1);
}

#[test]
fn duplicate_timestamp_insert_fails_nonfatally() {
    let path = mem_db("dup_insert");
    let db = SQLiteDB::new(&path).expect("open");
    create_all_tables(&db);
    db.insert_data(table_name(Tier::Per1Minute), row(60, 1)).expect("first insert");
    let second = db.insert_data(table_name(Tier::Per1Minute), row(60, 2));
    assert!(second.is_err());
    // The first row is untouched.
    let mut reader = SQLiteReader::new(&path).expect("open reader");
    let cfg = ReadConfig::new(all_metrics(), 60, 120, 60);
    let rd = reader.read_with_fill(&cfg).expect("read");
    assert_eq!(rd.monitor_vec.load_1[0], 1);
}

#[test]
fn create_table_is_idempotent() {
    let path = mem_db("idempotent");
    let db = SQLiteDB::new(&path).expect("open");
    db.crate_table(table_name(Tier::Per1Hour)).expect("first");
    db.crate_table(table_name(Tier::Per1Hour)).expect("second");
}

#[test]
fn missing_table_is_a_query_error() {
    let path = mem_db("no_tables");
    let _db = SQLiteDB::new(&path).expect("open");
    let mut reader = SQLiteReader::new(&path).expect("open reader");
    let cfg = ReadConfig::new(all_metrics(), 0, 100, 10);
    assert_eq!(reader.read_only(&cfg).unwrap_err(), StoreError::Query);
}

#[test]
fn unopenable_path_is_an_open_error() {
    let r = SQLiteDB::new("/nonexistent-dir-for-store/agent.db");
    assert!(matches!(r, Err(StoreError::Open)));
    let r2 = SQLiteReader::new("/nonexistent-dir-for-store/agent.db");
    assert!(matches!(r2, Err(StoreError::Open)));
}

#[test]
fn tick_and_persist_writes_boundary_rows() {
    let path = mem_db("tick_persist");
    let db = SQLiteDB::new(&path).expect("open");
    create_all_tables(&db);
    let mut agg = host_monitor::aggregator::Aggregator::new();
    for tick in 1..=10i64 {
        agg.tick_and_persist(&db, row(tick, tick as u64 * 100), tick);
    }
    let mut reader = SQLiteReader::new(&path).expect("open reader");
    let cfg = ReadConfig::new(all_metrics(), 10, 20, 10);
    let rd = reader.read_with_fill(&cfg).expect("read");
    assert_eq!(rd.time_vec, vec![10]);
    // load_1 carried tick * 100 for ticks 1..10: mean 550.
    assert_eq!(rd.monitor_vec.load_1[0], 550);
}
