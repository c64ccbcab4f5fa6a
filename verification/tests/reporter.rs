use host_monitor::monitoring_data::MonitoringData;
use host_monitor::report::{report_event, Reporter};

fn payload() -> MonitoringData {
    MonitoringData {
        timestamp: 1,
        load_1: 2,
        load_5: 3,
        load_15: 4,
        cpu_usage: 5,
        memory_used: 6,
        memory_free: 7,
        swap_used: 8,
        swap_free: 9,
        disk_used: 10,
        disk_read: 11,
        disk_write: 12,
        network_rx: 13,
        network_tx: 14,
    }
}

#[test]
fn default_cadence_is_sixty_seconds() {
    let r = Reporter::new(None);
    assert_eq!(r.sleep_secs(), 60);
}

#[test]
fn configured_interval_is_used() {
    let r = Reporter::new(Some(5));
    assert_eq!(r.sleep_secs(), 5);
}

#[test]
fn realtime_command_switches_to_one_second() {
    let mut r = Reporter::new(Some(60));
    r.on_text("realtime");
    assert_eq!(r.sleep_secs(), 1);
}

#[test]
fn interval_command_switches_back() {
    let mut r = Reporter::new(Some(60));
    r.on_text("realtime");
    r.on_text("interval");
    assert_eq!(r.sleep_secs(), 60);
}

#[test]
fn unknown_command_changes_nothing() {
    let mut r = Reporter::new(Some(30));
    r.on_text("realtime");
    r.on_text("whatever");
    assert_eq!(r.sleep_secs(), 1);
    r.on_text("interval");
    r.on_text("");
    assert_eq!(r.sleep_secs(), 30);
}

#[test]
fn interval_change_applies_on_next_read() {
    let mut r = Reporter::new(None);
    r.set_interval(120);
    assert_eq!(r.sleep_secs(), 120);
    r.on_text("realtime");
    assert_eq!(r.sleep_secs(), 1);
    r.on_text("interval");
    assert_eq!(r.sleep_secs(), 120);
}

#[test]
fn report_envelope_is_tagged() {
    let e = report_event(payload());
    assert_eq!(e.event, "report");
    assert_eq!(e.data, payload());
}
