use host_monitor::http_types::{KilledInfo, QueryParams, TokenInfo};
use host_monitor::storage_config::StorageConfig;

#[test]
fn new_config_has_nothing_set() {
    let c = StorageConfig::new();
    assert_eq!(c.port, None);
    assert_eq!(c.is_auto_launch, None);
    assert_eq!(c.get_is_ubuntu22(), None);
    assert_eq!(c.get_interactive(), None);
}

#[test]
fn auto_launch_defaults_to_on() {
    let mut c = StorageConfig::new();
    assert!(c.get_auto_launch());
    let changed = c.set_auto_launch(false);
    assert!(changed);
    assert!(!c.get_auto_launch());
}

#[test]
fn setters_report_changes_only() {
    let mut c = StorageConfig::new();
    assert!(c.set_is_ubuntu22(true));
    assert!(!c.set_is_ubuntu22(true));
    assert!(c.set_is_ubuntu22(false));
    assert_eq!(c.get_is_ubuntu22(), Some(false));

    assert!(c.set_interactive(true));
    assert!(!c.set_interactive(true));
    assert_eq!(c.get_interactive(), Some(true));

    assert!(c.set_port(8080));
    assert!(!c.set_port(8080));
    assert!(c.set_port(9090));
    assert_eq!(c.port, Some(9090));
}

#[test]
fn config_file_name_is_fixed() {
    assert_eq!(StorageConfig::deploy_config_path(), "deploy-config.yml");
}

#[test]
fn request_shapes_default_empty() {
    let k = KilledInfo::default();
    assert_eq!(k.pid, "");
    let t = TokenInfo::default();
    assert_eq!(t.token, "");
    let q = QueryParams { start_time: 1, stop_time: 2, period: 3 };
    assert_eq!((q.start_time, q.stop_time, q.period), (1, 2, 3));
}
