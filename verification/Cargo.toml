[package]
name = "host_monitor"
version = "0.1.0"
edition = "2021"
publish = false

[dependencies]
rusqlite = { version = "=0.40.2", features = ["bundled", "fallible_uint"] }
tokio = { version = "=1.53.2", features = ["full"] }
tokio-util = "=0.7.19"
chrono = "=0.4.45"
sysinfo = "=0.39.6"
serde = { version = "=1.0.229", features = ["derive"] }
serde_json = "=1.0.151"
serde_yaml = "=0.9.34"
ezsockets = "=0.7.2"
async-trait = "=0.1.92"
