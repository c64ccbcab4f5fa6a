//! Core of a host-monitoring agent: a cascading multi-resolution rollup
//! pipeline over 1 Hz metric samples, a persistent rollup store with one table
//! per resolution tier, a range-query reader that reconstructs a gap-free
//! aligned series, and the state machine of a live-streaming reporter with an
//! adaptively changing cadence.

pub mod aggregator;
pub mod db_reader;
pub mod dbutils;
pub mod http_types;
pub mod monitoring_data;
pub mod report;
pub mod storage_config;
