//! Resource sampling for named services: CPU load from two process
//! snapshots, resident memory summed over a service's processes, host memory,
//! disk and temperature readings, CSV records of the results, and the
//! watermark that keeps a tailed log from being delivered twice.

pub mod cmd_health_check;
pub mod config;
pub mod cpu_load;
pub mod decimal;
pub mod error;
pub mod health_monitor;
pub mod journal_log;
pub mod log;
pub mod memory_usage;
pub mod text;
