//! The ground side: telemetry, uplink, fault management and performance.

pub mod events;
pub mod fault_mgr;
pub mod perf_monitor;
pub mod state;
pub mod telemetry_rx;
pub mod ui;
pub mod uplink_tx;
pub mod watchdog;
