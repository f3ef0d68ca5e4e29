//! Limits, periods and addresses of the simulation.

use vstd::prelude::*;

verus! {

// Network
pub const DEFAULT_SAT_IP: &'static str = "127.0.0.1";

pub const DEFAULT_GCS_IP: &'static str = "127.0.0.1";

/// The one link in both directions.
pub const SIM_TCP_PORT: u16 = 8888;

pub const UDP_MAX_PAYLOAD: usize = 512;

// Sensor periods
pub const THERMAL_PERIOD_MS: u64 = 100;

pub const POWER_PERIOD_MS: u64 = 200;

pub const IMU_PERIOD_MS: u64 = 500;

// Jitter limits
/// Hard limit of one millisecond.
pub const THERMAL_JITTER_LIMIT_US: u64 = 1_000;

pub const POWER_JITTER_LIMIT_US: u64 = 5_000;

pub const IMU_JITTER_LIMIT_US: u64 = 500;

// Buffer
pub const SENSOR_BUFFER_CAPACITY: usize = 64;

/// From this part of the capacity on, in percent, the buffer is degraded.
pub const BUFFER_DEGRADED_PCT: u64 = 80;

// Downlink timing
pub const DOWNLINK_WINDOW_MS: u64 = 50;

pub const DOWNLINK_INIT_TIMEOUT_MS: u64 = 100;

// Safety alerts
/// Jitter misses in a row that make a timing failure.
pub const THERMAL_MISS_ALERT: u32 = 10;

/// Seconds of silence that make a loss of contact.
pub const GCS_PACKET_LOSS_ALERT: u32 = 10;

pub const TELEMETRY_DECODE_MS: u64 = 10;

pub const CMD_DISPATCH_MS: u64 = 10;

// Fault injection
pub const FAULT_INJECT_INTERVAL_S: u64 = 60;

/// A recovery must complete within this time.
pub const FAULT_RECOVERY_LIMIT_MS: u64 = 200;

/// An interlock must apply within this time.
pub const GCS_INTERLOCK_LIMIT_MS: u64 = 100;

// Watchdog
pub const WATCHDOG_CHECK_INTERVAL_S: u64 = 1;

pub const WATCHDOG_TIMEOUT_S: u64 = 10;

// Scheduler
pub const THERMAL_CTRL_PERIOD_MS: u64 = 100;

pub const DATA_COMPRESS_PERIOD_MS: u64 = 500;

pub const HEALTH_MONITOR_PERIOD_MS: u64 = 1_000;

// Simulation
pub const SIM_DURATION_S: u64 = 300;

} // verus!
