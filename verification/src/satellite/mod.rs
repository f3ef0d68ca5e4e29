//! The on-board side: sensors, buffer, scheduler, downlink, uplink and fault engine.

pub mod buffer;
pub mod downlink;
pub mod events;
pub mod fault;
pub mod schedulability;
pub mod scheduler;
pub mod sensor;
pub mod state;
pub mod telemetry_cache;
pub mod ui;
pub mod uplink_rx;
