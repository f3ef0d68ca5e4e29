//! What the satellite and the ground station have in common.

pub mod config;
pub mod framing;
pub mod histogram;
pub mod log;
pub mod metrics;
pub mod packets;
pub mod sensors;
pub mod text;
pub mod tone;
pub mod types;
