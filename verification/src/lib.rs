//! Satellite on-board software and ground control station, as verified state machines.

pub mod ground;
pub mod laws;
pub mod satellite;
pub mod shared;
