//! Laws of the operations themselves: what a call gives and changes, for all inputs, said of the
//! call and not of the functions that its contract is written with.

pub mod buffer;
pub mod commands;
pub mod dashboard;
pub mod downlink;
pub mod fault;
pub mod fault_mgr;
pub mod logged;
pub mod scheduler;
pub mod sensor;
pub mod shared;
pub mod telemetry;
pub mod text;
pub mod uplink;
