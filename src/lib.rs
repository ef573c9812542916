//! Resilient transport-and-protocol layer: a versioned message codec, admission
//! control, a retry policy, a duplex channel state machine and latency metrics,
//! each specified over a mathematical model and proved.

pub mod agent;
pub mod network;
pub mod program;
