//! Types that travel between control plane, agent and sidecars.

pub mod credential;
pub mod error;
pub mod heartbeat;
pub mod jsonrpc;
pub mod laws;
pub mod sidecar;
pub mod task;
pub mod unit;
