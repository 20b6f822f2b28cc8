//! Running tasks.

pub mod chain;
pub mod continuous;
pub mod manager;
pub mod permits;
pub mod router;
pub mod shell;
pub mod sidecar;
