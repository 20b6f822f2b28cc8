//! The rules of the sidecars that come with the agent.

pub mod ebpf_observer;
pub mod echo_ctrl;
pub mod sql_ctrl;
