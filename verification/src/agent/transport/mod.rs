//! How work comes from the control plane, and results go back.

pub mod grpc;
pub mod poll;
pub mod work;
