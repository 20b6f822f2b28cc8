//! Verified core of the Vasal host agent: the wire protocol, the sidecar SDK,
//! the task engine and the rules by which the agent manages its units.

pub mod text;
pub mod sdk;
pub mod sidecars;
pub mod json;
pub mod string_map;
pub mod ids;
pub mod wire;
pub mod refusal;
pub mod protocol;
pub mod agent;
pub mod members;
