//! What a sidecar author builds on: framing, request handling and the handler
//! interface.

pub mod codec;
pub mod fit;
pub mod handler;
pub mod server;
