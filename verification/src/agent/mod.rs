//! The rules of the agent: what it decides, apart from how it talks to the
//! world.

pub mod audit;
pub mod auth;
pub mod bootstrap;
pub mod config;
pub mod credential;
pub mod defaults;
pub mod error;
pub mod heartbeat;
pub mod metrics;
pub mod run;
pub mod self_upgrade;
pub mod state;
pub mod store;
pub mod task;
pub mod transport;
pub mod unit;
