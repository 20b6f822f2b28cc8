//! Managed units: how they are kept, installed, upgraded, removed and checked.

pub mod artifact;
pub mod health;
pub mod install;
pub mod remove;
pub mod rows;
pub mod steps;
pub mod upgrade;
