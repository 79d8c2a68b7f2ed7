//! The bridge: the relay between the primary game client and the orchestrators.

pub mod config;
pub mod relay;
pub mod session;
