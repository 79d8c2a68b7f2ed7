//! Verified core of a two-tier relay for a game-agent control plane: the bridge's
//! session protocol and relay hub, and the orchestrator's speech queue, action
//! ledger and tick-driven state actor.

pub mod bridge;
pub mod ids;
pub mod orchestrator;
pub mod proto;
pub mod text;
pub mod time;
pub mod wire;
