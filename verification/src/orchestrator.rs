//! The orchestrator: a subscriber of the bridge that turns telemetry into speech and
//! watches over the actions it issues.

pub mod action_client;
pub mod action_ledger;
pub mod bridge_client;
pub mod config;
pub mod endpoint;
pub mod metrics;
pub mod pipeline;
pub mod speech_policy;
pub mod speech_queue;
pub mod state_actor;
pub mod subtitle_client;
pub mod tts_client;
