//! The bridge's configuration and the rules it must meet.

use crate::text::{is_blank, str_is_blank};
use vstd::prelude::*;

verus! {

/// Everything the bridge is configured with.
#[derive(Clone, Debug)]
pub struct BridgeConfig {
    pub bind_addr: String,
    pub tls: TlsConfig,
    pub limits: LimitsConfig,
    pub relay: RelayConfig,
}

/// Where the bridge finds its certificate chain, its key and the client CA bundle.
#[derive(Clone, Debug)]
pub struct TlsConfig {
    pub server_cert_pem: String,
    pub server_key_pem: String,
    pub client_ca_cert_pem: String,
}

/// Size and time limits of a session.
#[derive(Clone, Debug)]
pub struct LimitsConfig {
    pub max_ws_message_bytes: usize,
    pub hello_timeout_ms: u64,
    pub send_timeout_ms: u64,
}

/// How the hub relays telemetry and actions.
#[derive(Clone, Debug)]
pub struct RelayConfig {
    pub allow_orchestrator_subscribe: bool,
    pub max_orchestrator_subscribers: usize,
    pub min_relay_interval_ms: u64,
    pub primary_game_agent_id: String,
    pub action_queue_size: usize,
    pub action_send_timeout_ms: u64,
}

/// The first rule that a configuration breaks.
#[derive(Clone, Copy, Debug, PartialEq, Eq, Structural)]
pub enum BridgeConfigError {
    EmptyBindAddr,
    MessageLimitTooSmall,
    ZeroHelloTimeout,
    ZeroSendTimeout,
    ZeroOrchestratorLimit,
}

impl BridgeConfigError {
    pub open spec fn spec_message(self) -> Seq<char> {
        match self {
            BridgeConfigError::EmptyBindAddr => "bind_addr must not be empty"@,
            BridgeConfigError::MessageLimitTooSmall => "max_ws_message_bytes too small"@,
            BridgeConfigError::ZeroHelloTimeout => "hello_timeout_ms must be > 0"@,
            BridgeConfigError::ZeroSendTimeout => "send_timeout_ms must be > 0"@,
            BridgeConfigError::ZeroOrchestratorLimit => "max_orchestrator_subscribers must be > 0"@,
        }
    }

    /// The text that explains the broken rule.
    pub fn message(self) -> (r: &'static str)
        ensures
            r@ == self.spec_message(),
    {
        match self {
            BridgeConfigError::EmptyBindAddr => "bind_addr must not be empty",
            BridgeConfigError::MessageLimitTooSmall => "max_ws_message_bytes too small",
            BridgeConfigError::ZeroHelloTimeout => "hello_timeout_ms must be > 0",
            BridgeConfigError::ZeroSendTimeout => "send_timeout_ms must be > 0",
            BridgeConfigError::ZeroOrchestratorLimit => "max_orchestrator_subscribers must be > 0",
        }
    }
}

impl BridgeConfig {
    /// The first rule this configuration breaks, in the order in which the rules are
    /// checked, or `None` where it breaks none.
    pub open spec fn violation(&self) -> Option<BridgeConfigError> {
        if is_blank(self.bind_addr@) {
            Some(BridgeConfigError::EmptyBindAddr)
        } else if self.limits.max_ws_message_bytes < 1024 {
            Some(BridgeConfigError::MessageLimitTooSmall)
        } else if self.limits.hello_timeout_ms == 0 {
            Some(BridgeConfigError::ZeroHelloTimeout)
        } else if self.limits.send_timeout_ms == 0 {
            Some(BridgeConfigError::ZeroSendTimeout)
        } else if self.relay.max_orchestrator_subscribers == 0 {
            Some(BridgeConfigError::ZeroOrchestratorLimit)
        } else {
            None
        }
    }

    /// Checks the configuration against its rules.
    pub fn validate(&self) -> (r: Result<(), BridgeConfigError>)
        ensures
            match self.violation() {
                Some(e) => r == Err::<(), BridgeConfigError>(e),
                None => r is Ok,
            },
    {
        if str_is_blank(self.bind_addr.as_str()) {
            return Err(BridgeConfigError::EmptyBindAddr);
        }
        if self.limits.max_ws_message_bytes < 1024 {
            return Err(BridgeConfigError::MessageLimitTooSmall);
        }
        if self.limits.hello_timeout_ms == 0 {
            return Err(BridgeConfigError::ZeroHelloTimeout);
        }
        if self.limits.send_timeout_ms == 0 {
            return Err(BridgeConfigError::ZeroSendTimeout);
        }
        if self.relay.max_orchestrator_subscribers == 0 {
            return Err(BridgeConfigError::ZeroOrchestratorLimit);
        }
        Ok(())
    }
}

/// The mathematical value of a `RelayConfig`.
pub struct RelayConfigView {
    pub allow_orchestrator_subscribe: bool,
    pub max_orchestrator_subscribers: usize,
    pub min_relay_interval_ms: u64,
    pub primary_game_agent_id: Seq<char>,
    pub action_queue_size: usize,
    pub action_send_timeout_ms: u64,
}

impl View for RelayConfig {
    type V = RelayConfigView;

    open spec fn view(&self) -> RelayConfigView {
        RelayConfigView {
            allow_orchestrator_subscribe: self.allow_orchestrator_subscribe,
            max_orchestrator_subscribers: self.max_orchestrator_subscribers,
            min_relay_interval_ms: self.min_relay_interval_ms,
            primary_game_agent_id: self.primary_game_agent_id@,
            action_queue_size: self.action_queue_size,
            action_send_timeout_ms: self.action_send_timeout_ms,
        }
    }
}

} // verus!
