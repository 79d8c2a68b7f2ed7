use miqbot_relay::bridge::config::{BridgeConfig, BridgeConfigError, LimitsConfig, RelayConfig, TlsConfig};
use miqbot_relay::orchestrator::config::{
    OrchestratorConfig, OrchestratorConfigError, TlsConfig as OrchestratorTls, TtsMode,
};

fn bridge() -> BridgeConfig {
    BridgeConfig {
        bind_addr: "0.0.0.0:8443".to_string(),
        tls: TlsConfig {
            server_cert_pem: "s.pem".to_string(),
            server_key_pem: "k.pem".to_string(),
            client_ca_cert_pem: "ca.pem".to_string(),
        },
        limits: LimitsConfig { max_ws_message_bytes: 1024, hello_timeout_ms: 1, send_timeout_ms: 1 },
        relay: RelayConfig {
            allow_orchestrator_subscribe: true,
            max_orchestrator_subscribers: 1,
            min_relay_interval_ms: 0,
            primary_game_agent_id: String::new(),
            action_queue_size: 0,
            action_send_timeout_ms: 0,
        },
    }
}

fn orchestrator() -> OrchestratorConfig {
    OrchestratorConfig {
        bridge_url: "wss://b".to_string(),
        agent_id: "a".to_string(),
        client_version: "v".to_string(),
        primary_game_agent_id: "g".to_string(),
        tts_url: "http://t".to_string(),
        subtitle_url: "http://s".to_string(),
        tts_mode: "wav_only".to_string(),
        silence_gap_ms: 1,
        state_tick_ms: 1,
        duplicate_cooldown_ms: 0,
        queue_max_p0: 1,
        queue_max_p1: 1,
        queue_max_p2: 1,
        chat_deadline_ms: 1,
        filler_deadline_ms: 1,
        action_ack_timeout_ms: 1,
        action_result_timeout_ms: 1,
        audio_output_dir: "o".to_string(),
        fallback_wav_path: "f".to_string(),
        metrics_jsonl_path: "m".to_string(),
        tls: OrchestratorTls {
            client_cert_pem: "c".to_string(),
            client_key_pem: "k".to_string(),
            ca_cert_pem: "ca".to_string(),
        },
    }
}

#[test]
fn smallest_valid_bridge_config_passes() {
    assert!(bridge().validate().is_ok());
}

#[test]
fn bridge_rules_are_checked_in_order() {
    let mut c = bridge();
    c.bind_addr = " \t".to_string();
    c.limits.max_ws_message_bytes = 0;
    assert_eq!(c.validate(), Err(BridgeConfigError::EmptyBindAddr));
    assert_eq!(BridgeConfigError::EmptyBindAddr.message(), "bind_addr must not be empty");

    let mut c = bridge();
    c.limits.max_ws_message_bytes = 1023;
    c.limits.hello_timeout_ms = 0;
    assert_eq!(c.validate(), Err(BridgeConfigError::MessageLimitTooSmall));
    assert_eq!(BridgeConfigError::MessageLimitTooSmall.message(), "max_ws_message_bytes too small");

    let mut c = bridge();
    c.limits.hello_timeout_ms = 0;
    c.limits.send_timeout_ms = 0;
    assert_eq!(c.validate(), Err(BridgeConfigError::ZeroHelloTimeout));
    assert_eq!(BridgeConfigError::ZeroHelloTimeout.message(), "hello_timeout_ms must be > 0");

    let mut c = bridge();
    c.limits.send_timeout_ms = 0;
    c.relay.max_orchestrator_subscribers = 0;
    assert_eq!(c.validate(), Err(BridgeConfigError::ZeroSendTimeout));
    assert_eq!(BridgeConfigError::ZeroSendTimeout.message(), "send_timeout_ms must be > 0");

    let mut c = bridge();
    c.relay.max_orchestrator_subscribers = 0;
    assert_eq!(c.validate(), Err(BridgeConfigError::ZeroOrchestratorLimit));
    assert_eq!(BridgeConfigError::ZeroOrchestratorLimit.message(), "max_orchestrator_subscribers must be > 0");
}

#[test]
fn smallest_valid_orchestrator_config_passes() {
    assert!(orchestrator().validate().is_ok());
}

#[test]
fn every_orchestrator_rule_has_its_error() {
    type Edit = fn(&mut OrchestratorConfig);
    let cases: Vec<(Edit, OrchestratorConfigError, &str)> = vec![
        (|c| c.bridge_url = " ".into(), OrchestratorConfigError::EmptyBridgeUrl, "bridge_url must not be empty"),
        (|c| c.agent_id = "".into(), OrchestratorConfigError::EmptyAgentId, "agent_id must not be empty"),
        (|c| c.client_version = "\n".into(), OrchestratorConfigError::EmptyClientVersion, "client_version must not be empty"),
        (
            |c| c.primary_game_agent_id = "\u{3000}".into(),
            OrchestratorConfigError::EmptyPrimaryGameAgentId,
            "primary_game_agent_id must not be empty",
        ),
        (|c| c.tts_url = "".into(), OrchestratorConfigError::EmptyTtsUrl, "tts_url must not be empty"),
        (|c| c.subtitle_url = "".into(), OrchestratorConfigError::EmptySubtitleUrl, "subtitle_url must not be empty"),
        (|c| c.silence_gap_ms = 0, OrchestratorConfigError::ZeroSilenceGap, "silence_gap_ms must be > 0"),
        (|c| c.state_tick_ms = 0, OrchestratorConfigError::ZeroStateTick, "state_tick_ms must be > 0"),
        (|c| c.queue_max_p0 = 0, OrchestratorConfigError::ZeroQueueCapacity, "queue_max_p0/p1/p2 must be > 0"),
        (|c| c.queue_max_p1 = 0, OrchestratorConfigError::ZeroQueueCapacity, "queue_max_p0/p1/p2 must be > 0"),
        (|c| c.queue_max_p2 = 0, OrchestratorConfigError::ZeroQueueCapacity, "queue_max_p0/p1/p2 must be > 0"),
        (
            |c| c.chat_deadline_ms = 0,
            OrchestratorConfigError::ZeroSpeechDeadline,
            "chat_deadline_ms and filler_deadline_ms must be > 0",
        ),
        (
            |c| c.filler_deadline_ms = 0,
            OrchestratorConfigError::ZeroSpeechDeadline,
            "chat_deadline_ms and filler_deadline_ms must be > 0",
        ),
        (
            |c| c.action_ack_timeout_ms = 0,
            OrchestratorConfigError::ZeroActionTimeout,
            "action_ack_timeout_ms and action_result_timeout_ms must be > 0",
        ),
        (
            |c| c.action_result_timeout_ms = 0,
            OrchestratorConfigError::ZeroActionTimeout,
            "action_ack_timeout_ms and action_result_timeout_ms must be > 0",
        ),
        (|c| c.audio_output_dir = "".into(), OrchestratorConfigError::EmptyAudioOutputDir, "audio_output_dir must not be empty"),
        (|c| c.fallback_wav_path = "".into(), OrchestratorConfigError::EmptyFallbackWavPath, "fallback_wav_path must not be empty"),
        (|c| c.metrics_jsonl_path = "".into(), OrchestratorConfigError::EmptyMetricsPath, "metrics_jsonl_path must not be empty"),
    ];
    for (edit, expected, message) in cases {
        let mut c = orchestrator();
        edit(&mut c);
        assert_eq!(c.validate(), Err(expected));
        assert_eq!(expected.message(), message);
    }
}

#[test]
fn earlier_orchestrator_rules_take_precedence() {
    let mut c = orchestrator();
    c.metrics_jsonl_path = String::new();
    c.state_tick_ms = 0;
    c.agent_id = String::new();
    assert_eq!(c.validate(), Err(OrchestratorConfigError::EmptyAgentId));
    c.agent_id = "a".to_string();
    assert_eq!(c.validate(), Err(OrchestratorConfigError::ZeroStateTick));
}

#[test]
fn tts_mode_defaults_to_wav_only() {
    let mut c = orchestrator();
    assert_eq!(c.tts_mode(), TtsMode::WavOnly);
    c.tts_mode = "with_meta".to_string();
    assert_eq!(c.tts_mode(), TtsMode::WithMeta);
    for other in ["", "WITH_META", "with_meta ", "wav"] {
        c.tts_mode = other.to_string();
        assert_eq!(c.tts_mode(), TtsMode::WavOnly);
    }
}
