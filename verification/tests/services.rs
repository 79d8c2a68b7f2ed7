use miqbot_relay::orchestrator::action_client::{
    baritone_goto_request_with_ids, build_baritone_goto_request, build_stop_all_request, is_allowlisted,
    stop_all_request_with_ids,
};
use miqbot_relay::orchestrator::config::TtsMode;
use miqbot_relay::orchestrator::endpoint::{bridge_endpoint, endpoint_from_parts, EndpointError};
use miqbot_relay::orchestrator::metrics::{speech_dropped, speech_pipeline, MetricField, MetricValue};
use miqbot_relay::orchestrator::pipeline::run_pipeline;
use miqbot_relay::orchestrator::speech_queue::{DroppedSpeechJob, SpeechJob, SpeechPriority, SpeechSource};
use miqbot_relay::orchestrator::speech_policy::SpeechPolicy;
use miqbot_relay::orchestrator::subtitle_client::{SubtitleClient, SubtitleError, SubtitleResponse};
use miqbot_relay::orchestrator::tts_client::{status_is_success, SynthResult, TtsClient, TtsError};
use miqbot_relay::proto::{ActionStatus, ActionType, Capability, Dimension, ErrorCode, PeerRole, TelemetryFrame};

#[test]
fn endpoint_is_host_and_port_of_the_url() {
    let e = bridge_endpoint("wss://127.0.0.1:8443/ws").unwrap();
    assert_eq!((e.host.as_str(), e.port), ("127.0.0.1", 8443));
    let e = bridge_endpoint("wss://Bridge.Example.com/path?x=1").unwrap();
    assert_eq!((e.host.as_str(), e.port), ("bridge.example.com", 443));
    let e = bridge_endpoint("ws://[::1]/").unwrap();
    assert_eq!((e.host.as_str(), e.port), ("[::1]", 80));
}

#[test]
fn endpoint_errors() {
    assert_eq!(bridge_endpoint("not a url").unwrap_err(), EndpointError::InvalidUrl);
    assert_eq!(bridge_endpoint("").unwrap_err(), EndpointError::InvalidUrl);
    assert_eq!(bridge_endpoint("unix:/run/bridge.sock").unwrap_err(), EndpointError::HostMissing);
    assert_eq!(bridge_endpoint("foo://example.com").unwrap_err(), EndpointError::PortMissing);
    assert_eq!(endpoint_from_parts(None, None).unwrap_err(), EndpointError::HostMissing);
    assert_eq!(endpoint_from_parts(None, Some(1)).unwrap_err(), EndpointError::HostMissing);
    assert_eq!(endpoint_from_parts(Some("h".to_string()), None).unwrap_err(), EndpointError::PortMissing);
    let e = endpoint_from_parts(Some("h".to_string()), Some(9)).unwrap();
    assert_eq!((e.host.as_str(), e.port), ("h", 9));
    assert_eq!(EndpointError::InvalidUrl.message(), "parse bridge_url");
    assert_eq!(EndpointError::HostMissing.message(), "bridge_url host missing");
    assert_eq!(EndpointError::PortMissing.message(), "bridge_url port missing");
}

#[test]
fn tts_urls_and_statuses() {
    let c = TtsClient::new("http://tts:5000".to_string());
    assert_eq!(c.request_url(TtsMode::WavOnly), "http://tts:5000/v1/tts");
    assert_eq!(c.request_url(TtsMode::WithMeta), "http://tts:5000/v1/tts_with_meta");
    for (status, ok) in [(199u16, false), (200, true), (204, true), (299, true), (300, false), (404, false), (500, false)] {
        assert_eq!(status_is_success(status), ok);
    }
    assert_eq!(miqbot_relay::orchestrator::tts_client::SAMPLE_RATE_HZ, 48_000);
}

#[test]
fn plain_response_is_the_audio() {
    let s = TtsClient::synthesize_wav_only(200, vec![1, 2, 3]).unwrap();
    assert_eq!(s.wav_bytes, vec![1, 2, 3]);
    assert!(s.ttft_ms.is_none() && s.total_ms.is_none());
    assert_eq!(TtsClient::synthesize_wav_only(503, vec![1]).unwrap_err(), TtsError::Status(503));
}

#[test]
fn response_with_timings_carries_base64_audio() {
    let s = TtsClient::synthesize_with_meta(200, 12, 340, "aGVsbG8gd29ybGR+Cg==").unwrap();
    assert_eq!(s.wav_bytes, b"hello world~\n".to_vec());
    assert_eq!((s.ttft_ms, s.total_ms), (Some(12), Some(340)));
    let s = TtsClient::synthesize_with_meta(200, 0, 0, "").unwrap();
    assert!(s.wav_bytes.is_empty());
    assert_eq!(TtsClient::synthesize_with_meta(200, 1, 2, "not base64!").unwrap_err(), TtsError::BadAudio);
    assert_eq!(TtsClient::synthesize_with_meta(200, 1, 2, "aGVsbG8").unwrap_err(), TtsError::BadAudio);
    assert_eq!(TtsClient::synthesize_with_meta(500, 1, 2, "aGVsbG8=").unwrap_err(), TtsError::Status(500));
    assert_eq!(TtsClient::synthesize_with_decoded(1, 2, None).unwrap_err(), TtsError::BadAudio);
    let s = TtsClient::synthesize_with_decoded(1, 2, Some(vec![9])).unwrap();
    assert_eq!((s.wav_bytes.clone(), s.ttft_ms, s.total_ms), (vec![9], Some(1), Some(2)));
    assert_eq!(s.clone().wav_bytes, vec![9]);
}

fn subtitle(ok: bool) -> SubtitleResponse {
    SubtitleResponse { ok, request_id: "sub-1".to_string(), wrapped: "line\nwrap".to_string(), visible_chars: 8 }
}

#[test]
fn subtitle_counts_only_when_shown() {
    let c = SubtitleClient::new("http://sub".to_string());
    assert_eq!(c.request_url(), "http://sub/v1/subtitle");
    assert!(SubtitleClient::check_status(200).is_ok());
    assert_eq!(SubtitleClient::check_status(302), Err(SubtitleError::Status(302)));
    assert_eq!(SubtitleClient::post_subtitle(200, subtitle(true)).unwrap().request_id, "sub-1");
    assert_eq!(SubtitleClient::post_subtitle(200, subtitle(false)).unwrap_err(), SubtitleError::NotOk);
    assert_eq!(SubtitleClient::post_subtitle(500, subtitle(true)).unwrap_err(), SubtitleError::Status(500));
    assert_eq!(SubtitleClient::post_subtitle(500, subtitle(false)).unwrap_err(), SubtitleError::Status(500));
}

#[test]
fn pipeline_outcome_prefers_reported_timings() {
    let reported = SynthResult { wav_bytes: vec![], ttft_ms: Some(5), total_ms: Some(6) };
    let out = run_pipeline(Ok(subtitle(true)), &reported, 50, 60);
    assert_eq!((out.ttft_ms, out.tts_total_ms, out.pipeline_latency_ms), (5, 6, 60));
    assert_eq!(out.subtitle_request_id, "sub-1");
    assert_eq!(out.subtitle_wrapped, "line\nwrap");
    assert_eq!(out.subtitle_visible_chars, 8);

    let silent = SynthResult { wav_bytes: vec![], ttft_ms: None, total_ms: None };
    let out = run_pipeline(Err(SubtitleError::NotOk), &silent, 50, 60);
    assert_eq!((out.ttft_ms, out.tts_total_ms, out.pipeline_latency_ms), (50, 60, 60));
    assert_eq!(out.subtitle_request_id, "");
    assert_eq!(out.subtitle_wrapped, "");
    assert_eq!(out.subtitle_visible_chars, 0);
}

#[test]
fn allowlist_holds_stop_all_and_goto() {
    assert!(is_allowlisted(ActionType::ActionTypeStopAll));
    assert!(is_allowlisted(ActionType::ActionTypeBaritoneGoto));
    assert!(!is_allowlisted(ActionType::ActionTypeUnspecified));
}

#[test]
fn stop_all_request_fields() {
    let r = build_stop_all_request("game-1", 1_000, 1_500);
    assert_eq!(r.action_type, 1);
    assert_eq!(r.expires_at_unix_ms, 2_500);
    assert_eq!(r.expected_state_version, 0);
    assert_eq!(r.target_agent_id, "game-1");
    assert!(r.baritone_goto.is_none());
    assert_eq!(r.request_id.len(), 36);
    assert_eq!(r.idempotency_key.len(), 36);
    assert_ne!(r.request_id, r.idempotency_key);
    assert_ne!(r.request_id, build_stop_all_request("game-1", 1_000, 1_500).request_id);
    let r = stop_all_request_with_ids("rid".to_string(), "key".to_string(), "", u64::MAX - 1, 5);
    assert_eq!((r.request_id.as_str(), r.idempotency_key.as_str()), ("rid", "key"));
    assert_eq!(r.expires_at_unix_ms, u64::MAX);
    assert_eq!(r.target_agent_id, "");
}

#[test]
fn goto_request_fields() {
    let r = build_baritone_goto_request("game-1", 10, 20, 1.5f64.to_bits(), (-3.0f64).to_bits(), 0);
    assert_eq!(r.action_type, 2);
    assert_eq!(r.expires_at_unix_ms, 30);
    assert_eq!(r.request_id.len(), 36);
    let g = r.baritone_goto.unwrap();
    assert_eq!(f64::from_bits(g.x_bits), 1.5);
    assert_eq!(f64::from_bits(g.y_bits), -3.0);
    assert_eq!(f64::from_bits(g.z_bits), 0.0);
    assert_eq!((g.max_distance, g.timeout_ms, g.stuck_timeout_ms), (200, 15_000, 5_000));
    let r = baritone_goto_request_with_ids("a".to_string(), "b".to_string(), "t", 0, 0, 1, 2, 3);
    let g = r.baritone_goto.unwrap();
    assert_eq!((r.request_id.as_str(), g.x_bits, g.y_bits, g.z_bits), ("a", 1, 2, 3));
}

#[test]
fn enum_numbers_round_trip() {
    for v in [PeerRole::PeerRoleUnspecified, PeerRole::PeerRoleGameClient, PeerRole::PeerRoleOrchestrator, PeerRole::PeerRoleBridgeServer] {
        assert_eq!(PeerRole::from_i32(v.to_i32()), Some(v));
    }
    assert_eq!(PeerRole::PeerRoleOrchestrator.to_i32(), 2);
    assert_eq!(PeerRole::from_i32(4), None);
    assert_eq!(PeerRole::from_i32(-1), None);
    assert_eq!(Capability::from_i32(4), Some(Capability::CapHelloAckV1));
    assert_eq!(Capability::from_i32(5), None);
    assert_eq!(Dimension::from_i32(2), Some(Dimension::DimensionNether));
    assert_eq!(ActionType::from_i32(1), Some(ActionType::ActionTypeStopAll));
    assert_eq!(ActionStatus::from_i32(2), Some(ActionStatus::ActionStatusTimeout));
    assert_eq!(ErrorCode::from_i32(4), Some(ErrorCode::ErrorCodeTimeout));
    assert_eq!(ErrorCode::ErrorCodeDecodeFailed.to_i32(), 1);
    assert_eq!(ErrorCode::from_i32(10), None);
}

#[test]
fn policy_speaks_of_telemetry_once_per_cooldown() {
    let mut p = SpeechPolicy::new(10_000, 1_000);
    let t = TelemetryFrame { state_version: 1, dimension: 2, hp: 7, hunger: 19 };
    let line = p.line_from_telemetry(100, &t).unwrap();
    assert_eq!(line, "いまネザー、体力7で空腹19。足元を確認しながら行くよ。");
    assert!(p.line_from_telemetry(1_099, &t).is_none());
    assert!(p.line_from_telemetry(1_100, &t).is_some());
    let other = TelemetryFrame { state_version: 1, dimension: 1, hp: 7, hunger: 19 };
    assert_eq!(p.line_from_telemetry(1_101, &other).unwrap(), "いまオーバーワールド、体力7で空腹19。足元を確認しながら行くよ。");
    for (code, name) in [(3, "エンド"), (4, "特殊ディメンション"), (0, "不明な場所"), (42, "不明な場所")] {
        let t = TelemetryFrame { state_version: 1, dimension: code, hp: 0, hunger: 0 };
        let mut p = SpeechPolicy::new(10_000, 1_000);
        assert_eq!(
            p.line_from_telemetry(5_000, &t).unwrap(),
            format!("いま{}、体力0で空腹0。足元を確認しながら行くよ。", name)
        );
    }
}

#[test]
fn policy_fills_long_silences() {
    let mut p = SpeechPolicy::new(10_000, 1_000);
    assert!(p.filler_if_needed(9_999, 0).is_none());
    assert_eq!(p.filler_if_needed(10_000, 0).unwrap(), "えっと、次の一手を考えてる。安全第一で進むね。");
    assert!(p.filler_if_needed(10_500, 0).is_none());
    assert!(p.filler_if_needed(11_000, 0).is_some());
    assert!(p.filler_if_needed(5, 10).is_none());
    assert_eq!(p.accept_line(20_000, "x".to_string()).unwrap(), "x");
    assert!(p.accept_line(20_001, "x".to_string()).is_none());
    assert!(p.accept_line(20_001, "y".to_string()).is_some());
}

fn rendered(fields: &[MetricField]) -> Vec<String> {
    fields
        .iter()
        .map(|f| match &f.value {
            MetricValue::Text(s) => format!("{}={:?}", f.name, s),
            MetricValue::Number(n) => format!("{}={}", f.name, n),
        })
        .collect()
}

fn spoken_job() -> SpeechJob {
    SpeechJob {
        job_id: "j-1".to_string(),
        text: "watch out".to_string(),
        priority: SpeechPriority::P0Safety,
        source: SpeechSource::ActionSafety,
        enqueued_ms: 1,
        deadline_ms: 2,
        dedupe_key: "watchout".to_string(),
    }
}

#[test]
fn dropped_job_record() {
    let d = DroppedSpeechJob { job: spoken_job(), reason: "queue_overflow" };
    assert_eq!(
        rendered(&speech_dropped(&d)),
        vec![
            "event=\"speech_dropped\"",
            "job_id=\"j-1\"",
            "text=\"watch out\"",
            "priority=\"p0_safety\"",
            "source=\"action_safety\"",
            "dropped_reason=\"queue_overflow\"",
        ]
    );
}

#[test]
fn spoken_job_record() {
    let synth = SynthResult { wav_bytes: vec![], ttft_ms: Some(5), total_ms: None };
    let outcome = run_pipeline(Ok(subtitle(true)), &synth, 50, 60);
    assert_eq!(
        rendered(&speech_pipeline(&spoken_job(), &outcome, 700, 8, "out/a.wav")),
        vec![
            "event=\"speech_pipeline\"",
            "job_id=\"j-1\"",
            "text=\"watch out\"",
            "priority=\"p0_safety\"",
            "source=\"action_safety\"",
            "ttft_ms=5",
            "tts_total_ms=60",
            "subtitle_request_id=\"sub-1\"",
            "subtitle_visible_chars=8",
            "subtitle_wrapped=\"line\\nwrap\"",
            "silence_gap_ms=700",
            "queue_wait_ms=8",
            "pipeline_latency_ms=60",
            "audio_path=\"out/a.wav\"",
        ]
    );
}
