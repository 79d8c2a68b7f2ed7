use miqbot_relay::orchestrator::bridge_client::BridgeEvent;
use miqbot_relay::orchestrator::config::{OrchestratorConfig, TlsConfig};
use miqbot_relay::orchestrator::speech_queue::{SpeechPriority, SpeechSource};
use miqbot_relay::orchestrator::state_actor::StateActor;
use miqbot_relay::proto::{ActionAck, ActionResult, Heartbeat, TelemetryFrame};

fn config() -> OrchestratorConfig {
    OrchestratorConfig {
        bridge_url: "wss://127.0.0.1:8443/ws".to_string(),
        agent_id: "orch-1".to_string(),
        client_version: "0.1".to_string(),
        primary_game_agent_id: "game-1".to_string(),
        tts_url: "http://tts".to_string(),
        subtitle_url: "http://sub".to_string(),
        tts_mode: "wav_only".to_string(),
        silence_gap_ms: 10_000,
        state_tick_ms: 50,
        duplicate_cooldown_ms: 1_000,
        queue_max_p0: 4,
        queue_max_p1: 4,
        queue_max_p2: 2,
        chat_deadline_ms: 5_000,
        filler_deadline_ms: 2_000,
        action_ack_timeout_ms: 100,
        action_result_timeout_ms: 500,
        audio_output_dir: "out".to_string(),
        fallback_wav_path: "out/fallback.wav".to_string(),
        metrics_jsonl_path: "out/metrics.jsonl".to_string(),
        tls: TlsConfig {
            client_cert_pem: "c.pem".to_string(),
            client_key_pem: "k.pem".to_string(),
            ca_cert_pem: "ca.pem".to_string(),
        },
    }
}

fn telemetry(dimension: i32, hp: u32, hunger: u32) -> TelemetryFrame {
    TelemetryFrame { state_version: 1, dimension, hp, hunger }
}

#[test]
fn telemetry_line_names_dimension_hp_and_hunger() {
    let actor = StateActor::new(config());
    assert_eq!(
        actor.make_telemetry_line(&telemetry(1, 20, 17)),
        "Current dimension=overworld, hp=20, hunger=17. moving with caution."
    );
    assert_eq!(
        actor.make_telemetry_line(&telemetry(2, 0, 4_294_967_295)),
        "Current dimension=nether, hp=0, hunger=4294967295. moving with caution."
    );
    for (code, name) in [(3, "end"), (4, "other"), (0, "unknown"), (99, "unknown"), (-1, "unknown")] {
        assert_eq!(
            actor.make_telemetry_line(&telemetry(code, 1, 1)),
            format!("Current dimension={}, hp=1, hunger=1. moving with caution.", name)
        );
    }
}

#[test]
fn ack_timeout_cascade() {
    let mut actor = StateActor::new(config());
    actor.on_stop_sent("r2".to_string(), 0);

    let plan = actor.on_tick(99, 1_000_000);
    assert!(plan.dropped.is_empty() && plan.stop_requests.is_empty());

    let plan = actor.on_tick(150, 1_000_000);
    assert!(plan.dropped.is_empty());
    assert_eq!(plan.stop_requests.len(), 1);
    let stop = &plan.stop_requests[0];
    assert_eq!(stop.action_type, 1);
    assert_eq!(stop.target_agent_id, "game-1");
    assert_eq!(stop.expires_at_unix_ms, 1_001_500);
    assert_eq!(stop.expected_state_version, 0);
    assert!(stop.baritone_goto.is_none());
    assert_eq!(stop.request_id.len(), 36);
    assert_eq!(stop.idempotency_key.len(), 36);
    assert_ne!(stop.request_id, stop.idempotency_key);
    assert_ne!(stop.request_id, "r2");

    let new_id = stop.request_id.clone();
    actor.on_stop_sent(new_id.clone(), 150);

    let turn = actor.next_speech(150);
    let job = turn.job.unwrap();
    assert_eq!(job.priority, SpeechPriority::P0Safety);
    assert_eq!(job.source, SpeechSource::ActionSafety);
    assert_eq!(job.text, "Action r2 reached ack_timeout. sending StopAll.");
    assert_eq!(job.enqueued_ms, 150);
    assert_eq!(job.deadline_ms, 5_150);
    assert_eq!(job.dedupe_key, "Actionr2reachedack_timeout.sendingStopAll.");
    assert_eq!(job.job_id.len(), 36);
    assert_eq!(turn.queue_wait_ms, 0);
    assert_eq!(turn.silence_gap_ms, 150);

    // the new request is in the ledger: unanswered, it times out in its turn
    let plan = actor.on_tick(250, 1_000_100);
    assert_eq!(plan.stop_requests.len(), 1);
    actor.on_spoken(260);
    let turn = actor.next_speech(270);
    assert_eq!(turn.job.unwrap().text, format!("Action {} reached ack_timeout. sending StopAll.", new_id));
    assert_eq!(turn.silence_gap_ms, 10);
}

#[test]
fn result_timeout_has_its_own_label_and_unsent_stops_are_not_tracked() {
    let mut actor = StateActor::new(config());
    actor.on_stop_sent("r9".to_string(), 0);
    let out = actor.on_bridge_event(
        BridgeEvent::ActionAck(ActionAck { request_id: "r9".to_string(), accepted: true, reason: String::new() }),
        10,
    );
    assert!(out.keep_running && out.dropped.is_none());
    assert!(actor.on_tick(499, 0).stop_requests.is_empty());
    let plan = actor.on_tick(500, 0);
    assert_eq!(plan.stop_requests.len(), 1);
    let turn = actor.next_speech(500);
    assert_eq!(turn.job.unwrap().text, "Action r9 reached result_timeout. sending StopAll.");
    // the stop request was never reported as sent, so nothing is left to time out
    assert!(actor.on_tick(u64::MAX, 0).stop_requests.is_empty());
}

#[test]
fn queue_overflow_drops_the_oldest_commentary() {
    let mut actor = StateActor::new(config());
    let mut dropped = Vec::new();
    for (t, hp) in [(0u64, 1u32), (1, 2), (2, 3)] {
        let out = actor.on_bridge_event(BridgeEvent::Telemetry(telemetry(1, hp, 20)), t);
        assert!(out.keep_running);
        dropped.extend(out.dropped);
    }
    assert_eq!(dropped.len(), 1);
    assert_eq!(dropped[0].reason, "queue_overflow");
    assert_eq!(dropped[0].job.text, "Current dimension=overworld, hp=1, hunger=20. moving with caution.");
    assert_eq!(dropped[0].job.priority.as_str(), "p2_commentary");
    assert_eq!(dropped[0].job.source.as_str(), "telemetry");

    let first = actor.next_speech(3).job.unwrap();
    assert!(first.text.contains("hp=2,"));
    assert_eq!(first.deadline_ms, 5_001);
    let second = actor.next_speech(3).job.unwrap();
    assert!(second.text.contains("hp=3,"));
    assert!(actor.next_speech(3).job.is_none());
}

#[test]
fn identical_lines_within_the_cooldown_are_spoken_once() {
    let mut actor = StateActor::new(config());
    assert!(actor.on_bridge_event(BridgeEvent::Telemetry(telemetry(1, 20, 20)), 100).dropped.is_none());
    assert!(actor.on_bridge_event(BridgeEvent::Telemetry(telemetry(1, 20, 20)), 1_099).dropped.is_none());
    assert!(actor.next_speech(1_100).job.is_some());
    assert!(actor.next_speech(1_100).job.is_none());
    // once the cooldown has passed, the same line is taken again
    actor.on_bridge_event(BridgeEvent::Telemetry(telemetry(1, 20, 20)), 1_100);
    assert!(actor.next_speech(1_100).job.is_some());
}

#[test]
fn dedupe_ignores_whitespace() {
    let mut actor = StateActor::new(config());
    let a = actor.enqueue_speech("hello  world".to_string(), SpeechPriority::P1ChatReply, SpeechSource::Filler, 10, 0);
    let b = actor.enqueue_speech(" hello\tworld\n".to_string(), SpeechPriority::P0Safety, SpeechSource::Filler, 10, 1);
    assert!(a.is_none() && b.is_none());
    let job = actor.next_speech(2).job.unwrap();
    assert_eq!(job.text, "hello  world");
    assert_eq!(job.dedupe_key, "helloworld");
    assert!(actor.next_speech(2).job.is_none());
}

#[test]
fn rejected_and_failed_actions_become_safety_lines() {
    let mut actor = StateActor::new(config());
    actor.on_stop_sent("a".to_string(), 0);
    actor.on_stop_sent("b".to_string(), 0);
    actor.on_stop_sent("c".to_string(), 0);
    actor.on_bridge_event_with_id(
        BridgeEvent::ActionAck(ActionAck { request_id: "a".to_string(), accepted: false, reason: "busy".to_string() }),
        1,
        "job-a".to_string(),
    );
    actor.on_bridge_event_with_id(
        BridgeEvent::ActionResult(ActionResult {
            request_id: "b".to_string(),
            status: 2,
            detail: String::new(),
            final_state_version: 0,
        }),
        2,
        "job-b".to_string(),
    );
    actor.on_bridge_event_with_id(
        BridgeEvent::ActionResult(ActionResult {
            request_id: "c".to_string(),
            status: 1,
            detail: String::new(),
            final_state_version: 0,
        }),
        3,
        "job-c".to_string(),
    );
    let first = actor.next_speech(4).job.unwrap();
    assert_eq!(first.job_id, "job-a");
    assert_eq!(first.text, "Action was rejected. reason=busy. switching to safe mode.");
    assert_eq!(first.priority, SpeechPriority::P0Safety);
    assert_eq!(first.source, SpeechSource::ActionSafety);
    let second = actor.next_speech(4).job.unwrap();
    assert_eq!(second.job_id, "job-b");
    assert_eq!(second.text, "Action result status=ActionStatusTimeout. prioritizing safe recovery.");
    assert!(actor.next_speech(4).job.is_none());
    // all three left the ledger
    assert!(actor.on_tick(u64::MAX, 0).stop_requests.is_empty());
}

#[test]
fn unknown_and_rejected_statuses_are_named() {
    for (status, name) in [(3, "ActionStatusRejected"), (0, "ActionStatusUnspecified"), (77, "ActionStatusUnspecified")] {
        let mut actor = StateActor::new(config());
        actor.on_bridge_event(
            BridgeEvent::ActionResult(ActionResult {
                request_id: "x".to_string(),
                status,
                detail: String::new(),
                final_state_version: 0,
            }),
            0,
        );
        let job = actor.next_speech(0).job.unwrap();
        assert_eq!(job.text, format!("Action result status={}. prioritizing safe recovery.", name));
    }
}

#[test]
fn heartbeat_changes_nothing_and_closed_ends_the_run() {
    let mut actor = StateActor::new(config());
    let out = actor.on_bridge_event(
        BridgeEvent::Heartbeat(Heartbeat { rx_queue_len: 1, tx_queue_len: 2, dropped_frames: 3 }),
        0,
    );
    assert!(out.keep_running && out.dropped.is_none());
    let out = actor.on_bridge_event(BridgeEvent::Closed, 0);
    assert!(!out.keep_running && out.dropped.is_none());
    assert!(actor.next_speech(0).job.is_none());
}

#[test]
fn filler_breaks_a_long_silence() {
    let mut actor = StateActor::new(config());
    assert!(actor.next_speech(9_999).job.is_none());
    let turn = actor.next_speech_with_id(10_000, "filler-1".to_string());
    let job = turn.job.unwrap();
    assert_eq!(job.job_id, "filler-1");
    assert_eq!(job.text, "Planning the next safe move and checking surroundings.");
    assert_eq!(job.priority, SpeechPriority::P2Commentary);
    assert_eq!(job.source, SpeechSource::Filler);
    assert_eq!(job.deadline_ms, 12_000);
    assert_eq!(turn.silence_gap_ms, 10_000);
    actor.on_spoken(10_500);
    assert!(actor.next_speech(20_499).job.is_none());
    assert!(actor.next_speech(20_500).job.is_some());
}

#[test]
fn tick_sweeps_expired_commentary_but_not_safety_lines() {
    let mut actor = StateActor::new(config());
    actor.enqueue_speech_with_id("j1".to_string(), "one".to_string(), SpeechPriority::P2Commentary, SpeechSource::Telemetry, 10, 0);
    actor.enqueue_speech_with_id("j2".to_string(), "two".to_string(), SpeechPriority::P0Safety, SpeechSource::ActionSafety, 10, 0);
    actor.enqueue_speech_with_id("j3".to_string(), "three".to_string(), SpeechPriority::P1ChatReply, SpeechSource::Telemetry, 20, 0);
    let plan = actor.on_tick(11, 0);
    assert_eq!(plan.dropped.len(), 1);
    assert_eq!(plan.dropped[0].job.job_id, "j1");
    assert_eq!(plan.dropped[0].reason, "deadline_expired");
    assert_eq!(actor.next_speech(11).job.unwrap().job_id, "j2");
    let turn = actor.next_speech(15);
    assert_eq!(turn.job.unwrap().job_id, "j3");
    assert_eq!(turn.queue_wait_ms, 15);
}

#[test]
fn safety_lines_preempt_commentary() {
    let mut actor = StateActor::new(config());
    actor.on_bridge_event(BridgeEvent::Telemetry(telemetry(1, 20, 20)), 0);
    actor.on_bridge_event(
        BridgeEvent::ActionAck(ActionAck { request_id: "r".to_string(), accepted: false, reason: "no".to_string() }),
        1,
    );
    assert_eq!(actor.next_speech(2).job.unwrap().priority, SpeechPriority::P0Safety);
    assert_eq!(actor.next_speech(2).job.unwrap().priority, SpeechPriority::P2Commentary);
}

#[test]
fn several_timeouts_in_one_tick_are_answered_in_order() {
    let mut actor = StateActor::new(config());
    actor.on_stop_sent("a".to_string(), 0);
    actor.on_stop_sent("b".to_string(), 0);
    let plan = actor.on_tick(100, 7);
    assert_eq!(plan.stop_requests.len(), 2);
    assert_ne!(plan.stop_requests[0].request_id, plan.stop_requests[1].request_id);
    assert!(plan.stop_requests.iter().all(|r| r.expires_at_unix_ms == 1_507));
    assert!(actor.next_speech(100).job.unwrap().text.starts_with("Action a "));
    assert!(actor.next_speech(100).job.unwrap().text.starts_with("Action b "));
    assert_eq!(actor.config().agent_id, "orch-1");
}

#[test]
fn actor_keeps_the_configuration_it_was_made_with() {
    let mut actor = StateActor::new(config());
    actor.on_bridge_event(BridgeEvent::Telemetry(telemetry(1, 20, 20)), 5);
    actor.on_tick(10, 20);
    actor.on_stop_sent("r".to_string(), 10);
    actor.next_speech(11);
    actor.on_spoken(12);
    let c = actor.config();
    assert_eq!(c.state_tick_ms, 50);
    assert_eq!(c.metrics_jsonl_path, "out/metrics.jsonl");
    assert_eq!(c.bridge_url, "wss://127.0.0.1:8443/ws");
    assert_eq!(c.tts_mode, "wav_only");
    assert_eq!(c.tls.ca_cert_pem, "ca.pem");
    assert_eq!(c.queue_max_p2, 2);
}
