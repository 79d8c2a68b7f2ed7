use miqbot_relay::bridge::config::RelayConfig;
use miqbot_relay::bridge::relay::{
    ActionRelayFrame, AttachError, EnqueueError, OrchestratorAcquireError, RelayHub, SendFailure,
};
use miqbot_relay::proto::{ActionAck, ActionRequest, ActionResult, TelemetryFrame};

fn cfg(min_relay_interval_ms: u64, max_orchestrators: usize, allow: bool) -> RelayConfig {
    RelayConfig {
        allow_orchestrator_subscribe: allow,
        max_orchestrator_subscribers: max_orchestrators,
        min_relay_interval_ms,
        primary_game_agent_id: "game-1".to_string(),
        action_queue_size: 16,
        action_send_timeout_ms: 250,
    }
}

fn request(id: &str, target: &str) -> ActionRequest {
    ActionRequest {
        request_id: id.to_string(),
        expected_state_version: 0,
        action_type: 1,
        expires_at_unix_ms: 0,
        idempotency_key: "k".to_string(),
        target_agent_id: target.to_string(),
        baritone_goto: None,
    }
}

fn telemetry(version: u64) -> TelemetryFrame {
    TelemetryFrame { state_version: version, dimension: 1, hp: 20, hunger: 20 }
}

fn ack(id: &str, accepted: bool) -> ActionAck {
    ActionAck { request_id: id.to_string(), accepted, reason: String::new() }
}

fn result(id: &str, status: i32, version: u64) -> ActionResult {
    ActionResult { request_id: id.to_string(), status, detail: String::new(), final_state_version: version }
}

#[test]
fn happy_action_path_leaves_nothing_pending() {
    let mut hub = RelayHub::new(cfg(0, 4, true));
    hub.attach_primary_game_sender(7, "game-1").unwrap();
    let dispatch = hub.enqueue_action(request("r1", ""), 42).unwrap();
    assert_eq!(dispatch.sender, 7);
    assert_eq!(dispatch.request.request_id, "r1");
    assert_eq!(dispatch.timeout_ms, 250);
    assert!(hub.is_pending("r1"));

    let d = hub.route_action_ack(&ack("r1", true)).unwrap();
    assert_eq!(d.reply_to, 42);
    assert!(matches!(&d.frame, ActionRelayFrame::Ack(a) if a.request_id == "r1" && a.accepted));
    assert!(hub.is_pending("r1"));

    let d = hub.route_action_result(&result("r1", 1, 42)).unwrap();
    assert_eq!(d.reply_to, 42);
    assert!(matches!(&d.frame, ActionRelayFrame::Result(r) if r.status == 1 && r.final_state_version == 42));
    assert!(!hub.is_pending("r1"));
    assert_eq!(hub.pending_len(), 0);
}

#[test]
fn primary_disconnect_fails_every_pending_action() {
    let mut hub = RelayHub::new(cfg(0, 4, true));
    hub.attach_primary_game_sender(7, "game-1").unwrap();
    hub.enqueue_action(request("r3", "game-1"), 5).unwrap();
    hub.enqueue_action(request("r4", ""), 6).unwrap();

    let out = hub.detach_primary_game_sender();
    assert_eq!(out.len(), 4);
    assert_eq!(out[0].reply_to, 5);
    assert!(matches!(&out[0].frame, ActionRelayFrame::Ack(a)
        if a.request_id == "r3" && !a.accepted && a.reason == "primary game client disconnected"));
    assert_eq!(out[1].reply_to, 5);
    assert!(matches!(&out[1].frame, ActionRelayFrame::Result(r)
        if r.request_id == "r3" && r.status == 2 && r.detail == "primary game client disconnected"
            && r.final_state_version == 0));
    assert_eq!(out[2].reply_to, 6);
    assert!(matches!(&out[2].frame, ActionRelayFrame::Ack(a) if a.request_id == "r4" && !a.accepted));
    assert!(matches!(&out[3].frame, ActionRelayFrame::Result(r) if r.request_id == "r4" && r.status == 2));
    assert_eq!(hub.pending_len(), 0);
    assert_eq!(hub.primary_game_sender(), None);
    assert!(hub.route_action_result(&result("r3", 1, 0)).is_none());
}

#[test]
fn telemetry_rate_limit_lets_two_of_four_through() {
    let mut hub = RelayHub::new(cfg(100, 4, true));
    let mut sub = hub.subscribe_telemetry();
    let mut seen = Vec::new();
    let mut published = Vec::new();
    for (t, v) in [(0u64, 1u64), (50, 2), (60, 3), (200, 4)] {
        published.push(hub.publish_telemetry(t, &telemetry(v)));
        if let Some(f) = hub.poll_telemetry(&mut sub) {
            seen.push((t, f.state_version));
        }
    }
    assert_eq!(published, vec![true, false, false, true]);
    assert_eq!(seen, vec![(0, 1), (200, 4)]);
    assert_eq!(hub.telemetry_updates(), 2);
    assert_eq!(hub.latest_telemetry().unwrap().state_version, 4);
}

#[test]
fn telemetry_rate_limit_late_in_the_clock() {
    let mut hub = RelayHub::new(cfg(100, 4, true));
    let mut sub = hub.subscribe_telemetry();
    let mut seen = Vec::new();
    for (t, v) in [(1000u64, 1u64), (1050, 2), (1060, 3), (1200, 4)] {
        hub.publish_telemetry(t, &telemetry(v));
        if let Some(f) = hub.poll_telemetry(&mut sub) {
            seen.push(f.state_version);
        }
    }
    assert_eq!(seen, vec![1, 4]);
}

#[test]
fn publish_twice_within_interval_updates_once() {
    let mut hub = RelayHub::new(cfg(100, 4, true));
    assert!(hub.publish_telemetry(500, &telemetry(1)));
    assert!(!hub.publish_telemetry(599, &telemetry(2)));
    assert_eq!(hub.latest_telemetry().unwrap().state_version, 1);
    assert!(hub.publish_telemetry(600, &telemetry(3)));
    assert_eq!(hub.latest_telemetry().unwrap().state_version, 3);
}

#[test]
fn first_publish_on_a_fresh_hub_always_passes() {
    for first in [0u64, 1, 50, 99, 100, u64::MAX] {
        let mut hub = RelayHub::new(cfg(100, 4, true));
        assert!(hub.publish_telemetry(first, &telemetry(1)), "first publish at {}", first);
        assert_eq!(hub.latest_telemetry().unwrap().state_version, 1);
        assert_eq!(hub.telemetry_updates(), 1);
    }
}

#[test]
fn two_publishes_inside_the_first_interval_update_once() {
    let mut hub = RelayHub::new(cfg(100, 4, true));
    let mut sub = hub.subscribe_telemetry();
    assert!(hub.publish_telemetry(10, &telemetry(1)));
    assert!(!hub.publish_telemetry(20, &telemetry(2)));
    assert_eq!(hub.telemetry_updates(), 1);
    assert_eq!(hub.poll_telemetry(&mut sub).unwrap().state_version, 1);
    assert!(hub.poll_telemetry(&mut sub).is_none());
    assert!(!hub.publish_telemetry(109, &telemetry(3)));
    assert!(hub.publish_telemetry(110, &telemetry(4)));
}

#[test]
fn a_clock_that_steps_back_counts_as_no_time_passed() {
    let mut hub = RelayHub::new(cfg(100, 4, true));
    assert!(hub.publish_telemetry(500, &telemetry(1)));
    assert!(!hub.publish_telemetry(400, &telemetry(2)));
    assert_eq!(hub.latest_telemetry().unwrap().state_version, 1);
}

#[test]
fn zero_interval_never_limits() {
    let mut hub = RelayHub::new(cfg(0, 4, true));
    assert!(hub.publish_telemetry(0, &telemetry(1)));
    assert!(hub.publish_telemetry(0, &telemetry(2)));
    assert_eq!(hub.latest_telemetry().unwrap().state_version, 2);
}

#[test]
fn subscriber_sees_latched_frame_and_only_later_updates() {
    let mut hub = RelayHub::new(cfg(0, 4, true));
    hub.publish_telemetry(1, &telemetry(1));
    let mut sub = hub.subscribe_telemetry();
    assert_eq!(hub.latest_telemetry().unwrap().state_version, 1);
    assert!(hub.poll_telemetry(&mut sub).is_none());
    hub.publish_telemetry(2, &telemetry(2));
    hub.publish_telemetry(3, &telemetry(3));
    assert_eq!(hub.poll_telemetry(&mut sub).unwrap().state_version, 3);
    assert!(hub.poll_telemetry(&mut sub).is_none());
}

#[test]
fn third_orchestrator_hits_the_limit() {
    let mut hub = RelayHub::new(cfg(0, 2, true));
    let a = hub.acquire_orchestrator_slot().unwrap();
    let _b = hub.acquire_orchestrator_slot().unwrap();
    assert_eq!(hub.acquire_orchestrator_slot().unwrap_err(), OrchestratorAcquireError::LimitReached);
    assert_eq!(hub.orchestrator_count(), 2);
    hub.release_orchestrator_slot(a);
    assert_eq!(hub.orchestrator_count(), 1);
    assert!(hub.acquire_orchestrator_slot().is_ok());
}

#[test]
fn acquire_then_release_restores_the_count() {
    let mut hub = RelayHub::new(cfg(0, 3, true));
    let _held = hub.acquire_orchestrator_slot().unwrap();
    let before = hub.orchestrator_count();
    let slot = hub.acquire_orchestrator_slot().unwrap();
    hub.release_orchestrator_slot(slot);
    assert_eq!(hub.orchestrator_count(), before);
}

#[test]
fn subscriptions_can_be_switched_off() {
    let mut hub = RelayHub::new(cfg(0, 2, false));
    assert_eq!(hub.acquire_orchestrator_slot().unwrap_err(), OrchestratorAcquireError::NotAllowed);
    assert_eq!(hub.orchestrator_count(), 0);
}

#[test]
fn only_one_primary_and_only_the_primary_agent() {
    let mut hub = RelayHub::new(cfg(0, 2, true));
    let e = hub.attach_primary_game_sender(1, "someone-else").unwrap_err();
    assert_eq!(e, AttachError::NotPrimaryAgent);
    assert_eq!(e.message(), "non-primary game agent cannot attach action sender");
    hub.attach_primary_game_sender(1, "game-1").unwrap();
    let e = hub.attach_primary_game_sender(2, "game-1").unwrap_err();
    assert_eq!(e, AttachError::AlreadyAttached);
    assert_eq!(e.message(), "primary game sender already attached");
    assert_eq!(hub.primary_game_sender(), Some(1));
    hub.detach_primary_game_sender();
    assert!(hub.attach_primary_game_sender(2, "game-1").is_ok());
}

#[test]
fn enqueue_refusals_and_their_messages() {
    let mut hub = RelayHub::new(cfg(0, 2, true));
    let e = hub.enqueue_action(request("  ", ""), 1).unwrap_err();
    assert!(matches!(e, EnqueueError::EmptyRequestId));
    assert_eq!(e.message(), "request_id must not be empty");

    let e = hub.enqueue_action(request("r", "other"), 1).unwrap_err();
    assert!(matches!(e, EnqueueError::TargetMismatch { .. }));
    assert_eq!(e.message(), "target_agent_id=other does not match primary_game_agent_id=game-1");

    let e = hub.enqueue_action(request("r", " "), 1).unwrap_err();
    assert!(matches!(e, EnqueueError::PrimaryNotConnected));
    assert_eq!(e.message(), "primary game client is not connected");
    assert_eq!(hub.pending_len(), 0);
}

#[test]
fn failed_send_takes_the_registration_back() {
    let mut hub = RelayHub::new(cfg(0, 2, true));
    hub.attach_primary_game_sender(1, "game-1").unwrap();
    hub.enqueue_action(request("a", ""), 1).unwrap();
    hub.enqueue_action(request("b", ""), 1).unwrap();
    let e = hub.enqueue_failed("a", SendFailure::TimedOut);
    assert_eq!(e.message(), "action enqueue timeout after 250ms");
    let e = hub.enqueue_failed("b", SendFailure::Closed);
    assert_eq!(e.message(), "primary game action queue closed");
    assert_eq!(hub.pending_len(), 0);
}

#[test]
fn rejected_ack_is_terminal() {
    let mut hub = RelayHub::new(cfg(0, 2, true));
    hub.attach_primary_game_sender(1, "game-1").unwrap();
    hub.enqueue_action(request("a", ""), 9).unwrap();
    let d = hub.route_action_ack(&ack("a", false)).unwrap();
    assert_eq!(d.reply_to, 9);
    assert!(!hub.is_pending("a"));
    assert!(hub.route_action_ack(&ack("a", false)).is_none());
    assert!(hub.route_action_result(&result("a", 1, 0)).is_none());
}

#[test]
fn replies_nobody_waits_for_are_dropped() {
    let mut hub = RelayHub::new(cfg(0, 2, true));
    assert!(hub.route_action_ack(&ack("ghost", true)).is_none());
    assert!(hub.route_action_result(&result("ghost", 1, 0)).is_none());
}

#[test]
fn closed_reply_channel_forgets_the_entry() {
    let mut hub = RelayHub::new(cfg(0, 2, true));
    hub.attach_primary_game_sender(1, "game-1").unwrap();
    hub.enqueue_action(request("a", ""), 9).unwrap();
    assert!(hub.route_action_ack(&ack("a", true)).is_some());
    hub.reply_channel_closed("a");
    assert!(!hub.is_pending("a"));
}

#[test]
fn registering_an_id_again_redirects_its_replies() {
    let mut hub = RelayHub::new(cfg(0, 2, true));
    hub.attach_primary_game_sender(1, "game-1").unwrap();
    hub.enqueue_action(request("a", ""), 9).unwrap();
    hub.enqueue_action(request("a", ""), 10).unwrap();
    assert_eq!(hub.pending_len(), 1);
    assert_eq!(hub.route_action_result(&result("a", 1, 0)).unwrap().reply_to, 10);
}

#[test]
fn hub_reports_its_configuration() {
    let hub = RelayHub::new(cfg(0, 2, true));
    assert_eq!(hub.action_queue_size(), 16);
    assert_eq!(hub.primary_game_agent_id(), "game-1");
    assert!(hub.is_primary_game_agent("game-1"));
    assert!(!hub.is_primary_game_agent("game-2"));
}
