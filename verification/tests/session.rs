use miqbot_relay::bridge::config::RelayConfig;
use miqbot_relay::bridge::relay::{ActionRelayFrame, RelayHub, SendFailure};
use miqbot_relay::bridge::session::{
    forward_failed, handle_message, handle_message_with, handshake, handshake_with, negotiated_capabilities,
    relay_reply, Handshake, HandshakeFailure, HelloArrival, SessionAction, SessionRole, SessionState,
};
use miqbot_relay::proto::{
    ActionAck, ActionRequest, ActionResult, Envelope, Heartbeat, Hello, Payload, TelemetryFrame, TimeSyncRequest,
};
use miqbot_relay::wire::frame::{decode_frame, encode_frame, InboundMessage};

fn hub(max_orchestrators: usize) -> RelayHub {
    RelayHub::new(RelayConfig {
        allow_orchestrator_subscribe: true,
        max_orchestrator_subscribers: max_orchestrators,
        min_relay_interval_ms: 0,
        primary_game_agent_id: "game-1".to_string(),
        action_queue_size: 8,
        action_send_timeout_ms: 100,
    })
}

fn frame(seq: u64, version: u32, payload: Option<Payload>) -> Vec<u8> {
    encode_frame(&Envelope {
        protocol_version: version,
        session_id: "peer".to_string(),
        seq,
        ack: 0,
        mono_ms: 0,
        wall_unix_ms: 0,
        payload,
    })
}

fn hello(agent: &str, role: i32, caps: Vec<i32>, handshake_id: &str) -> Vec<u8> {
    frame(
        5,
        1,
        Some(Payload::Hello(Hello {
            agent_id: agent.to_string(),
            role,
            capabilities: caps,
            client_version: "test/1".to_string(),
            handshake_id: handshake_id.to_string(),
        })),
    )
}

const GAME: i32 = 1;
const ORCH: i32 = 2;
const CAP_TELEMETRY: i32 = 1;
const CAP_TIMESYNC: i32 = 2;
const CAP_ACTIONS: i32 = 3;
const CAP_HELLO_ACK: i32 = 4;

fn open(hub: &mut RelayHub, agent: &str, role: i32, sender: u64) -> SessionState {
    let mut st = SessionState::with_session_id(format!("sess-{}", sender), 1000);
    let h = greet(hub, agent, role, sender, &mut st);
    assert!(matches!(h, Handshake::Accepted { .. }));
    st
}

fn greet(hub: &mut RelayHub, agent: &str, role: i32, sender: u64, st: &mut SessionState) -> Handshake {
    handshake_with(st, hub, HelloArrival::Frame(hello(agent, role, vec![CAP_HELLO_ACK], "")), 1024, sender, "u")
}

#[test]
fn new_session_has_a_fresh_uuid_and_zeroed_counters() {
    let a = SessionState::new(250);
    let b = SessionState::new(250);
    assert_eq!(a.session_id.len(), 36);
    for (i, c) in a.session_id.chars().enumerate() {
        if [8, 13, 18, 23].contains(&i) {
            assert_eq!(c, '-');
        } else {
            assert!(c.is_ascii_hexdigit() && !c.is_ascii_uppercase());
        }
    }
    assert_ne!(a.session_id, b.session_id);
    assert_eq!((a.server_seq, a.last_peer_seq, a.send_timeout_ms), (0, 0, 250));
    assert!(a.agent_id.is_none() && a.peer_caps.is_empty() && !a.is_primary_game);
}

#[test]
fn sequence_numbers_start_at_one_and_step_by_one() {
    let mut st = SessionState::with_session_id("s".to_string(), 10);
    st.last_peer_seq = 77;
    for expected in 1..=5u64 {
        let env = st.next_envelope(Payload::Heartbeat(Heartbeat { rx_queue_len: 0, tx_queue_len: 0, dropped_frames: 0 }), 9, 8);
        assert_eq!(env.seq, expected);
        assert_eq!(env.ack, 77);
        assert_eq!(env.protocol_version, 1);
        assert_eq!(env.session_id, "s");
        assert_eq!((env.mono_ms, env.wall_unix_ms), (9, 8));
    }
    let bytes = st.next_frame(Payload::TimeSyncReq(TimeSyncRequest { t0_mono_ms: 1 }), 0, 0).unwrap();
    assert_eq!(decode_frame(&bytes, 1024).unwrap().seq, 6);
    st.server_seq = u64::MAX;
    assert!(st.next_frame(Payload::TimeSyncReq(TimeSyncRequest { t0_mono_ms: 1 }), 0, 0).is_none());
    assert_eq!(st.server_seq, u64::MAX);
}

#[test]
fn negotiation_keeps_the_servers_order() {
    assert_eq!(negotiated_capabilities(&[4, 99, 1]), vec![1, 4]);
    assert_eq!(negotiated_capabilities(&[]), Vec::<i32>::new());
    assert_eq!(negotiated_capabilities(&[3, 3, 2, 1, 4]), vec![1, 2, 3, 4]);
}

#[test]
fn orchestrator_with_hello_ack_is_accepted() {
    let mut hub = hub(2);
    let mut st = SessionState::with_session_id("server-session".to_string(), 1000);
    let arrival = HelloArrival::Frame(hello("orch", ORCH, vec![CAP_TELEMETRY, CAP_HELLO_ACK, 77], "client-chosen"));
    match handshake_with(&mut st, &mut hub, arrival, 1024, 1, "u") {
        Handshake::Accepted { role, slot, reply: Payload::HelloAck(ack) } => {
            assert_eq!(role, SessionRole::Orchestrator);
            assert!(slot.is_some());
            assert!(ack.accepted);
            assert_eq!(ack.reason, "ok");
            assert_eq!(ack.handshake_id, "server-session");
            assert_eq!(ack.negotiated_capabilities, vec![CAP_TELEMETRY, CAP_HELLO_ACK]);
            assert_eq!(ack.server_version, "miqbot-bridge-server/0.3.0");
        }
        other => panic!("unexpected outcome {:?}", other),
    }
    assert_eq!(hub.orchestrator_count(), 1);
    assert_eq!(st.agent_id.as_deref(), Some("orch"));
    assert_eq!(st.last_peer_seq, 5);
    assert!(!st.is_primary_game);
}

#[test]
fn client_supplied_handshake_id_never_comes_back() {
    for role in [GAME, ORCH, 0, 3] {
        for caps in [vec![], vec![CAP_HELLO_ACK]] {
            let mut hub = hub(1);
            let mut st = SessionState::with_session_id("server-session".to_string(), 1000);
            let arrival = HelloArrival::Frame(hello("game-1", role, caps, "client-chosen"));
            let h = handshake_with(&mut st, &mut hub, arrival, 1024, 1, "unique");
            let text = format!("{:?}", h);
            assert!(!text.contains("client-chosen"), "{}", text);
            let reply = match h {
                Handshake::Accepted { reply, .. } => Some(reply),
                Handshake::Refused { reply, .. } => reply,
            };
            let bytes = st.next_frame(reply.unwrap(), 0, 0).unwrap();
            assert!(!bytes.windows(13).any(|w| w == b"client-chosen"));
        }
    }
}

#[test]
fn legacy_peer_gets_a_hello_back() {
    let mut hub = hub(2);
    let mut st = SessionState::with_session_id("sid".to_string(), 1000);
    let arrival = HelloArrival::Frame(hello("watcher", GAME, vec![CAP_TELEMETRY], ""));
    match handshake_with(&mut st, &mut hub, arrival, 1024, 1, "u") {
        Handshake::Accepted { role, slot, reply: Payload::Hello(h) } => {
            assert_eq!(role, SessionRole::ObserverGame);
            assert!(slot.is_none());
            assert_eq!(h.agent_id, "bridge");
            assert_eq!(h.role, 3);
            assert_eq!(h.capabilities, vec![CAP_TELEMETRY, CAP_TIMESYNC, CAP_ACTIONS]);
            assert_eq!(h.client_version, "miqbot-bridge-server/0.3.0");
            assert_eq!(h.handshake_id, "sid");
        }
        other => panic!("unexpected outcome {:?}", other),
    }
    assert_eq!(hub.primary_game_sender(), None);
}

#[test]
fn hello_timeout_is_answered_with_a_timeout_error() {
    let mut hub = hub(2);
    let mut st = SessionState::with_session_id("sid".to_string(), 1000);
    match handshake_with(&mut st, &mut hub, HelloArrival::TimedOut, 1024, 1, "abc") {
        Handshake::Refused { failure, reply: Some(Payload::Error(e)) } => {
            assert_eq!(failure, HandshakeFailure::HelloTimeout);
            assert_eq!(failure.message(), "hello timeout");
            assert_eq!(e.code, 4);
            assert_eq!(e.message, "hello timeout");
            assert_eq!(e.correlation_id, "hello-timeout-abc");
        }
        other => panic!("unexpected outcome {:?}", other),
    }
    match handshake(&mut st, &mut hub, HelloArrival::TimedOut, 1024, 1) {
        Handshake::Refused { reply: Some(Payload::Error(e)), .. } => {
            assert!(e.correlation_id.starts_with("hello-timeout-"));
            assert_eq!(e.correlation_id.len(), "hello-timeout-".len() + 36);
        }
        other => panic!("unexpected outcome {:?}", other),
    }
}

#[test]
fn connection_closed_before_hello_gets_no_reply() {
    let mut hub = hub(2);
    let mut st = SessionState::with_session_id("sid".to_string(), 1000);
    let h = handshake_with(&mut st, &mut hub, HelloArrival::Closed, 1024, 1, "u");
    assert!(matches!(h, Handshake::Refused { failure: HandshakeFailure::ClosedBeforeHello, reply: None }));
}

#[test]
fn handshake_errors_before_the_hello_is_understood() {
    let cases: Vec<(Vec<u8>, HandshakeFailure, i32, &str, &str)> = vec![
        (vec![0xff, 0xff], HandshakeFailure::DecodeFailed, 1, "invalid hello envelope", "hello-decode-u"),
        (
            hello("a", ORCH, vec![], "").into_iter().chain(std::iter::repeat(0).take(2000)).collect(),
            HandshakeFailure::DecodeFailed,
            1,
            "invalid hello envelope",
            "hello-decode-u",
        ),
        (frame(1, 2, None), HandshakeFailure::VersionMismatch, 2, "protocol_version mismatch", "hello-proto-u"),
        (frame(1, 1, None), HandshakeFailure::ExpectedHello, 2, "expected hello", "hello-shape-u"),
        (
            frame(1, 1, Some(Payload::TimeSyncReq(TimeSyncRequest { t0_mono_ms: 1 }))),
            HandshakeFailure::ExpectedHello,
            2,
            "expected hello",
            "hello-shape-u",
        ),
    ];
    for (bytes, expected, code, message, correlation) in cases {
        let mut hub = hub(2);
        let mut st = SessionState::with_session_id("sid".to_string(), 1000);
        match handshake_with(&mut st, &mut hub, HelloArrival::Frame(bytes), 1024, 1, "u") {
            Handshake::Refused { failure, reply: Some(Payload::Error(e)) } => {
                assert_eq!(failure, expected);
                assert_eq!(e.code, code);
                assert_eq!(e.message, message);
                assert_eq!(e.correlation_id, correlation);
            }
            other => panic!("unexpected outcome {:?}", other),
        }
        assert_eq!(hub.orchestrator_count(), 0);
    }
}

#[test]
fn second_primary_is_refused() {
    let mut hub = hub(2);
    let first = open(&mut hub, "game-1", GAME, 1);
    assert!(first.is_primary_game);
    assert_eq!(hub.primary_game_sender(), Some(1));

    let mut st = SessionState::with_session_id("second".to_string(), 1000);
    match greet(&mut hub, "game-1", GAME, 2, &mut st) {
        Handshake::Refused { failure, reply: Some(Payload::HelloAck(ack)) } => {
            assert_eq!(failure, HandshakeFailure::PrimaryUnavailable);
            assert!(!ack.accepted);
            assert_eq!(ack.reason, "primary game sender is unavailable");
            assert_eq!(ack.handshake_id, "second");
            assert!(ack.negotiated_capabilities.is_empty());
        }
        other => panic!("unexpected outcome {:?}", other),
    }
    assert!(!st.is_primary_game);
    assert_eq!(hub.primary_game_sender(), Some(1));
}

#[test]
fn third_orchestrator_is_refused_at_a_cap_of_two() {
    let mut hub = hub(2);
    open(&mut hub, "o1", ORCH, 1);
    open(&mut hub, "o2", ORCH, 2);
    let mut st = SessionState::with_session_id("third".to_string(), 1000);
    match greet(&mut hub, "o3", ORCH, 3, &mut st) {
        Handshake::Refused { failure, reply: Some(Payload::HelloAck(ack)) } => {
            assert_eq!(failure, HandshakeFailure::OrchestratorLimitReached);
            assert!(!ack.accepted);
            assert_eq!(ack.reason, "orchestrator subscription limit reached");
        }
        other => panic!("unexpected outcome {:?}", other),
    }
    assert_eq!(hub.orchestrator_count(), 2);
}

#[test]
fn refusals_for_legacy_peers_are_error_frames() {
    let mut hub = RelayHub::new(RelayConfig {
        allow_orchestrator_subscribe: false,
        max_orchestrator_subscribers: 2,
        min_relay_interval_ms: 0,
        primary_game_agent_id: "game-1".to_string(),
        action_queue_size: 8,
        action_send_timeout_ms: 100,
    });
    let mut st = SessionState::with_session_id("sid".to_string(), 1000);
    let arrival = HelloArrival::Frame(hello("o", ORCH, vec![], ""));
    match handshake_with(&mut st, &mut hub, arrival, 1024, 1, "u") {
        Handshake::Refused { failure, reply: Some(Payload::Error(e)) } => {
            assert_eq!(failure, HandshakeFailure::OrchestratorsDisabled);
            assert_eq!(e.code, 3);
            assert_eq!(e.message, "orchestrator subscriptions are disabled");
            assert_eq!(e.correlation_id, "hello-reject-u");
        }
        other => panic!("unexpected outcome {:?}", other),
    }
    let arrival = HelloArrival::Frame(hello("x", 3, vec![CAP_HELLO_ACK], ""));
    match handshake_with(&mut st, &mut hub, arrival, 1024, 1, "u") {
        Handshake::Refused { failure, reply: Some(Payload::HelloAck(ack)) } => {
            assert_eq!(failure, HandshakeFailure::UnsupportedRole);
            assert_eq!(ack.reason, "unsupported peer role");
        }
        other => panic!("unexpected outcome {:?}", other),
    }
    let arrival = HelloArrival::Frame(hello("x", 12345, vec![CAP_HELLO_ACK], ""));
    let h = handshake_with(&mut st, &mut hub, arrival, 1024, 1, "u");
    assert!(matches!(h, Handshake::Refused { failure: HandshakeFailure::UnsupportedRole, .. }));
}

#[test]
fn close_ends_the_session_and_other_kinds_are_ignored() {
    let mut hub = hub(2);
    let mut st = open(&mut hub, "game-1", GAME, 1);
    let before = (st.server_seq, st.last_peer_seq);
    let r = handle_message_with(&mut st, &mut hub, InboundMessage::Close, None, 1024, 0, "u");
    assert!(!r.keep_open && r.action.is_none());
    for msg in [InboundMessage::Ping, InboundMessage::Pong, InboundMessage::Text] {
        let r = handle_message_with(&mut st, &mut hub, msg, None, 1024, 0, "u");
        assert!(r.keep_open && r.action.is_none());
    }
    assert_eq!((st.server_seq, st.last_peer_seq), before);
}

#[test]
fn undecodable_and_wrong_version_frames_are_answered_and_survived() {
    let mut hub = hub(2);
    let mut st = open(&mut hub, "game-1", GAME, 1);
    let r = handle_message_with(&mut st, &mut hub, InboundMessage::Binary(vec![0xff]), None, 1024, 0, "u");
    assert!(r.keep_open);
    match r.action {
        Some(SessionAction::Reply(Payload::Error(e))) => {
            assert_eq!(e.code, 1);
            assert_eq!(e.message, "decode failed");
            assert_eq!(e.correlation_id, "msg-decode-u");
        }
        other => panic!("unexpected action {:?}", other),
    }
    let r = handle_message(&mut st, &mut hub, InboundMessage::Binary(frame(9, 7, None)), None, 1024, 0);
    assert!(r.keep_open);
    match r.action {
        Some(SessionAction::Reply(Payload::Error(e))) => {
            assert_eq!(e.code, 2);
            assert_eq!(e.message, "protocol_version mismatch");
            assert!(e.correlation_id.starts_with("msg-proto-"));
            assert_eq!(e.correlation_id.len(), "msg-proto-".len() + 36);
        }
        other => panic!("unexpected action {:?}", other),
    }
    assert_eq!(st.last_peer_seq, 5);
}

#[test]
fn oversized_frame_on_an_open_session_is_a_decode_failure() {
    let mut hub = hub(2);
    let mut st = open(&mut hub, "game-1", GAME, 1);
    let big = frame(9, 1, Some(Payload::Hello(Hello {
        agent_id: "a".repeat(2000),
        role: 0,
        capabilities: vec![],
        client_version: String::new(),
        handshake_id: String::new(),
    })));
    let r = handle_message_with(&mut st, &mut hub, InboundMessage::Binary(big), None, 1024, 0, "u");
    assert!(matches!(r.action, Some(SessionAction::Reply(Payload::Error(e))) if e.code == 1));
}

#[test]
fn only_the_primary_publishes_telemetry() {
    let mut hub = hub(2);
    let mut primary = open(&mut hub, "game-1", GAME, 1);
    let mut observer = open(&mut hub, "game-2", GAME, 2);
    let t = |v| InboundMessage::Binary(frame(v, 1, Some(Payload::Telemetry(TelemetryFrame {
        state_version: v,
        dimension: 1,
        hp: 20,
        hunger: 20,
    }))));
    let r = handle_message_with(&mut observer, &mut hub, t(10), None, 1024, 5, "u");
    assert!(r.keep_open && r.action.is_none());
    assert!(hub.latest_telemetry().is_none());
    assert_eq!(observer.last_peer_seq, 10);
    let r = handle_message_with(&mut primary, &mut hub, t(11), None, 1024, 5, "u");
    assert!(r.keep_open && r.action.is_none());
    assert_eq!(hub.latest_telemetry().unwrap().state_version, 11);
    assert_eq!(primary.last_peer_seq, 11);
}

#[test]
fn time_sync_is_answered_with_the_servers_clock_twice() {
    let mut hub = hub(2);
    let mut st = open(&mut hub, "o", ORCH, 1);
    let msg = InboundMessage::Binary(frame(6, 1, Some(Payload::TimeSyncReq(TimeSyncRequest { t0_mono_ms: 111 }))));
    let r = handle_message_with(&mut st, &mut hub, msg, Some(1), 1024, 4242, "u");
    match r.action {
        Some(SessionAction::Reply(Payload::TimeSyncRes(res))) => {
            assert_eq!((res.t0_mono_ms, res.t1_mono_ms, res.t2_mono_ms), (111, 4242, 4242));
        }
        other => panic!("unexpected action {:?}", other),
    }
}

fn action_req(id: &str, target: &str) -> InboundMessage {
    InboundMessage::Binary(frame(8, 1, Some(Payload::ActionReq(ActionRequest {
        request_id: id.to_string(),
        expected_state_version: 0,
        action_type: 1,
        expires_at_unix_ms: 0,
        idempotency_key: String::new(),
        target_agent_id: target.to_string(),
        baritone_goto: None,
    }))))
}

#[test]
fn action_travels_from_orchestrator_to_primary_and_back() {
    let mut hub = hub(2);
    let mut primary = open(&mut hub, "game-1", GAME, 100);
    let mut orch = open(&mut hub, "o", ORCH, 200);

    let r = handle_message_with(&mut orch, &mut hub, action_req("r1", ""), Some(200), 1024, 0, "u");
    let request = match r.action {
        Some(SessionAction::Forward(d)) => {
            assert_eq!(d.sender, 100);
            assert_eq!(d.timeout_ms, 100);
            d.request
        }
        other => panic!("unexpected action {:?}", other),
    };
    assert_eq!(request.request_id, "r1");
    assert!(hub.is_pending("r1"));

    let ack = InboundMessage::Binary(frame(20, 1, Some(Payload::ActionAck(ActionAck {
        request_id: "r1".to_string(),
        accepted: true,
        reason: String::new(),
    }))));
    let r = handle_message_with(&mut primary, &mut hub, ack, None, 1024, 0, "u");
    let delivery = match r.action {
        Some(SessionAction::Deliver(d)) => d,
        other => panic!("unexpected action {:?}", other),
    };
    assert_eq!(delivery.reply_to, 200);
    assert!(matches!(relay_reply(delivery.frame), Payload::ActionAck(a) if a.accepted && a.request_id == "r1"));

    let res = InboundMessage::Binary(frame(21, 1, Some(Payload::ActionRes(ActionResult {
        request_id: "r1".to_string(),
        status: 1,
        detail: String::new(),
        final_state_version: 42,
    }))));
    let r = handle_message_with(&mut primary, &mut hub, res, None, 1024, 0, "u");
    match r.action {
        Some(SessionAction::Deliver(d)) => {
            assert_eq!(d.reply_to, 200);
            assert!(matches!(&d.frame, ActionRelayFrame::Result(r) if r.final_state_version == 42));
            assert!(matches!(relay_reply(d.frame), Payload::ActionRes(r) if r.status == 1));
        }
        other => panic!("unexpected action {:?}", other),
    }
    assert_eq!(hub.pending_len(), 0);
}

#[test]
fn hub_refusals_come_back_as_rejections() {
    let mut hub = hub(2);
    let mut orch = open(&mut hub, "o", ORCH, 200);
    let r = handle_message_with(&mut orch, &mut hub, action_req("r1", ""), Some(200), 1024, 0, "u");
    match r.action {
        Some(SessionAction::Reply(Payload::ActionAck(a))) => {
            assert_eq!(a.request_id, "r1");
            assert!(!a.accepted);
            assert_eq!(a.reason, "primary game client is not connected");
        }
        other => panic!("unexpected action {:?}", other),
    }
    open(&mut hub, "game-1", GAME, 100);
    let r = handle_message_with(&mut orch, &mut hub, action_req("r2", "game-9"), Some(200), 1024, 0, "u");
    assert!(matches!(r.action, Some(SessionAction::Reply(Payload::ActionAck(a)))
        if a.reason == "target_agent_id=game-9 does not match primary_game_agent_id=game-1"));
    let r = handle_message_with(&mut orch, &mut hub, action_req("", ""), Some(200), 1024, 0, "u");
    assert!(matches!(r.action, Some(SessionAction::Reply(Payload::ActionAck(a)))
        if a.reason == "request_id must not be empty" && a.request_id.is_empty()));
    assert!(r.keep_open);
    assert_eq!(hub.pending_len(), 0);
}

#[test]
fn action_requests_from_the_wrong_side_are_discarded() {
    let mut hub = hub(2);
    let mut primary = open(&mut hub, "game-1", GAME, 100);
    let mut orch = open(&mut hub, "o", ORCH, 200);
    let r = handle_message_with(&mut primary, &mut hub, action_req("r1", ""), Some(100), 1024, 0, "u");
    assert!(r.keep_open && r.action.is_none());
    let r = handle_message_with(&mut orch, &mut hub, action_req("r1", ""), None, 1024, 0, "u");
    assert!(r.keep_open && r.action.is_none());
    assert_eq!(hub.pending_len(), 0);
}

#[test]
fn replies_from_anyone_but_the_primary_are_discarded() {
    let mut hub = hub(2);
    open(&mut hub, "game-1", GAME, 100);
    let mut observer = open(&mut hub, "game-2", GAME, 101);
    let mut orch = open(&mut hub, "o", ORCH, 200);
    handle_message_with(&mut orch, &mut hub, action_req("r1", ""), Some(200), 1024, 0, "u");
    let res = || InboundMessage::Binary(frame(21, 1, Some(Payload::ActionRes(ActionResult {
        request_id: "r1".to_string(),
        status: 1,
        detail: String::new(),
        final_state_version: 0,
    }))));
    let r = handle_message_with(&mut observer, &mut hub, res(), None, 1024, 0, "u");
    assert!(r.action.is_none());
    let r = handle_message_with(&mut orch, &mut hub, res(), Some(200), 1024, 0, "u");
    assert!(r.action.is_none());
    assert!(hub.is_pending("r1"));
}

#[test]
fn late_hello_and_empty_envelopes_are_ignored() {
    let mut hub = hub(2);
    let mut st = open(&mut hub, "o", ORCH, 1);
    let r = handle_message_with(&mut st, &mut hub, InboundMessage::Binary(hello("o", ORCH, vec![], "")), Some(1), 1024, 0, "u");
    assert!(r.keep_open && r.action.is_none());
    let r = handle_message_with(&mut st, &mut hub, InboundMessage::Binary(frame(30, 1, None)), Some(1), 1024, 0, "u");
    assert!(r.keep_open && r.action.is_none());
    assert_eq!(st.last_peer_seq, 30);
    assert_eq!(hub.orchestrator_count(), 1);
}

#[test]
fn failed_forward_is_reported_to_the_orchestrator() {
    let mut hub = hub(2);
    open(&mut hub, "game-1", GAME, 100);
    let mut orch = open(&mut hub, "o", ORCH, 200);
    handle_message_with(&mut orch, &mut hub, action_req("r1", ""), Some(200), 1024, 0, "u");
    match forward_failed(&mut hub, "r1", SendFailure::TimedOut) {
        Payload::ActionAck(a) => {
            assert_eq!(a.request_id, "r1");
            assert!(!a.accepted);
            assert_eq!(a.reason, "action enqueue timeout after 100ms");
        }
        other => panic!("unexpected payload {:?}", other),
    }
    assert!(!hub.is_pending("r1"));
    assert!(matches!(forward_failed(&mut hub, "r2", SendFailure::Closed), Payload::ActionAck(a)
        if a.reason == "primary game action queue closed"));
}
