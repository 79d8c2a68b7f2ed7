use miqbot_relay::orchestrator::action_client::build_stop_all_request;
use miqbot_relay::orchestrator::bridge_client::{
    decode_envelope, BridgeClient, BridgeEvent, ClientError, EventProgress, HandshakeProgress, TelemetryProgress,
};
use miqbot_relay::proto::{
    ActionAck, ActionResult, Envelope, ErrorFrame, Heartbeat, Hello, HelloAck, Payload, TelemetryFrame,
};
use miqbot_relay::wire::frame::{decode_frame, encode_frame, InboundMessage};

fn from_bridge(seq: u64, version: u32, payload: Option<Payload>) -> InboundMessage {
    InboundMessage::Binary(encode_frame(&Envelope {
        protocol_version: version,
        session_id: "server".to_string(),
        seq,
        ack: 0,
        mono_ms: 0,
        wall_unix_ms: 0,
        payload,
    }))
}

fn hello_ack(accepted: bool, reason: &str) -> Payload {
    Payload::HelloAck(HelloAck {
        handshake_id: "h".to_string(),
        accepted,
        reason: reason.to_string(),
        negotiated_capabilities: vec![],
        server_version: "v".to_string(),
    })
}

#[test]
fn hello_announces_an_orchestrator() {
    match BridgeClient::hello("orch-1", "0.9") {
        Payload::Hello(h) => {
            assert_eq!(h.agent_id, "orch-1");
            assert_eq!(h.role, 2);
            assert_eq!(h.capabilities, vec![1, 2, 4]);
            assert_eq!(h.client_version, "0.9");
            assert_eq!(h.handshake_id.len(), 36);
        }
        other => panic!("unexpected payload {:?}", other),
    }
    assert!(matches!(BridgeClient::hello_with_id("a", "b", "mine".to_string()), Payload::Hello(h)
        if h.handshake_id == "mine"));
}

#[test]
fn frames_count_up_and_acknowledge_the_bridge() {
    let mut c = BridgeClient::with_session_id("client".to_string());
    let first = c.next_frame(BridgeClient::hello("a", "b"), 5, 6).unwrap();
    let env = decode_frame(&first, usize::MAX).unwrap();
    assert_eq!((env.seq, env.ack, env.mono_ms, env.wall_unix_ms), (1, 0, 5, 6));
    assert_eq!(env.session_id, "client");
    assert_eq!(env.protocol_version, 1);

    assert!(matches!(c.wait_for_handshake(from_bridge(41, 1, Some(hello_ack(true, "ok")))), Ok(HandshakeProgress::Accepted)));
    let req = build_stop_all_request("game-1", 1_000, 1_500);
    let id = req.request_id.clone();
    let second = c.action_request_frame(req, 7, 8).unwrap();
    let env = decode_frame(&second, usize::MAX).unwrap();
    assert_eq!((env.seq, env.ack), (2, 41));
    assert!(matches!(env.payload, Some(Payload::ActionReq(r)) if r.request_id == id && r.expires_at_unix_ms == 2_500));
}

#[test]
fn fresh_clients_have_distinct_session_ids() {
    let mut a = BridgeClient::new();
    let mut b = BridgeClient::new();
    let ea = decode_frame(&a.next_frame(hello_ack(true, ""), 0, 0).unwrap(), usize::MAX).unwrap();
    let eb = decode_frame(&b.next_frame(hello_ack(true, ""), 0, 0).unwrap(), usize::MAX).unwrap();
    assert_eq!(ea.session_id.len(), 36);
    assert_ne!(ea.session_id, eb.session_id);
}

#[test]
fn handshake_verdicts() {
    let mut c = BridgeClient::with_session_id("c".to_string());
    for msg in [InboundMessage::Ping, InboundMessage::Pong, InboundMessage::Text, InboundMessage::Close] {
        assert!(matches!(c.wait_for_handshake(msg), Ok(HandshakeProgress::Waiting)));
    }
    assert!(matches!(
        c.wait_for_handshake(from_bridge(1, 1, Some(Payload::Heartbeat(Heartbeat {
            rx_queue_len: 0,
            tx_queue_len: 0,
            dropped_frames: 0,
        })))),
        Ok(HandshakeProgress::Waiting)
    ));
    assert!(matches!(
        c.wait_for_handshake(from_bridge(2, 1, Some(Payload::Hello(Hello {
            agent_id: "bridge".to_string(),
            role: 3,
            capabilities: vec![],
            client_version: "v".to_string(),
            handshake_id: "h".to_string(),
        })))),
        Ok(HandshakeProgress::Accepted)
    ));
    let e = c.wait_for_handshake(from_bridge(3, 1, Some(hello_ack(false, "orchestrator subscription limit reached")))).unwrap_err();
    assert!(matches!(&e, ClientError::Rejected { reason } if reason == "orchestrator subscription limit reached"));
    assert_eq!(e.message(), "bridge rejected handshake: orchestrator subscription limit reached");
    let e = c
        .wait_for_handshake(from_bridge(4, 1, Some(Payload::Error(ErrorFrame {
            code: 3,
            message: "unsupported peer role".to_string(),
            correlation_id: "hello-reject-1".to_string(),
        }))))
        .unwrap_err();
    assert_eq!(e.message(), "bridge error during handshake: unsupported peer role (hello-reject-1)");
}

#[test]
fn undecodable_and_foreign_frames_are_errors() {
    let mut c = BridgeClient::with_session_id("c".to_string());
    let e = c.wait_for_handshake(InboundMessage::Binary(vec![0xff])).unwrap_err();
    assert!(matches!(e, ClientError::Decode));
    assert_eq!(e.message(), "decode envelope");
    let e = c.next_event(from_bridge(1, 2, None)).unwrap_err();
    assert!(matches!(e, ClientError::VersionMismatch));
    assert_eq!(e.message(), "protocol_version mismatch");
    assert!(matches!(decode_envelope(&[0x08, 0x01]), Ok(env) if env.protocol_version == 1));
    assert!(matches!(decode_envelope(&[0x08, 0x02]), Err(ClientError::VersionMismatch)));
    assert!(matches!(decode_envelope(&[0x08]), Err(ClientError::Decode)));
    assert_eq!(ClientError::ClosedBeforeHandshake.message(), "bridge closed before handshake");
    assert_eq!(ClientError::HandshakeTimeout.message(), "bridge hello handshake timeout");
}

#[test]
fn events_are_told_apart_by_payload() {
    let mut c = BridgeClient::with_session_id("c".to_string());
    let t = TelemetryFrame { state_version: 3, dimension: 1, hp: 2, hunger: 1 };
    assert!(matches!(c.next_event(from_bridge(1, 1, Some(Payload::Telemetry(t)))),
        Ok(EventProgress::Event(BridgeEvent::Telemetry(f))) if f.state_version == 3));
    let a = ActionAck { request_id: "r".to_string(), accepted: true, reason: String::new() };
    assert!(matches!(c.next_event(from_bridge(2, 1, Some(Payload::ActionAck(a)))),
        Ok(EventProgress::Event(BridgeEvent::ActionAck(x))) if x.request_id == "r"));
    let r = ActionResult { request_id: "r".to_string(), status: 1, detail: String::new(), final_state_version: 9 };
    assert!(matches!(c.next_event(from_bridge(3, 1, Some(Payload::ActionRes(r)))),
        Ok(EventProgress::Event(BridgeEvent::ActionResult(x))) if x.final_state_version == 9));
    let h = Heartbeat { rx_queue_len: 1, tx_queue_len: 2, dropped_frames: 3 };
    assert!(matches!(c.next_event(from_bridge(4, 1, Some(Payload::Heartbeat(h)))),
        Ok(EventProgress::Event(BridgeEvent::Heartbeat(x))) if x.dropped_frames == 3));
    assert!(matches!(c.next_event(InboundMessage::Close), Ok(EventProgress::Event(BridgeEvent::Closed))));
    assert!(matches!(c.next_event(InboundMessage::Ping), Ok(EventProgress::Waiting)));
    assert!(matches!(c.next_event(from_bridge(5, 1, None)), Ok(EventProgress::Waiting)));
    assert!(matches!(c.next_event(from_bridge(6, 1, Some(hello_ack(true, "")))), Ok(EventProgress::Waiting)));
    let e = c.next_event(from_bridge(7, 1, Some(hello_ack(false, "late")))).unwrap_err();
    assert!(matches!(&e, ClientError::HelloRejected { reason } if reason == "late"));
    assert_eq!(e.message(), "bridge rejected hello: late");
    // the last frame seen is acknowledged on the next send
    let env = decode_frame(&c.next_frame(hello_ack(true, ""), 0, 0).unwrap(), usize::MAX).unwrap();
    assert_eq!(env.ack, 7);
}

#[test]
fn telemetry_reader_skips_everything_else() {
    let mut c = BridgeClient::with_session_id("c".to_string());
    let t = TelemetryFrame { state_version: 8, dimension: 1, hp: 2, hunger: 1 };
    assert!(matches!(c.next_telemetry(from_bridge(1, 1, Some(Payload::Telemetry(t)))),
        Ok(TelemetryProgress::Frame(f)) if f.state_version == 8));
    let h = Heartbeat { rx_queue_len: 1, tx_queue_len: 2, dropped_frames: 3 };
    assert!(matches!(c.next_telemetry(from_bridge(2, 1, Some(Payload::Heartbeat(h)))), Ok(TelemetryProgress::Waiting)));
    assert!(matches!(c.next_telemetry(InboundMessage::Text), Ok(TelemetryProgress::Waiting)));
    assert!(matches!(c.next_telemetry(InboundMessage::Close), Ok(TelemetryProgress::Closed)));
    assert!(c.next_telemetry(InboundMessage::Binary(vec![0x08])).is_err());
}
