use miqbot_relay::proto::{
    ActionAck, ActionRequest, ActionResult, BaritoneGoto, Envelope, ErrorFrame, Heartbeat, Hello, HelloAck, Payload,
    TelemetryFrame, TimeSyncRequest, TimeSyncResponse,
};
use miqbot_relay::wire::fields::{read_fields, Value};
use miqbot_relay::wire::frame::{decode_frame, encode_frame, DecodeError};
use miqbot_relay::wire::scalar::{i32_to_wire, pack_int32, unpack_int32, wire_to_i32, wire_to_u32};
use miqbot_relay::wire::varint::{read_varint, write_varint};

fn envelope(payload: Option<Payload>) -> Envelope {
    Envelope {
        protocol_version: 1,
        session_id: "s-1".to_string(),
        seq: 7,
        ack: 3,
        mono_ms: 1234,
        wall_unix_ms: 1_700_000_000_000,
        payload,
    }
}

fn roundtrip(env: &Envelope) -> Envelope {
    let bytes = encode_frame(env);
    decode_frame(&bytes, usize::MAX).unwrap()
}

fn same(a: &Envelope, b: &Envelope) -> bool {
    format!("{:?}", a) == format!("{:?}", b)
}

fn varint_bytes(n: u64) -> Vec<u8> {
    let mut out = Vec::new();
    write_varint(&mut out, n);
    out
}

#[test]
fn varint_known_encodings() {
    assert_eq!(varint_bytes(0), vec![0x00]);
    assert_eq!(varint_bytes(1), vec![0x01]);
    assert_eq!(varint_bytes(127), vec![0x7f]);
    assert_eq!(varint_bytes(128), vec![0x80, 0x01]);
    assert_eq!(varint_bytes(300), vec![0xac, 0x02]);
    assert_eq!(varint_bytes(u64::MAX), vec![0xff, 0xff, 0xff, 0xff, 0xff, 0xff, 0xff, 0xff, 0xff, 0x01]);
}

#[test]
fn varint_reads_back_and_reports_the_end() {
    for n in [0u64, 1, 127, 128, 300, 16_383, 16_384, u32::MAX as u64, u64::MAX - 1, u64::MAX] {
        let mut bytes = vec![0xEE];
        bytes.extend(varint_bytes(n));
        bytes.push(0x55);
        let (v, end) = read_varint(&bytes, 1).unwrap();
        assert_eq!(v, n);
        assert_eq!(end, bytes.len() - 1);
    }
}

#[test]
fn varint_refuses_truncated_overlong_and_overflowing_input() {
    assert!(read_varint(&[], 0).is_none());
    assert!(read_varint(&[0x80], 0).is_none());
    assert!(read_varint(&[0x80, 0x80], 0).is_none());
    assert!(read_varint(&[0x80; 11], 0).is_none());
    let too_big = [0xff, 0xff, 0xff, 0xff, 0xff, 0xff, 0xff, 0xff, 0xff, 0x02];
    assert!(read_varint(&too_big, 0).is_none());
    let padded = [0x81, 0x80, 0x00];
    assert_eq!(read_varint(&padded, 0), Some((1, 3)));
}

#[test]
fn signed_values_travel_sign_extended() {
    assert_eq!(i32_to_wire(0), 0);
    assert_eq!(i32_to_wire(5), 5);
    assert_eq!(i32_to_wire(-1), u64::MAX);
    assert_eq!(i32_to_wire(i32::MIN), 0xFFFF_FFFF_8000_0000);
    assert_eq!(wire_to_i32(u64::MAX), -1);
    assert_eq!(wire_to_i32(0xFFFF_FFFF_8000_0000), i32::MIN);
    assert_eq!(wire_to_i32(0x1_0000_0005), 5);
    assert_eq!(wire_to_u32(0x1_0000_0005), 5);
    for v in [i32::MIN, -2, -1, 0, 1, i32::MAX] {
        assert_eq!(wire_to_i32(i32_to_wire(v)), v);
    }
}

#[test]
fn packed_lists_read_back() {
    let vs = vec![1, 4, -1, i32::MAX, i32::MIN, 0];
    let bytes = pack_int32(&vs);
    let mut out = vec![99];
    assert!(unpack_int32(&mut out, &bytes));
    assert_eq!(out, vec![99, 1, 4, -1, i32::MAX, i32::MIN, 0]);
    let mut out = Vec::new();
    assert!(!unpack_int32(&mut out, &[0x80]));
}

#[test]
fn heartbeat_envelope_has_the_expected_bytes() {
    let env = Envelope {
        protocol_version: 1,
        session_id: "s".to_string(),
        seq: 300,
        ack: 0,
        mono_ms: 2,
        wall_unix_ms: 0,
        payload: Some(Payload::Heartbeat(Heartbeat { rx_queue_len: 1, tx_queue_len: 0, dropped_frames: 5 })),
    };
    let expected: Vec<u8> = vec![
        0x08, 0x01, // protocol_version = 1
        0x12, 0x01, b's', // session_id = "s"
        0x18, 0xac, 0x02, // seq = 300
        0x28, 0x02, // mono_ms = 2 (ack and wall_unix_ms are zero and left out)
        0x6a, 0x04, // heartbeat, 4 bytes
        0x08, 0x01, // rx_queue_len = 1
        0x18, 0x05, // dropped_frames = 5
    ];
    assert_eq!(encode_frame(&env), expected);
    assert!(same(&decode_frame(&expected, 1024).unwrap(), &env));
}

#[test]
fn empty_payload_is_still_written() {
    let env = Envelope {
        protocol_version: 0,
        session_id: String::new(),
        seq: 0,
        ack: 0,
        mono_ms: 0,
        wall_unix_ms: 0,
        payload: Some(Payload::TimeSyncReq(TimeSyncRequest { t0_mono_ms: 0 })),
    };
    assert_eq!(encode_frame(&env), vec![0x72, 0x00]);
    assert!(same(&roundtrip(&env), &env));
    let none = Envelope { payload: None, ..env };
    assert_eq!(encode_frame(&none), Vec::<u8>::new());
    assert!(same(&roundtrip(&none), &none));
}

#[test]
fn every_payload_variant_round_trips() {
    let payloads = vec![
        Payload::Hello(Hello {
            agent_id: "orch-1".to_string(),
            role: 2,
            capabilities: vec![1, 2, 4],
            client_version: "1.2.3".to_string(),
            handshake_id: "proposed".to_string(),
        }),
        Payload::HelloAck(HelloAck {
            handshake_id: "h".to_string(),
            accepted: true,
            reason: "ok".to_string(),
            negotiated_capabilities: vec![1, 4],
            server_version: "v".to_string(),
        }),
        Payload::Telemetry(TelemetryFrame { state_version: 9, dimension: 2, hp: 20, hunger: 17 }),
        Payload::Heartbeat(Heartbeat { rx_queue_len: 1, tx_queue_len: 2, dropped_frames: 3 }),
        Payload::TimeSyncReq(TimeSyncRequest { t0_mono_ms: 11 }),
        Payload::TimeSyncRes(TimeSyncResponse { t0_mono_ms: 11, t1_mono_ms: 12, t2_mono_ms: 12 }),
        Payload::ActionReq(ActionRequest {
            request_id: "r1".to_string(),
            expected_state_version: 4,
            action_type: 2,
            expires_at_unix_ms: 99,
            idempotency_key: "idem".to_string(),
            target_agent_id: "game-1".to_string(),
            baritone_goto: Some(BaritoneGoto {
                x_bits: 1.5f64.to_bits(),
                y_bits: (-64.0f64).to_bits(),
                z_bits: 0,
                max_distance: 200,
                timeout_ms: 15_000,
                stuck_timeout_ms: 5_000,
            }),
        }),
        Payload::ActionAck(ActionAck { request_id: "r1".to_string(), accepted: false, reason: "busy".to_string() }),
        Payload::ActionRes(ActionResult {
            request_id: "r1".to_string(),
            status: 1,
            detail: "done".to_string(),
            final_state_version: 42,
        }),
        Payload::Error(ErrorFrame { code: 3, message: "no".to_string(), correlation_id: "c-1".to_string() }),
    ];
    for p in payloads {
        let env = envelope(Some(p));
        assert!(same(&roundtrip(&env), &env));
    }
}

#[test]
fn boundary_values_round_trip() {
    let env = Envelope {
        protocol_version: u32::MAX,
        session_id: "\u{0}\u{7f}\u{80}\u{7ff}\u{800}\u{ffff}\u{10000}\u{10ffff} 体力".to_string(),
        seq: u64::MAX,
        ack: u64::MAX,
        mono_ms: u64::MAX,
        wall_unix_ms: 1,
        payload: Some(Payload::Hello(Hello {
            agent_id: String::new(),
            role: i32::MIN,
            capabilities: vec![i32::MIN, -1, 0, 1, i32::MAX],
            client_version: "x".repeat(300),
            handshake_id: String::new(),
        })),
    };
    assert!(same(&roundtrip(&env), &env));
    let env = envelope(Some(Payload::Telemetry(TelemetryFrame {
        state_version: u64::MAX,
        dimension: i32::MAX,
        hp: u32::MAX,
        hunger: 0,
    })));
    assert!(same(&roundtrip(&env), &env));
    let env = envelope(Some(Payload::ActionReq(ActionRequest {
        request_id: String::new(),
        expected_state_version: 0,
        action_type: 0,
        expires_at_unix_ms: 0,
        idempotency_key: String::new(),
        target_agent_id: String::new(),
        baritone_goto: Some(BaritoneGoto {
            x_bits: u64::MAX,
            y_bits: (-0.0f64).to_bits(),
            z_bits: 0,
            max_distance: 0,
            timeout_ms: 0,
            stuck_timeout_ms: 0,
        }),
    })));
    assert!(same(&roundtrip(&env), &env));
}

#[test]
fn size_limit_is_inclusive() {
    let head = encode_frame(&envelope(Some(Payload::Hello(Hello {
        agent_id: String::new(),
        role: 2,
        capabilities: vec![],
        client_version: String::new(),
        handshake_id: String::new(),
    }))));
    let mut exact = None;
    for pad in 900..1100usize {
        let env = envelope(Some(Payload::Hello(Hello {
            agent_id: "a".repeat(pad),
            role: 2,
            capabilities: vec![],
            client_version: String::new(),
            handshake_id: String::new(),
        })));
        let bytes = encode_frame(&env);
        if bytes.len() == 1024 {
            exact = Some((env, bytes));
            break;
        }
    }
    assert!(head.len() < 1024);
    let (env, bytes) = exact.unwrap();
    assert_eq!(bytes.len(), 1024);
    assert!(same(&decode_frame(&bytes, 1024).unwrap(), &env));
    assert_eq!(decode_frame(&bytes, 1023).unwrap_err(), DecodeError::TooLarge);

    let mut longer = bytes.clone();
    longer.extend_from_slice(&[0x20, 0x01]);
    longer.truncate(1025);
    assert_eq!(longer.len(), 1025);
    assert_eq!(decode_frame(&longer, 1024).unwrap_err(), DecodeError::TooLarge);
}

#[test]
fn unknown_payload_tag_is_refused() {
    let mut bytes = encode_frame(&envelope(None));
    bytes.extend_from_slice(&[0xa2, 0x01, 0x00]); // field 20, length-delimited, empty
    assert_eq!(decode_frame(&bytes, 1024).unwrap_err(), DecodeError::Malformed);
    let mut bytes = encode_frame(&envelope(None));
    bytes.extend_from_slice(&[0x48, 0x01]); // field 9, varint
    assert_eq!(decode_frame(&bytes, 1024).unwrap_err(), DecodeError::Malformed);
}

#[test]
fn truncated_length_prefix_is_refused() {
    let bytes = encode_frame(&envelope(Some(Payload::Error(ErrorFrame {
        code: 1,
        message: "m".repeat(200),
        correlation_id: String::new(),
    }))));
    for cut in [bytes.len() - 1, bytes.len() - 100, 8] {
        assert_eq!(decode_frame(&bytes[..cut], 4096).unwrap_err(), DecodeError::Malformed);
    }
    assert_eq!(decode_frame(&[0x12, 0x80], 4096).unwrap_err(), DecodeError::Malformed);
    assert_eq!(decode_frame(&[0x12, 0x05, b'a'], 4096).unwrap_err(), DecodeError::Malformed);
}

#[test]
fn malformed_content_is_refused() {
    // session_id that is not UTF-8
    assert_eq!(decode_frame(&[0x12, 0x02, 0xff, 0xfe], 64).unwrap_err(), DecodeError::Malformed);
    // seq with the wrong wire type
    assert_eq!(decode_frame(&[0x1a, 0x01, 0x00], 64).unwrap_err(), DecodeError::Malformed);
    // field number zero
    assert_eq!(decode_frame(&[0x00, 0x00], 64).unwrap_err(), DecodeError::Malformed);
    // group wire types
    assert_eq!(decode_frame(&[0x0b], 64).unwrap_err(), DecodeError::Malformed);
}

#[test]
fn later_fields_win_and_inner_unknown_fields_are_skipped() {
    // seq = 1, seq = 2, heartbeat { rx = 1, unknown field 15 = 7 }, heartbeat { tx = 9 }
    let bytes =
        [0x18, 0x01, 0x18, 0x02, 0x6a, 0x04, 0x08, 0x01, 0x78, 0x07, 0x6a, 0x02, 0x10, 0x09];
    let env = decode_frame(&bytes, 64).unwrap();
    assert_eq!(env.seq, 2);
    match env.payload {
        Some(Payload::Heartbeat(h)) => {
            assert_eq!(h.rx_queue_len, 1);
            assert_eq!(h.tx_queue_len, 9);
        }
        other => panic!("unexpected payload {:?}", other),
    }
    // a payload of another kind replaces the earlier one
    let bytes = [0x6a, 0x02, 0x08, 0x01, 0x72, 0x02, 0x08, 0x05];
    let env = decode_frame(&bytes, 64).unwrap();
    assert!(matches!(env.payload, Some(Payload::TimeSyncReq(TimeSyncRequest { t0_mono_ms: 5 }))));
}

#[test]
fn unpacked_and_packed_capabilities_both_read() {
    // hello { capabilities: 1 (unpacked), [2, 4] (packed) }
    let bytes = [0x52, 0x06, 0x18, 0x01, 0x1a, 0x02, 0x02, 0x04];
    let env = decode_frame(&bytes, 64).unwrap();
    match env.payload {
        Some(Payload::Hello(h)) => assert_eq!(h.capabilities, vec![1, 2, 4]),
        other => panic!("unexpected payload {:?}", other),
    }
}

#[test]
fn generic_fields_expose_all_wire_types() {
    let bytes = [
        0x08, 0x96, 0x01, // field 1, varint 150
        0x11, 1, 0, 0, 0, 0, 0, 0, 0, // field 2, fixed64 1
        0x1a, 0x02, b'h', b'i', // field 3, bytes "hi"
        0x25, 2, 0, 0, 0, // field 4, fixed32 2
    ];
    let fields = read_fields(&bytes).unwrap();
    assert_eq!(fields.len(), 4);
    assert!(matches!((fields[0].number, &fields[0].value), (1, Value::Varint(150))));
    assert!(matches!((fields[1].number, &fields[1].value), (2, Value::Fixed64(1))));
    assert!(matches!((fields[2].number, &fields[2].value), (3, Value::Bytes(b)) if *b == b"hi"));
    assert!(matches!((fields[3].number, &fields[3].value), (4, Value::Fixed32(2))));
    assert!(read_fields(&[0x11, 1, 2, 3]).is_none());
    assert!(read_fields(&[0x25, 1, 2, 3]).is_none());
}
