//! Round trips: whatever is encoded decodes to itself.

use crate::proto::{
    ActionAckView, ActionRequestView, ActionResultView, BaritoneGotoView, EnvelopeView, ErrorFrameView,
    HeartbeatView, HelloAckView, HelloView, PayloadView, TelemetryFrameView, TimeSyncRequestView,
    TimeSyncResponseView,
};
use crate::wire::fields::{fields_bytes, lemma_parse_fields_roundtrip, WireField, WireValue};
use crate::wire::messages::{
    action_ack_fields, action_ack_of_bytes, action_ack_with_field, action_ack_with_fields, action_ack_zero,
    action_request_fields, action_request_of_bytes, action_request_with_field, action_request_with_fields,
    action_request_zero, action_result_fields, action_result_of_bytes, action_result_with_field,
    action_result_with_fields, action_result_zero, baritone_goto_fields, baritone_goto_of_bytes,
    baritone_goto_with_field, baritone_goto_with_fields, baritone_goto_zero, envelope_fields,
    envelope_of_bytes, envelope_with_field, envelope_with_fields, envelope_zero, error_frame_fields,
    error_frame_of_bytes, error_frame_with_field, error_frame_with_fields, error_frame_zero,
    heartbeat_fields, heartbeat_of_bytes, heartbeat_with_field, heartbeat_with_fields, heartbeat_zero,
    hello_ack_fields, hello_ack_of_bytes, hello_ack_with_field, hello_ack_with_fields, hello_ack_zero,
    hello_fields, hello_of_bytes, hello_with_field, hello_with_fields, hello_zero, payload_piece,
    telemetry_frame_fields, telemetry_frame_of_bytes, telemetry_frame_with_field,
    telemetry_frame_with_fields, telemetry_frame_zero, time_sync_request_fields, time_sync_request_of_bytes,
    time_sync_request_with_field, time_sync_request_with_fields, time_sync_request_zero,
    time_sync_response_fields, time_sync_response_of_bytes, time_sync_response_with_field,
    time_sync_response_with_fields, time_sync_response_zero,
};
use crate::wire::scalar::{
    all_well_formed, bool_piece, fixed64_piece, int32_piece, int32_to_wire, lemma_all_well_formed_concat,
    lemma_int32_wire_roundtrip, lemma_packed_int32_empty, lemma_packed_int32_roundtrip, lemma_text_roundtrip,
    message_piece, packed_int32, packed_piece, text_piece, uint_piece,
};
use vstd::prelude::*;
use vstd::utf8::encode_utf8;

verus! {

/// Whether every part of `m` is short enough for its length to be written in front
/// of it.
pub open spec fn hello_fits(m: HelloView) -> bool {
    &&& encode_utf8(m.agent_id).len() <= u64::MAX
    &&& packed_int32(m.capabilities).len() <= u64::MAX
    &&& encode_utf8(m.client_version).len() <= u64::MAX
    &&& encode_utf8(m.handshake_id).len() <= u64::MAX
}

proof fn lemma_hello_single(acc: HelloView, f: WireField)
    ensures
        hello_with_fields(acc, seq![f]) == hello_with_field(acc, f),
{
    reveal_with_fuel(hello_with_fields, 2);
    assert(seq![f].drop_first() =~= Seq::<WireField>::empty());
}

proof fn lemma_hello_split(acc: HelloView, a: Seq<WireField>, b: Seq<WireField>)
    ensures
        hello_with_fields(acc, a + b) == match hello_with_fields(acc, a) {
            Some(next) => hello_with_fields(next, b),
            None => None,
        },
    decreases a.len(),
{
    if a.len() == 0 {
        assert(a + b =~= b);
    } else {
        assert((a + b).first() == a.first());
        assert((a + b).drop_first() =~= a.drop_first() + b);
        match hello_with_field(acc, a.first()) {
            Some(next) => lemma_hello_split(next, a.drop_first(), b),
            None => {},
        }
    }
}

proof fn lemma_hello_step_agent_id(acc: HelloView, m: HelloView)
    requires
        acc.agent_id == Seq::<char>::empty(),
        encode_utf8(m.agent_id).len() <= u64::MAX,
    ensures
        hello_with_fields(
            acc,
            text_piece(1, m.agent_id),
        ) == Some(HelloView { agent_id: m.agent_id, ..acc }),
        all_well_formed(
            text_piece(1, m.agent_id),
        ),
{
    let piece = text_piece(1, m.agent_id);
    lemma_text_roundtrip(m.agent_id);
    if piece.len() != 0 {
        lemma_hello_single(acc, WireField { number: 1, value: WireValue::Bytes(encode_utf8(m.agent_id)) });
    }
}

proof fn lemma_hello_step_role(acc: HelloView, m: HelloView)
    requires
        acc.role == 0,
    ensures
        hello_with_fields(
            acc,
            int32_piece(2, m.role),
        ) == Some(HelloView { role: m.role, ..acc }),
        all_well_formed(
            int32_piece(2, m.role),
        ),
{
    let piece = int32_piece(2, m.role);
    lemma_int32_wire_roundtrip(m.role);
    if piece.len() != 0 {
        lemma_hello_single(acc, WireField { number: 2, value: WireValue::Varint(int32_to_wire(m.role)) });
    }
}

proof fn lemma_hello_step_capabilities(acc: HelloView, m: HelloView)
    requires
        acc.capabilities == Seq::<i32>::empty(),
        packed_int32(m.capabilities).len() <= u64::MAX,
    ensures
        hello_with_fields(
            acc,
            packed_piece(3, m.capabilities),
        ) == Some(HelloView { capabilities: m.capabilities, ..acc }),
        all_well_formed(
            packed_piece(3, m.capabilities),
        ),
{
    let piece = packed_piece(3, m.capabilities);
    lemma_packed_int32_roundtrip(m.capabilities);
    lemma_packed_int32_empty(m.capabilities);
    assert(Seq::<i32>::empty() + m.capabilities =~= m.capabilities);
    if piece.len() != 0 {
        lemma_hello_single(acc, WireField { number: 3, value: WireValue::Bytes(packed_int32(m.capabilities)) });
    }
}

proof fn lemma_hello_step_client_version(acc: HelloView, m: HelloView)
    requires
        acc.client_version == Seq::<char>::empty(),
        encode_utf8(m.client_version).len() <= u64::MAX,
    ensures
        hello_with_fields(
            acc,
            text_piece(4, m.client_version),
        ) == Some(HelloView { client_version: m.client_version, ..acc }),
        all_well_formed(
            text_piece(4, m.client_version),
        ),
{
    let piece = text_piece(4, m.client_version);
    lemma_text_roundtrip(m.client_version);
    if piece.len() != 0 {
        lemma_hello_single(acc, WireField { number: 4, value: WireValue::Bytes(encode_utf8(m.client_version)) });
    }
}

proof fn lemma_hello_step_handshake_id(acc: HelloView, m: HelloView)
    requires
        acc.handshake_id == Seq::<char>::empty(),
        encode_utf8(m.handshake_id).len() <= u64::MAX,
    ensures
        hello_with_fields(
            acc,
            text_piece(5, m.handshake_id),
        ) == Some(HelloView { handshake_id: m.handshake_id, ..acc }),
        all_well_formed(
            text_piece(5, m.handshake_id),
        ),
{
    let piece = text_piece(5, m.handshake_id);
    lemma_text_roundtrip(m.handshake_id);
    if piece.len() != 0 {
        lemma_hello_single(acc, WireField { number: 5, value: WireValue::Bytes(encode_utf8(m.handshake_id)) });
    }
}

/// Reading the fields of a `Hello` into an empty one gives the message back, and
/// every one of those fields can be written.
pub proof fn lemma_hello_fields_roundtrip(m: HelloView)
    requires
        hello_fits(m),
    ensures
        hello_with_fields(hello_zero(), hello_fields(m)) == Some(m),
        all_well_formed(hello_fields(m)),
{
    let a0 = hello_zero();
    let p0 = text_piece(1, m.agent_id);
    let a1 = HelloView { agent_id: m.agent_id, ..a0 };
    lemma_hello_step_agent_id(a0, m);
    let d0 = p0;
    let p1 = int32_piece(2, m.role);
    let a2 = HelloView { role: m.role, ..a1 };
    lemma_hello_step_role(a1, m);
    lemma_hello_split(a0, d0, p1);
    lemma_all_well_formed_concat(d0, p1);
    let d1 = d0 + p1;
    let p2 = packed_piece(3, m.capabilities);
    let a3 = HelloView { capabilities: m.capabilities, ..a2 };
    lemma_hello_step_capabilities(a2, m);
    lemma_hello_split(a0, d1, p2);
    lemma_all_well_formed_concat(d1, p2);
    let d2 = d1 + p2;
    let p3 = text_piece(4, m.client_version);
    let a4 = HelloView { client_version: m.client_version, ..a3 };
    lemma_hello_step_client_version(a3, m);
    lemma_hello_split(a0, d2, p3);
    lemma_all_well_formed_concat(d2, p3);
    let d3 = d2 + p3;
    let p4 = text_piece(5, m.handshake_id);
    let a5 = HelloView { handshake_id: m.handshake_id, ..a4 };
    lemma_hello_step_handshake_id(a4, m);
    lemma_hello_split(a0, d3, p4);
    lemma_all_well_formed_concat(d3, p4);
    let d4 = d3 + p4;
    assert(a5 == m);
}

/// Decoding an encoded `Hello` gives the message back.
pub proof fn lemma_hello_roundtrip(m: HelloView)
    requires
        hello_fits(m),
    ensures
        hello_of_bytes(fields_bytes(hello_fields(m))) == Some(m),
{
    lemma_hello_fields_roundtrip(m);
    lemma_parse_fields_roundtrip(hello_fields(m));
}

/// Whether every part of `m` is short enough for its length to be written in front
/// of it.
pub open spec fn hello_ack_fits(m: HelloAckView) -> bool {
    &&& encode_utf8(m.handshake_id).len() <= u64::MAX
    &&& encode_utf8(m.reason).len() <= u64::MAX
    &&& packed_int32(m.negotiated_capabilities).len() <= u64::MAX
    &&& encode_utf8(m.server_version).len() <= u64::MAX
}

proof fn lemma_hello_ack_single(acc: HelloAckView, f: WireField)
    ensures
        hello_ack_with_fields(acc, seq![f]) == hello_ack_with_field(acc, f),
{
    reveal_with_fuel(hello_ack_with_fields, 2);
    assert(seq![f].drop_first() =~= Seq::<WireField>::empty());
}

proof fn lemma_hello_ack_split(acc: HelloAckView, a: Seq<WireField>, b: Seq<WireField>)
    ensures
        hello_ack_with_fields(acc, a + b) == match hello_ack_with_fields(acc, a) {
            Some(next) => hello_ack_with_fields(next, b),
            None => None,
        },
    decreases a.len(),
{
    if a.len() == 0 {
        assert(a + b =~= b);
    } else {
        assert((a + b).first() == a.first());
        assert((a + b).drop_first() =~= a.drop_first() + b);
        match hello_ack_with_field(acc, a.first()) {
            Some(next) => lemma_hello_ack_split(next, a.drop_first(), b),
            None => {},
        }
    }
}

proof fn lemma_hello_ack_step_handshake_id(acc: HelloAckView, m: HelloAckView)
    requires
        acc.handshake_id == Seq::<char>::empty(),
        encode_utf8(m.handshake_id).len() <= u64::MAX,
    ensures
        hello_ack_with_fields(
            acc,
            text_piece(1, m.handshake_id),
        ) == Some(HelloAckView { handshake_id: m.handshake_id, ..acc }),
        all_well_formed(
            text_piece(1, m.handshake_id),
        ),
{
    let piece = text_piece(1, m.handshake_id);
    lemma_text_roundtrip(m.handshake_id);
    if piece.len() != 0 {
        lemma_hello_ack_single(acc, WireField { number: 1, value: WireValue::Bytes(encode_utf8(m.handshake_id)) });
    }
}

proof fn lemma_hello_ack_step_accepted(acc: HelloAckView, m: HelloAckView)
    requires
        acc.accepted == false,
    ensures
        hello_ack_with_fields(
            acc,
            bool_piece(2, m.accepted),
        ) == Some(HelloAckView { accepted: m.accepted, ..acc }),
        all_well_formed(
            bool_piece(2, m.accepted),
        ),
{
    let piece = bool_piece(2, m.accepted);
    if piece.len() != 0 {
        lemma_hello_ack_single(acc, WireField { number: 2, value: WireValue::Varint((if m.accepted { 1u64 } else { 0u64 })) });
    }
}

proof fn lemma_hello_ack_step_reason(acc: HelloAckView, m: HelloAckView)
    requires
        acc.reason == Seq::<char>::empty(),
        encode_utf8(m.reason).len() <= u64::MAX,
    ensures
        hello_ack_with_fields(
            acc,
            text_piece(3, m.reason),
        ) == Some(HelloAckView { reason: m.reason, ..acc }),
        all_well_formed(
            text_piece(3, m.reason),
        ),
{
    let piece = text_piece(3, m.reason);
    lemma_text_roundtrip(m.reason);
    if piece.len() != 0 {
        lemma_hello_ack_single(acc, WireField { number: 3, value: WireValue::Bytes(encode_utf8(m.reason)) });
    }
}

proof fn lemma_hello_ack_step_negotiated_capabilities(acc: HelloAckView, m: HelloAckView)
    requires
        acc.negotiated_capabilities == Seq::<i32>::empty(),
        packed_int32(m.negotiated_capabilities).len() <= u64::MAX,
    ensures
        hello_ack_with_fields(
            acc,
            packed_piece(4, m.negotiated_capabilities),
        ) == Some(HelloAckView { negotiated_capabilities: m.negotiated_capabilities, ..acc }),
        all_well_formed(
            packed_piece(4, m.negotiated_capabilities),
        ),
{
    let piece = packed_piece(4, m.negotiated_capabilities);
    lemma_packed_int32_roundtrip(m.negotiated_capabilities);
    lemma_packed_int32_empty(m.negotiated_capabilities);
    assert(Seq::<i32>::empty() + m.negotiated_capabilities =~= m.negotiated_capabilities);
    if piece.len() != 0 {
        lemma_hello_ack_single(acc, WireField { number: 4, value: WireValue::Bytes(packed_int32(m.negotiated_capabilities)) });
    }
}

proof fn lemma_hello_ack_step_server_version(acc: HelloAckView, m: HelloAckView)
    requires
        acc.server_version == Seq::<char>::empty(),
        encode_utf8(m.server_version).len() <= u64::MAX,
    ensures
        hello_ack_with_fields(
            acc,
            text_piece(5, m.server_version),
        ) == Some(HelloAckView { server_version: m.server_version, ..acc }),
        all_well_formed(
            text_piece(5, m.server_version),
        ),
{
    let piece = text_piece(5, m.server_version);
    lemma_text_roundtrip(m.server_version);
    if piece.len() != 0 {
        lemma_hello_ack_single(acc, WireField { number: 5, value: WireValue::Bytes(encode_utf8(m.server_version)) });
    }
}

/// Reading the fields of a `HelloAck` into an empty one gives the message back, and
/// every one of those fields can be written.
pub proof fn lemma_hello_ack_fields_roundtrip(m: HelloAckView)
    requires
        hello_ack_fits(m),
    ensures
        hello_ack_with_fields(hello_ack_zero(), hello_ack_fields(m)) == Some(m),
        all_well_formed(hello_ack_fields(m)),
{
    let a0 = hello_ack_zero();
    let p0 = text_piece(1, m.handshake_id);
    let a1 = HelloAckView { handshake_id: m.handshake_id, ..a0 };
    lemma_hello_ack_step_handshake_id(a0, m);
    let d0 = p0;
    let p1 = bool_piece(2, m.accepted);
    let a2 = HelloAckView { accepted: m.accepted, ..a1 };
    lemma_hello_ack_step_accepted(a1, m);
    lemma_hello_ack_split(a0, d0, p1);
    lemma_all_well_formed_concat(d0, p1);
    let d1 = d0 + p1;
    let p2 = text_piece(3, m.reason);
    let a3 = HelloAckView { reason: m.reason, ..a2 };
    lemma_hello_ack_step_reason(a2, m);
    lemma_hello_ack_split(a0, d1, p2);
    lemma_all_well_formed_concat(d1, p2);
    let d2 = d1 + p2;
    let p3 = packed_piece(4, m.negotiated_capabilities);
    let a4 = HelloAckView { negotiated_capabilities: m.negotiated_capabilities, ..a3 };
    lemma_hello_ack_step_negotiated_capabilities(a3, m);
    lemma_hello_ack_split(a0, d2, p3);
    lemma_all_well_formed_concat(d2, p3);
    let d3 = d2 + p3;
    let p4 = text_piece(5, m.server_version);
    let a5 = HelloAckView { server_version: m.server_version, ..a4 };
    lemma_hello_ack_step_server_version(a4, m);
    lemma_hello_ack_split(a0, d3, p4);
    lemma_all_well_formed_concat(d3, p4);
    let d4 = d3 + p4;
    assert(a5 == m);
}

/// Decoding an encoded `HelloAck` gives the message back.
pub proof fn lemma_hello_ack_roundtrip(m: HelloAckView)
    requires
        hello_ack_fits(m),
    ensures
        hello_ack_of_bytes(fields_bytes(hello_ack_fields(m))) == Some(m),
{
    lemma_hello_ack_fields_roundtrip(m);
    lemma_parse_fields_roundtrip(hello_ack_fields(m));
}

/// Whether every part of `m` is short enough for its length to be written in front
/// of it.
pub open spec fn telemetry_frame_fits(m: TelemetryFrameView) -> bool {
    true
}

proof fn lemma_telemetry_frame_single(acc: TelemetryFrameView, f: WireField)
    ensures
        telemetry_frame_with_fields(acc, seq![f]) == telemetry_frame_with_field(acc, f),
{
    reveal_with_fuel(telemetry_frame_with_fields, 2);
    assert(seq![f].drop_first() =~= Seq::<WireField>::empty());
}

proof fn lemma_telemetry_frame_split(acc: TelemetryFrameView, a: Seq<WireField>, b: Seq<WireField>)
    ensures
        telemetry_frame_with_fields(acc, a + b) == match telemetry_frame_with_fields(acc, a) {
            Some(next) => telemetry_frame_with_fields(next, b),
            None => None,
        },
    decreases a.len(),
{
    if a.len() == 0 {
        assert(a + b =~= b);
    } else {
        assert((a + b).first() == a.first());
        assert((a + b).drop_first() =~= a.drop_first() + b);
        match telemetry_frame_with_field(acc, a.first()) {
            Some(next) => lemma_telemetry_frame_split(next, a.drop_first(), b),
            None => {},
        }
    }
}

proof fn lemma_telemetry_frame_step_state_version(acc: TelemetryFrameView, m: TelemetryFrameView)
    requires
        acc.state_version == 0,
    ensures
        telemetry_frame_with_fields(
            acc,
            uint_piece(1, m.state_version),
        ) == Some(TelemetryFrameView { state_version: m.state_version, ..acc }),
        all_well_formed(
            uint_piece(1, m.state_version),
        ),
{
    let piece = uint_piece(1, m.state_version);
    if piece.len() != 0 {
        lemma_telemetry_frame_single(acc, WireField { number: 1, value: WireValue::Varint(m.state_version) });
    }
}

proof fn lemma_telemetry_frame_step_dimension(acc: TelemetryFrameView, m: TelemetryFrameView)
    requires
        acc.dimension == 0,
    ensures
        telemetry_frame_with_fields(
            acc,
            int32_piece(2, m.dimension),
        ) == Some(TelemetryFrameView { dimension: m.dimension, ..acc }),
        all_well_formed(
            int32_piece(2, m.dimension),
        ),
{
    let piece = int32_piece(2, m.dimension);
    lemma_int32_wire_roundtrip(m.dimension);
    if piece.len() != 0 {
        lemma_telemetry_frame_single(acc, WireField { number: 2, value: WireValue::Varint(int32_to_wire(m.dimension)) });
    }
}

proof fn lemma_telemetry_frame_step_hp(acc: TelemetryFrameView, m: TelemetryFrameView)
    requires
        acc.hp == 0,
    ensures
        telemetry_frame_with_fields(
            acc,
            uint_piece(3, m.hp as u64),
        ) == Some(TelemetryFrameView { hp: m.hp, ..acc }),
        all_well_formed(
            uint_piece(3, m.hp as u64),
        ),
{
    let piece = uint_piece(3, m.hp as u64);
    if piece.len() != 0 {
        lemma_telemetry_frame_single(acc, WireField { number: 3, value: WireValue::Varint(m.hp as u64) });
    }
}

proof fn lemma_telemetry_frame_step_hunger(acc: TelemetryFrameView, m: TelemetryFrameView)
    requires
        acc.hunger == 0,
    ensures
        telemetry_frame_with_fields(
            acc,
            uint_piece(4, m.hunger as u64),
        ) == Some(TelemetryFrameView { hunger: m.hunger, ..acc }),
        all_well_formed(
            uint_piece(4, m.hunger as u64),
        ),
{
    let piece = uint_piece(4, m.hunger as u64);
    if piece.len() != 0 {
        lemma_telemetry_frame_single(acc, WireField { number: 4, value: WireValue::Varint(m.hunger as u64) });
    }
}

/// Reading the fields of a `TelemetryFrame` into an empty one gives the message back, and
/// every one of those fields can be written.
pub proof fn lemma_telemetry_frame_fields_roundtrip(m: TelemetryFrameView)
    requires
        telemetry_frame_fits(m),
    ensures
        telemetry_frame_with_fields(telemetry_frame_zero(), telemetry_frame_fields(m)) == Some(m),
        all_well_formed(telemetry_frame_fields(m)),
{
    let a0 = telemetry_frame_zero();
    let p0 = uint_piece(1, m.state_version);
    let a1 = TelemetryFrameView { state_version: m.state_version, ..a0 };
    lemma_telemetry_frame_step_state_version(a0, m);
    let d0 = p0;
    let p1 = int32_piece(2, m.dimension);
    let a2 = TelemetryFrameView { dimension: m.dimension, ..a1 };
    lemma_telemetry_frame_step_dimension(a1, m);
    lemma_telemetry_frame_split(a0, d0, p1);
    lemma_all_well_formed_concat(d0, p1);
    let d1 = d0 + p1;
    let p2 = uint_piece(3, m.hp as u64);
    let a3 = TelemetryFrameView { hp: m.hp, ..a2 };
    lemma_telemetry_frame_step_hp(a2, m);
    lemma_telemetry_frame_split(a0, d1, p2);
    lemma_all_well_formed_concat(d1, p2);
    let d2 = d1 + p2;
    let p3 = uint_piece(4, m.hunger as u64);
    let a4 = TelemetryFrameView { hunger: m.hunger, ..a3 };
    lemma_telemetry_frame_step_hunger(a3, m);
    lemma_telemetry_frame_split(a0, d2, p3);
    lemma_all_well_formed_concat(d2, p3);
    let d3 = d2 + p3;
    assert(a4 == m);
}

/// Decoding an encoded `TelemetryFrame` gives the message back.
pub proof fn lemma_telemetry_frame_roundtrip(m: TelemetryFrameView)
    requires
        telemetry_frame_fits(m),
    ensures
        telemetry_frame_of_bytes(fields_bytes(telemetry_frame_fields(m))) == Some(m),
{
    lemma_telemetry_frame_fields_roundtrip(m);
    lemma_parse_fields_roundtrip(telemetry_frame_fields(m));
}

/// Whether every part of `m` is short enough for its length to be written in front
/// of it.
pub open spec fn heartbeat_fits(m: HeartbeatView) -> bool {
    true
}

proof fn lemma_heartbeat_single(acc: HeartbeatView, f: WireField)
    ensures
        heartbeat_with_fields(acc, seq![f]) == heartbeat_with_field(acc, f),
{
    reveal_with_fuel(heartbeat_with_fields, 2);
    assert(seq![f].drop_first() =~= Seq::<WireField>::empty());
}

proof fn lemma_heartbeat_split(acc: HeartbeatView, a: Seq<WireField>, b: Seq<WireField>)
    ensures
        heartbeat_with_fields(acc, a + b) == match heartbeat_with_fields(acc, a) {
            Some(next) => heartbeat_with_fields(next, b),
            None => None,
        },
    decreases a.len(),
{
    if a.len() == 0 {
        assert(a + b =~= b);
    } else {
        assert((a + b).first() == a.first());
        assert((a + b).drop_first() =~= a.drop_first() + b);
        match heartbeat_with_field(acc, a.first()) {
            Some(next) => lemma_heartbeat_split(next, a.drop_first(), b),
            None => {},
        }
    }
}

proof fn lemma_heartbeat_step_rx_queue_len(acc: HeartbeatView, m: HeartbeatView)
    requires
        acc.rx_queue_len == 0,
    ensures
        heartbeat_with_fields(
            acc,
            uint_piece(1, m.rx_queue_len as u64),
        ) == Some(HeartbeatView { rx_queue_len: m.rx_queue_len, ..acc }),
        all_well_formed(
            uint_piece(1, m.rx_queue_len as u64),
        ),
{
    let piece = uint_piece(1, m.rx_queue_len as u64);
    if piece.len() != 0 {
        lemma_heartbeat_single(acc, WireField { number: 1, value: WireValue::Varint(m.rx_queue_len as u64) });
    }
}

proof fn lemma_heartbeat_step_tx_queue_len(acc: HeartbeatView, m: HeartbeatView)
    requires
        acc.tx_queue_len == 0,
    ensures
        heartbeat_with_fields(
            acc,
            uint_piece(2, m.tx_queue_len as u64),
        ) == Some(HeartbeatView { tx_queue_len: m.tx_queue_len, ..acc }),
        all_well_formed(
            uint_piece(2, m.tx_queue_len as u64),
        ),
{
    let piece = uint_piece(2, m.tx_queue_len as u64);
    if piece.len() != 0 {
        lemma_heartbeat_single(acc, WireField { number: 2, value: WireValue::Varint(m.tx_queue_len as u64) });
    }
}

proof fn lemma_heartbeat_step_dropped_frames(acc: HeartbeatView, m: HeartbeatView)
    requires
        acc.dropped_frames == 0,
    ensures
        heartbeat_with_fields(
            acc,
            uint_piece(3, m.dropped_frames),
        ) == Some(HeartbeatView { dropped_frames: m.dropped_frames, ..acc }),
        all_well_formed(
            uint_piece(3, m.dropped_frames),
        ),
{
    let piece = uint_piece(3, m.dropped_frames);
    if piece.len() != 0 {
        lemma_heartbeat_single(acc, WireField { number: 3, value: WireValue::Varint(m.dropped_frames) });
    }
}

/// Reading the fields of a `Heartbeat` into an empty one gives the message back, and
/// every one of those fields can be written.
pub proof fn lemma_heartbeat_fields_roundtrip(m: HeartbeatView)
    requires
        heartbeat_fits(m),
    ensures
        heartbeat_with_fields(heartbeat_zero(), heartbeat_fields(m)) == Some(m),
        all_well_formed(heartbeat_fields(m)),
{
    let a0 = heartbeat_zero();
    let p0 = uint_piece(1, m.rx_queue_len as u64);
    let a1 = HeartbeatView { rx_queue_len: m.rx_queue_len, ..a0 };
    lemma_heartbeat_step_rx_queue_len(a0, m);
    let d0 = p0;
    let p1 = uint_piece(2, m.tx_queue_len as u64);
    let a2 = HeartbeatView { tx_queue_len: m.tx_queue_len, ..a1 };
    lemma_heartbeat_step_tx_queue_len(a1, m);
    lemma_heartbeat_split(a0, d0, p1);
    lemma_all_well_formed_concat(d0, p1);
    let d1 = d0 + p1;
    let p2 = uint_piece(3, m.dropped_frames);
    let a3 = HeartbeatView { dropped_frames: m.dropped_frames, ..a2 };
    lemma_heartbeat_step_dropped_frames(a2, m);
    lemma_heartbeat_split(a0, d1, p2);
    lemma_all_well_formed_concat(d1, p2);
    let d2 = d1 + p2;
    assert(a3 == m);
}

/// Decoding an encoded `Heartbeat` gives the message back.
pub proof fn lemma_heartbeat_roundtrip(m: HeartbeatView)
    requires
        heartbeat_fits(m),
    ensures
        heartbeat_of_bytes(fields_bytes(heartbeat_fields(m))) == Some(m),
{
    lemma_heartbeat_fields_roundtrip(m);
    lemma_parse_fields_roundtrip(heartbeat_fields(m));
}

/// Whether every part of `m` is short enough for its length to be written in front
/// of it.
pub open spec fn time_sync_request_fits(m: TimeSyncRequestView) -> bool {
    true
}

proof fn lemma_time_sync_request_single(acc: TimeSyncRequestView, f: WireField)
    ensures
        time_sync_request_with_fields(acc, seq![f]) == time_sync_request_with_field(acc, f),
{
    reveal_with_fuel(time_sync_request_with_fields, 2);
    assert(seq![f].drop_first() =~= Seq::<WireField>::empty());
}

proof fn lemma_time_sync_request_split(acc: TimeSyncRequestView, a: Seq<WireField>, b: Seq<WireField>)
    ensures
        time_sync_request_with_fields(acc, a + b) == match time_sync_request_with_fields(acc, a) {
            Some(next) => time_sync_request_with_fields(next, b),
            None => None,
        },
    decreases a.len(),
{
    if a.len() == 0 {
        assert(a + b =~= b);
    } else {
        assert((a + b).first() == a.first());
        assert((a + b).drop_first() =~= a.drop_first() + b);
        match time_sync_request_with_field(acc, a.first()) {
            Some(next) => lemma_time_sync_request_split(next, a.drop_first(), b),
            None => {},
        }
    }
}

proof fn lemma_time_sync_request_step_t0_mono_ms(acc: TimeSyncRequestView, m: TimeSyncRequestView)
    requires
        acc.t0_mono_ms == 0,
    ensures
        time_sync_request_with_fields(
            acc,
            uint_piece(1, m.t0_mono_ms),
        ) == Some(TimeSyncRequestView { t0_mono_ms: m.t0_mono_ms, ..acc }),
        all_well_formed(
            uint_piece(1, m.t0_mono_ms),
        ),
{
    let piece = uint_piece(1, m.t0_mono_ms);
    if piece.len() != 0 {
        lemma_time_sync_request_single(acc, WireField { number: 1, value: WireValue::Varint(m.t0_mono_ms) });
    }
}

/// Reading the fields of a `TimeSyncRequest` into an empty one gives the message back, and
/// every one of those fields can be written.
pub proof fn lemma_time_sync_request_fields_roundtrip(m: TimeSyncRequestView)
    requires
        time_sync_request_fits(m),
    ensures
        time_sync_request_with_fields(time_sync_request_zero(), time_sync_request_fields(m)) == Some(m),
        all_well_formed(time_sync_request_fields(m)),
{
    let a0 = time_sync_request_zero();
    let p0 = uint_piece(1, m.t0_mono_ms);
    let a1 = TimeSyncRequestView { t0_mono_ms: m.t0_mono_ms, ..a0 };
    lemma_time_sync_request_step_t0_mono_ms(a0, m);
    let d0 = p0;
    assert(a1 == m);
}

/// Decoding an encoded `TimeSyncRequest` gives the message back.
pub proof fn lemma_time_sync_request_roundtrip(m: TimeSyncRequestView)
    requires
        time_sync_request_fits(m),
    ensures
        time_sync_request_of_bytes(fields_bytes(time_sync_request_fields(m))) == Some(m),
{
    lemma_time_sync_request_fields_roundtrip(m);
    lemma_parse_fields_roundtrip(time_sync_request_fields(m));
}

/// Whether every part of `m` is short enough for its length to be written in front
/// of it.
pub open spec fn time_sync_response_fits(m: TimeSyncResponseView) -> bool {
    true
}

proof fn lemma_time_sync_response_single(acc: TimeSyncResponseView, f: WireField)
    ensures
        time_sync_response_with_fields(acc, seq![f]) == time_sync_response_with_field(acc, f),
{
    reveal_with_fuel(time_sync_response_with_fields, 2);
    assert(seq![f].drop_first() =~= Seq::<WireField>::empty());
}

proof fn lemma_time_sync_response_split(acc: TimeSyncResponseView, a: Seq<WireField>, b: Seq<WireField>)
    ensures
        time_sync_response_with_fields(acc, a + b) == match time_sync_response_with_fields(acc, a) {
            Some(next) => time_sync_response_with_fields(next, b),
            None => None,
        },
    decreases a.len(),
{
    if a.len() == 0 {
        assert(a + b =~= b);
    } else {
        assert((a + b).first() == a.first());
        assert((a + b).drop_first() =~= a.drop_first() + b);
        match time_sync_response_with_field(acc, a.first()) {
            Some(next) => lemma_time_sync_response_split(next, a.drop_first(), b),
            None => {},
        }
    }
}

proof fn lemma_time_sync_response_step_t0_mono_ms(acc: TimeSyncResponseView, m: TimeSyncResponseView)
    requires
        acc.t0_mono_ms == 0,
    ensures
        time_sync_response_with_fields(
            acc,
            uint_piece(1, m.t0_mono_ms),
        ) == Some(TimeSyncResponseView { t0_mono_ms: m.t0_mono_ms, ..acc }),
        all_well_formed(
            uint_piece(1, m.t0_mono_ms),
        ),
{
    let piece = uint_piece(1, m.t0_mono_ms);
    if piece.len() != 0 {
        lemma_time_sync_response_single(acc, WireField { number: 1, value: WireValue::Varint(m.t0_mono_ms) });
    }
}

proof fn lemma_time_sync_response_step_t1_mono_ms(acc: TimeSyncResponseView, m: TimeSyncResponseView)
    requires
        acc.t1_mono_ms == 0,
    ensures
        time_sync_response_with_fields(
            acc,
            uint_piece(2, m.t1_mono_ms),
        ) == Some(TimeSyncResponseView { t1_mono_ms: m.t1_mono_ms, ..acc }),
        all_well_formed(
            uint_piece(2, m.t1_mono_ms),
        ),
{
    let piece = uint_piece(2, m.t1_mono_ms);
    if piece.len() != 0 {
        lemma_time_sync_response_single(acc, WireField { number: 2, value: WireValue::Varint(m.t1_mono_ms) });
    }
}

proof fn lemma_time_sync_response_step_t2_mono_ms(acc: TimeSyncResponseView, m: TimeSyncResponseView)
    requires
        acc.t2_mono_ms == 0,
    ensures
        time_sync_response_with_fields(
            acc,
            uint_piece(3, m.t2_mono_ms),
        ) == Some(TimeSyncResponseView { t2_mono_ms: m.t2_mono_ms, ..acc }),
        all_well_formed(
            uint_piece(3, m.t2_mono_ms),
        ),
{
    let piece = uint_piece(3, m.t2_mono_ms);
    if piece.len() != 0 {
        lemma_time_sync_response_single(acc, WireField { number: 3, value: WireValue::Varint(m.t2_mono_ms) });
    }
}

/// Reading the fields of a `TimeSyncResponse` into an empty one gives the message back, and
/// every one of those fields can be written.
pub proof fn lemma_time_sync_response_fields_roundtrip(m: TimeSyncResponseView)
    requires
        time_sync_response_fits(m),
    ensures
        time_sync_response_with_fields(time_sync_response_zero(), time_sync_response_fields(m)) == Some(m),
        all_well_formed(time_sync_response_fields(m)),
{
    let a0 = time_sync_response_zero();
    let p0 = uint_piece(1, m.t0_mono_ms);
    let a1 = TimeSyncResponseView { t0_mono_ms: m.t0_mono_ms, ..a0 };
    lemma_time_sync_response_step_t0_mono_ms(a0, m);
    let d0 = p0;
    let p1 = uint_piece(2, m.t1_mono_ms);
    let a2 = TimeSyncResponseView { t1_mono_ms: m.t1_mono_ms, ..a1 };
    lemma_time_sync_response_step_t1_mono_ms(a1, m);
    lemma_time_sync_response_split(a0, d0, p1);
    lemma_all_well_formed_concat(d0, p1);
    let d1 = d0 + p1;
    let p2 = uint_piece(3, m.t2_mono_ms);
    let a3 = TimeSyncResponseView { t2_mono_ms: m.t2_mono_ms, ..a2 };
    lemma_time_sync_response_step_t2_mono_ms(a2, m);
    lemma_time_sync_response_split(a0, d1, p2);
    lemma_all_well_formed_concat(d1, p2);
    let d2 = d1 + p2;
    assert(a3 == m);
}

/// Decoding an encoded `TimeSyncResponse` gives the message back.
pub proof fn lemma_time_sync_response_roundtrip(m: TimeSyncResponseView)
    requires
        time_sync_response_fits(m),
    ensures
        time_sync_response_of_bytes(fields_bytes(time_sync_response_fields(m))) == Some(m),
{
    lemma_time_sync_response_fields_roundtrip(m);
    lemma_parse_fields_roundtrip(time_sync_response_fields(m));
}

/// Whether every part of `m` is short enough for its length to be written in front
/// of it.
pub open spec fn baritone_goto_fits(m: BaritoneGotoView) -> bool {
    true
}

proof fn lemma_baritone_goto_single(acc: BaritoneGotoView, f: WireField)
    ensures
        baritone_goto_with_fields(acc, seq![f]) == baritone_goto_with_field(acc, f),
{
    reveal_with_fuel(baritone_goto_with_fields, 2);
    assert(seq![f].drop_first() =~= Seq::<WireField>::empty());
}

proof fn lemma_baritone_goto_split(acc: BaritoneGotoView, a: Seq<WireField>, b: Seq<WireField>)
    ensures
        baritone_goto_with_fields(acc, a + b) == match baritone_goto_with_fields(acc, a) {
            Some(next) => baritone_goto_with_fields(next, b),
            None => None,
        },
    decreases a.len(),
{
    if a.len() == 0 {
        assert(a + b =~= b);
    } else {
        assert((a + b).first() == a.first());
        assert((a + b).drop_first() =~= a.drop_first() + b);
        match baritone_goto_with_field(acc, a.first()) {
            Some(next) => lemma_baritone_goto_split(next, a.drop_first(), b),
            None => {},
        }
    }
}

proof fn lemma_baritone_goto_step_x_bits(acc: BaritoneGotoView, m: BaritoneGotoView)
    requires
        acc.x_bits == 0,
    ensures
        baritone_goto_with_fields(
            acc,
            fixed64_piece(1, m.x_bits),
        ) == Some(BaritoneGotoView { x_bits: m.x_bits, ..acc }),
        all_well_formed(
            fixed64_piece(1, m.x_bits),
        ),
{
    let piece = fixed64_piece(1, m.x_bits);
    if piece.len() != 0 {
        lemma_baritone_goto_single(acc, WireField { number: 1, value: WireValue::Fixed64(m.x_bits) });
    }
}

proof fn lemma_baritone_goto_step_y_bits(acc: BaritoneGotoView, m: BaritoneGotoView)
    requires
        acc.y_bits == 0,
    ensures
        baritone_goto_with_fields(
            acc,
            fixed64_piece(2, m.y_bits),
        ) == Some(BaritoneGotoView { y_bits: m.y_bits, ..acc }),
        all_well_formed(
            fixed64_piece(2, m.y_bits),
        ),
{
    let piece = fixed64_piece(2, m.y_bits);
    if piece.len() != 0 {
        lemma_baritone_goto_single(acc, WireField { number: 2, value: WireValue::Fixed64(m.y_bits) });
    }
}

proof fn lemma_baritone_goto_step_z_bits(acc: BaritoneGotoView, m: BaritoneGotoView)
    requires
        acc.z_bits == 0,
    ensures
        baritone_goto_with_fields(
            acc,
            fixed64_piece(3, m.z_bits),
        ) == Some(BaritoneGotoView { z_bits: m.z_bits, ..acc }),
        all_well_formed(
            fixed64_piece(3, m.z_bits),
        ),
{
    let piece = fixed64_piece(3, m.z_bits);
    if piece.len() != 0 {
        lemma_baritone_goto_single(acc, WireField { number: 3, value: WireValue::Fixed64(m.z_bits) });
    }
}

proof fn lemma_baritone_goto_step_max_distance(acc: BaritoneGotoView, m: BaritoneGotoView)
    requires
        acc.max_distance == 0,
    ensures
        baritone_goto_with_fields(
            acc,
            uint_piece(4, m.max_distance as u64),
        ) == Some(BaritoneGotoView { max_distance: m.max_distance, ..acc }),
        all_well_formed(
            uint_piece(4, m.max_distance as u64),
        ),
{
    let piece = uint_piece(4, m.max_distance as u64);
    if piece.len() != 0 {
        lemma_baritone_goto_single(acc, WireField { number: 4, value: WireValue::Varint(m.max_distance as u64) });
    }
}

proof fn lemma_baritone_goto_step_timeout_ms(acc: BaritoneGotoView, m: BaritoneGotoView)
    requires
        acc.timeout_ms == 0,
    ensures
        baritone_goto_with_fields(
            acc,
            uint_piece(5, m.timeout_ms),
        ) == Some(BaritoneGotoView { timeout_ms: m.timeout_ms, ..acc }),
        all_well_formed(
            uint_piece(5, m.timeout_ms),
        ),
{
    let piece = uint_piece(5, m.timeout_ms);
    if piece.len() != 0 {
        lemma_baritone_goto_single(acc, WireField { number: 5, value: WireValue::Varint(m.timeout_ms) });
    }
}

proof fn lemma_baritone_goto_step_stuck_timeout_ms(acc: BaritoneGotoView, m: BaritoneGotoView)
    requires
        acc.stuck_timeout_ms == 0,
    ensures
        baritone_goto_with_fields(
            acc,
            uint_piece(6, m.stuck_timeout_ms),
        ) == Some(BaritoneGotoView { stuck_timeout_ms: m.stuck_timeout_ms, ..acc }),
        all_well_formed(
            uint_piece(6, m.stuck_timeout_ms),
        ),
{
    let piece = uint_piece(6, m.stuck_timeout_ms);
    if piece.len() != 0 {
        lemma_baritone_goto_single(acc, WireField { number: 6, value: WireValue::Varint(m.stuck_timeout_ms) });
    }
}

/// Reading the fields of a `BaritoneGoto` into an empty one gives the message back, and
/// every one of those fields can be written.
pub proof fn lemma_baritone_goto_fields_roundtrip(m: BaritoneGotoView)
    requires
        baritone_goto_fits(m),
    ensures
        baritone_goto_with_fields(baritone_goto_zero(), baritone_goto_fields(m)) == Some(m),
        all_well_formed(baritone_goto_fields(m)),
{
    let a0 = baritone_goto_zero();
    let p0 = fixed64_piece(1, m.x_bits);
    let a1 = BaritoneGotoView { x_bits: m.x_bits, ..a0 };
    lemma_baritone_goto_step_x_bits(a0, m);
    let d0 = p0;
    let p1 = fixed64_piece(2, m.y_bits);
    let a2 = BaritoneGotoView { y_bits: m.y_bits, ..a1 };
    lemma_baritone_goto_step_y_bits(a1, m);
    lemma_baritone_goto_split(a0, d0, p1);
    lemma_all_well_formed_concat(d0, p1);
    let d1 = d0 + p1;
    let p2 = fixed64_piece(3, m.z_bits);
    let a3 = BaritoneGotoView { z_bits: m.z_bits, ..a2 };
    lemma_baritone_goto_step_z_bits(a2, m);
    lemma_baritone_goto_split(a0, d1, p2);
    lemma_all_well_formed_concat(d1, p2);
    let d2 = d1 + p2;
    let p3 = uint_piece(4, m.max_distance as u64);
    let a4 = BaritoneGotoView { max_distance: m.max_distance, ..a3 };
    lemma_baritone_goto_step_max_distance(a3, m);
    lemma_baritone_goto_split(a0, d2, p3);
    lemma_all_well_formed_concat(d2, p3);
    let d3 = d2 + p3;
    let p4 = uint_piece(5, m.timeout_ms);
    let a5 = BaritoneGotoView { timeout_ms: m.timeout_ms, ..a4 };
    lemma_baritone_goto_step_timeout_ms(a4, m);
    lemma_baritone_goto_split(a0, d3, p4);
    lemma_all_well_formed_concat(d3, p4);
    let d4 = d3 + p4;
    let p5 = uint_piece(6, m.stuck_timeout_ms);
    let a6 = BaritoneGotoView { stuck_timeout_ms: m.stuck_timeout_ms, ..a5 };
    lemma_baritone_goto_step_stuck_timeout_ms(a5, m);
    lemma_baritone_goto_split(a0, d4, p5);
    lemma_all_well_formed_concat(d4, p5);
    let d5 = d4 + p5;
    assert(a6 == m);
}

/// Decoding an encoded `BaritoneGoto` gives the message back.
pub proof fn lemma_baritone_goto_roundtrip(m: BaritoneGotoView)
    requires
        baritone_goto_fits(m),
    ensures
        baritone_goto_of_bytes(fields_bytes(baritone_goto_fields(m))) == Some(m),
{
    lemma_baritone_goto_fields_roundtrip(m);
    lemma_parse_fields_roundtrip(baritone_goto_fields(m));
}

/// Whether every part of `m` is short enough for its length to be written in front
/// of it.
pub open spec fn action_request_fits(m: ActionRequestView) -> bool {
    &&& encode_utf8(m.request_id).len() <= u64::MAX
    &&& encode_utf8(m.idempotency_key).len() <= u64::MAX
    &&& encode_utf8(m.target_agent_id).len() <= u64::MAX
    &&& match m.baritone_goto {
        Some(y) => baritone_goto_fits(y) && fields_bytes(baritone_goto_fields(y)).len() <= u64::MAX,
        None => true,
    }
}

proof fn lemma_action_request_single(acc: ActionRequestView, f: WireField)
    ensures
        action_request_with_fields(acc, seq![f]) == action_request_with_field(acc, f),
{
    reveal_with_fuel(action_request_with_fields, 2);
    assert(seq![f].drop_first() =~= Seq::<WireField>::empty());
}

proof fn lemma_action_request_split(acc: ActionRequestView, a: Seq<WireField>, b: Seq<WireField>)
    ensures
        action_request_with_fields(acc, a + b) == match action_request_with_fields(acc, a) {
            Some(next) => action_request_with_fields(next, b),
            None => None,
        },
    decreases a.len(),
{
    if a.len() == 0 {
        assert(a + b =~= b);
    } else {
        assert((a + b).first() == a.first());
        assert((a + b).drop_first() =~= a.drop_first() + b);
        match action_request_with_field(acc, a.first()) {
            Some(next) => lemma_action_request_split(next, a.drop_first(), b),
            None => {},
        }
    }
}

proof fn lemma_action_request_step_request_id(acc: ActionRequestView, m: ActionRequestView)
    requires
        acc.request_id == Seq::<char>::empty(),
        encode_utf8(m.request_id).len() <= u64::MAX,
    ensures
        action_request_with_fields(
            acc,
            text_piece(1, m.request_id),
        ) == Some(ActionRequestView { request_id: m.request_id, ..acc }),
        all_well_formed(
            text_piece(1, m.request_id),
        ),
{
    let piece = text_piece(1, m.request_id);
    lemma_text_roundtrip(m.request_id);
    if piece.len() != 0 {
        lemma_action_request_single(acc, WireField { number: 1, value: WireValue::Bytes(encode_utf8(m.request_id)) });
    }
}

proof fn lemma_action_request_step_expected_state_version(acc: ActionRequestView, m: ActionRequestView)
    requires
        acc.expected_state_version == 0,
    ensures
        action_request_with_fields(
            acc,
            uint_piece(2, m.expected_state_version),
        ) == Some(ActionRequestView { expected_state_version: m.expected_state_version, ..acc }),
        all_well_formed(
            uint_piece(2, m.expected_state_version),
        ),
{
    let piece = uint_piece(2, m.expected_state_version);
    if piece.len() != 0 {
        lemma_action_request_single(acc, WireField { number: 2, value: WireValue::Varint(m.expected_state_version) });
    }
}

proof fn lemma_action_request_step_action_type(acc: ActionRequestView, m: ActionRequestView)
    requires
        acc.action_type == 0,
    ensures
        action_request_with_fields(
            acc,
            int32_piece(3, m.action_type),
        ) == Some(ActionRequestView { action_type: m.action_type, ..acc }),
        all_well_formed(
            int32_piece(3, m.action_type),
        ),
{
    let piece = int32_piece(3, m.action_type);
    lemma_int32_wire_roundtrip(m.action_type);
    if piece.len() != 0 {
        lemma_action_request_single(acc, WireField { number: 3, value: WireValue::Varint(int32_to_wire(m.action_type)) });
    }
}

proof fn lemma_action_request_step_expires_at_unix_ms(acc: ActionRequestView, m: ActionRequestView)
    requires
        acc.expires_at_unix_ms == 0,
    ensures
        action_request_with_fields(
            acc,
            uint_piece(4, m.expires_at_unix_ms),
        ) == Some(ActionRequestView { expires_at_unix_ms: m.expires_at_unix_ms, ..acc }),
        all_well_formed(
            uint_piece(4, m.expires_at_unix_ms),
        ),
{
    let piece = uint_piece(4, m.expires_at_unix_ms);
    if piece.len() != 0 {
        lemma_action_request_single(acc, WireField { number: 4, value: WireValue::Varint(m.expires_at_unix_ms) });
    }
}

proof fn lemma_action_request_step_idempotency_key(acc: ActionRequestView, m: ActionRequestView)
    requires
        acc.idempotency_key == Seq::<char>::empty(),
        encode_utf8(m.idempotency_key).len() <= u64::MAX,
    ensures
        action_request_with_fields(
            acc,
            text_piece(5, m.idempotency_key),
        ) == Some(ActionRequestView { idempotency_key: m.idempotency_key, ..acc }),
        all_well_formed(
            text_piece(5, m.idempotency_key),
        ),
{
    let piece = text_piece(5, m.idempotency_key);
    lemma_text_roundtrip(m.idempotency_key);
    if piece.len() != 0 {
        lemma_action_request_single(acc, WireField { number: 5, value: WireValue::Bytes(encode_utf8(m.idempotency_key)) });
    }
}

proof fn lemma_action_request_step_target_agent_id(acc: ActionRequestView, m: ActionRequestView)
    requires
        acc.target_agent_id == Seq::<char>::empty(),
        encode_utf8(m.target_agent_id).len() <= u64::MAX,
    ensures
        action_request_with_fields(
            acc,
            text_piece(6, m.target_agent_id),
        ) == Some(ActionRequestView { target_agent_id: m.target_agent_id, ..acc }),
        all_well_formed(
            text_piece(6, m.target_agent_id),
        ),
{
    let piece = text_piece(6, m.target_agent_id);
    lemma_text_roundtrip(m.target_agent_id);
    if piece.len() != 0 {
        lemma_action_request_single(acc, WireField { number: 6, value: WireValue::Bytes(encode_utf8(m.target_agent_id)) });
    }
}

proof fn lemma_action_request_step_baritone_goto(acc: ActionRequestView, m: ActionRequestView)
    requires
        acc.baritone_goto is None,
        match m.baritone_goto {
            Some(y) => baritone_goto_fits(y) && fields_bytes(baritone_goto_fields(y)).len() <= u64::MAX,
            None => true,
        },
    ensures
        action_request_with_fields(
            acc,
            match m.baritone_goto {
                Some(x) => message_piece(8, fields_bytes(baritone_goto_fields(x))),
                None => Seq::empty(),
            },
        ) == Some(ActionRequestView { baritone_goto: m.baritone_goto, ..acc }),
        all_well_formed(
            match m.baritone_goto {
                Some(x) => message_piece(8, fields_bytes(baritone_goto_fields(x))),
                None => Seq::empty(),
            },
        ),
{
    match m.baritone_goto {
        Some(y) => {
            lemma_baritone_goto_roundtrip(y);
            lemma_action_request_single(
                acc,
                WireField { number: 8, value: WireValue::Bytes(fields_bytes(baritone_goto_fields(y))) },
            );
        },
        None => {},
    }
}

/// Reading the fields of a `ActionRequest` into an empty one gives the message back, and
/// every one of those fields can be written.
pub proof fn lemma_action_request_fields_roundtrip(m: ActionRequestView)
    requires
        action_request_fits(m),
    ensures
        action_request_with_fields(action_request_zero(), action_request_fields(m)) == Some(m),
        all_well_formed(action_request_fields(m)),
{
    let a0 = action_request_zero();
    let p0 = text_piece(1, m.request_id);
    let a1 = ActionRequestView { request_id: m.request_id, ..a0 };
    lemma_action_request_step_request_id(a0, m);
    let d0 = p0;
    let p1 = uint_piece(2, m.expected_state_version);
    let a2 = ActionRequestView { expected_state_version: m.expected_state_version, ..a1 };
    lemma_action_request_step_expected_state_version(a1, m);
    lemma_action_request_split(a0, d0, p1);
    lemma_all_well_formed_concat(d0, p1);
    let d1 = d0 + p1;
    let p2 = int32_piece(3, m.action_type);
    let a3 = ActionRequestView { action_type: m.action_type, ..a2 };
    lemma_action_request_step_action_type(a2, m);
    lemma_action_request_split(a0, d1, p2);
    lemma_all_well_formed_concat(d1, p2);
    let d2 = d1 + p2;
    let p3 = uint_piece(4, m.expires_at_unix_ms);
    let a4 = ActionRequestView { expires_at_unix_ms: m.expires_at_unix_ms, ..a3 };
    lemma_action_request_step_expires_at_unix_ms(a3, m);
    lemma_action_request_split(a0, d2, p3);
    lemma_all_well_formed_concat(d2, p3);
    let d3 = d2 + p3;
    let p4 = text_piece(5, m.idempotency_key);
    let a5 = ActionRequestView { idempotency_key: m.idempotency_key, ..a4 };
    lemma_action_request_step_idempotency_key(a4, m);
    lemma_action_request_split(a0, d3, p4);
    lemma_all_well_formed_concat(d3, p4);
    let d4 = d3 + p4;
    let p5 = text_piece(6, m.target_agent_id);
    let a6 = ActionRequestView { target_agent_id: m.target_agent_id, ..a5 };
    lemma_action_request_step_target_agent_id(a5, m);
    lemma_action_request_split(a0, d4, p5);
    lemma_all_well_formed_concat(d4, p5);
    let d5 = d4 + p5;
    let p6 = match m.baritone_goto {
        Some(x) => message_piece(8, fields_bytes(baritone_goto_fields(x))),
        None => Seq::empty(),
    };
    let a7 = ActionRequestView { baritone_goto: m.baritone_goto, ..a6 };
    lemma_action_request_step_baritone_goto(a6, m);
    lemma_action_request_split(a0, d5, p6);
    lemma_all_well_formed_concat(d5, p6);
    let d6 = d5 + p6;
    assert(a7 == m);
}

/// Decoding an encoded `ActionRequest` gives the message back.
pub proof fn lemma_action_request_roundtrip(m: ActionRequestView)
    requires
        action_request_fits(m),
    ensures
        action_request_of_bytes(fields_bytes(action_request_fields(m))) == Some(m),
{
    lemma_action_request_fields_roundtrip(m);
    lemma_parse_fields_roundtrip(action_request_fields(m));
}

/// Whether every part of `m` is short enough for its length to be written in front
/// of it.
pub open spec fn action_ack_fits(m: ActionAckView) -> bool {
    &&& encode_utf8(m.request_id).len() <= u64::MAX
    &&& encode_utf8(m.reason).len() <= u64::MAX
}

proof fn lemma_action_ack_single(acc: ActionAckView, f: WireField)
    ensures
        action_ack_with_fields(acc, seq![f]) == action_ack_with_field(acc, f),
{
    reveal_with_fuel(action_ack_with_fields, 2);
    assert(seq![f].drop_first() =~= Seq::<WireField>::empty());
}

proof fn lemma_action_ack_split(acc: ActionAckView, a: Seq<WireField>, b: Seq<WireField>)
    ensures
        action_ack_with_fields(acc, a + b) == match action_ack_with_fields(acc, a) {
            Some(next) => action_ack_with_fields(next, b),
            None => None,
        },
    decreases a.len(),
{
    if a.len() == 0 {
        assert(a + b =~= b);
    } else {
        assert((a + b).first() == a.first());
        assert((a + b).drop_first() =~= a.drop_first() + b);
        match action_ack_with_field(acc, a.first()) {
            Some(next) => lemma_action_ack_split(next, a.drop_first(), b),
            None => {},
        }
    }
}

proof fn lemma_action_ack_step_request_id(acc: ActionAckView, m: ActionAckView)
    requires
        acc.request_id == Seq::<char>::empty(),
        encode_utf8(m.request_id).len() <= u64::MAX,
    ensures
        action_ack_with_fields(
            acc,
            text_piece(1, m.request_id),
        ) == Some(ActionAckView { request_id: m.request_id, ..acc }),
        all_well_formed(
            text_piece(1, m.request_id),
        ),
{
    let piece = text_piece(1, m.request_id);
    lemma_text_roundtrip(m.request_id);
    if piece.len() != 0 {
        lemma_action_ack_single(acc, WireField { number: 1, value: WireValue::Bytes(encode_utf8(m.request_id)) });
    }
}

proof fn lemma_action_ack_step_accepted(acc: ActionAckView, m: ActionAckView)
    requires
        acc.accepted == false,
    ensures
        action_ack_with_fields(
            acc,
            bool_piece(2, m.accepted),
        ) == Some(ActionAckView { accepted: m.accepted, ..acc }),
        all_well_formed(
            bool_piece(2, m.accepted),
        ),
{
    let piece = bool_piece(2, m.accepted);
    if piece.len() != 0 {
        lemma_action_ack_single(acc, WireField { number: 2, value: WireValue::Varint((if m.accepted { 1u64 } else { 0u64 })) });
    }
}

proof fn lemma_action_ack_step_reason(acc: ActionAckView, m: ActionAckView)
    requires
        acc.reason == Seq::<char>::empty(),
        encode_utf8(m.reason).len() <= u64::MAX,
    ensures
        action_ack_with_fields(
            acc,
            text_piece(3, m.reason),
        ) == Some(ActionAckView { reason: m.reason, ..acc }),
        all_well_formed(
            text_piece(3, m.reason),
        ),
{
    let piece = text_piece(3, m.reason);
    lemma_text_roundtrip(m.reason);
    if piece.len() != 0 {
        lemma_action_ack_single(acc, WireField { number: 3, value: WireValue::Bytes(encode_utf8(m.reason)) });
    }
}

/// Reading the fields of a `ActionAck` into an empty one gives the message back, and
/// every one of those fields can be written.
pub proof fn lemma_action_ack_fields_roundtrip(m: ActionAckView)
    requires
        action_ack_fits(m),
    ensures
        action_ack_with_fields(action_ack_zero(), action_ack_fields(m)) == Some(m),
        all_well_formed(action_ack_fields(m)),
{
    let a0 = action_ack_zero();
    let p0 = text_piece(1, m.request_id);
    let a1 = ActionAckView { request_id: m.request_id, ..a0 };
    lemma_action_ack_step_request_id(a0, m);
    let d0 = p0;
    let p1 = bool_piece(2, m.accepted);
    let a2 = ActionAckView { accepted: m.accepted, ..a1 };
    lemma_action_ack_step_accepted(a1, m);
    lemma_action_ack_split(a0, d0, p1);
    lemma_all_well_formed_concat(d0, p1);
    let d1 = d0 + p1;
    let p2 = text_piece(3, m.reason);
    let a3 = ActionAckView { reason: m.reason, ..a2 };
    lemma_action_ack_step_reason(a2, m);
    lemma_action_ack_split(a0, d1, p2);
    lemma_all_well_formed_concat(d1, p2);
    let d2 = d1 + p2;
    assert(a3 == m);
}

/// Decoding an encoded `ActionAck` gives the message back.
pub proof fn lemma_action_ack_roundtrip(m: ActionAckView)
    requires
        action_ack_fits(m),
    ensures
        action_ack_of_bytes(fields_bytes(action_ack_fields(m))) == Some(m),
{
    lemma_action_ack_fields_roundtrip(m);
    lemma_parse_fields_roundtrip(action_ack_fields(m));
}

/// Whether every part of `m` is short enough for its length to be written in front
/// of it.
pub open spec fn action_result_fits(m: ActionResultView) -> bool {
    &&& encode_utf8(m.request_id).len() <= u64::MAX
    &&& encode_utf8(m.detail).len() <= u64::MAX
}

proof fn lemma_action_result_single(acc: ActionResultView, f: WireField)
    ensures
        action_result_with_fields(acc, seq![f]) == action_result_with_field(acc, f),
{
    reveal_with_fuel(action_result_with_fields, 2);
    assert(seq![f].drop_first() =~= Seq::<WireField>::empty());
}

proof fn lemma_action_result_split(acc: ActionResultView, a: Seq<WireField>, b: Seq<WireField>)
    ensures
        action_result_with_fields(acc, a + b) == match action_result_with_fields(acc, a) {
            Some(next) => action_result_with_fields(next, b),
            None => None,
        },
    decreases a.len(),
{
    if a.len() == 0 {
        assert(a + b =~= b);
    } else {
        assert((a + b).first() == a.first());
        assert((a + b).drop_first() =~= a.drop_first() + b);
        match action_result_with_field(acc, a.first()) {
            Some(next) => lemma_action_result_split(next, a.drop_first(), b),
            None => {},
        }
    }
}

proof fn lemma_action_result_step_request_id(acc: ActionResultView, m: ActionResultView)
    requires
        acc.request_id == Seq::<char>::empty(),
        encode_utf8(m.request_id).len() <= u64::MAX,
    ensures
        action_result_with_fields(
            acc,
            text_piece(1, m.request_id),
        ) == Some(ActionResultView { request_id: m.request_id, ..acc }),
        all_well_formed(
            text_piece(1, m.request_id),
        ),
{
    let piece = text_piece(1, m.request_id);
    lemma_text_roundtrip(m.request_id);
    if piece.len() != 0 {
        lemma_action_result_single(acc, WireField { number: 1, value: WireValue::Bytes(encode_utf8(m.request_id)) });
    }
}

proof fn lemma_action_result_step_status(acc: ActionResultView, m: ActionResultView)
    requires
        acc.status == 0,
    ensures
        action_result_with_fields(
            acc,
            int32_piece(2, m.status),
        ) == Some(ActionResultView { status: m.status, ..acc }),
        all_well_formed(
            int32_piece(2, m.status),
        ),
{
    let piece = int32_piece(2, m.status);
    lemma_int32_wire_roundtrip(m.status);
    if piece.len() != 0 {
        lemma_action_result_single(acc, WireField { number: 2, value: WireValue::Varint(int32_to_wire(m.status)) });
    }
}

proof fn lemma_action_result_step_detail(acc: ActionResultView, m: ActionResultView)
    requires
        acc.detail == Seq::<char>::empty(),
        encode_utf8(m.detail).len() <= u64::MAX,
    ensures
        action_result_with_fields(
            acc,
            text_piece(3, m.detail),
        ) == Some(ActionResultView { detail: m.detail, ..acc }),
        all_well_formed(
            text_piece(3, m.detail),
        ),
{
    let piece = text_piece(3, m.detail);
    lemma_text_roundtrip(m.detail);
    if piece.len() != 0 {
        lemma_action_result_single(acc, WireField { number: 3, value: WireValue::Bytes(encode_utf8(m.detail)) });
    }
}

proof fn lemma_action_result_step_final_state_version(acc: ActionResultView, m: ActionResultView)
    requires
        acc.final_state_version == 0,
    ensures
        action_result_with_fields(
            acc,
            uint_piece(4, m.final_state_version),
        ) == Some(ActionResultView { final_state_version: m.final_state_version, ..acc }),
        all_well_formed(
            uint_piece(4, m.final_state_version),
        ),
{
    let piece = uint_piece(4, m.final_state_version);
    if piece.len() != 0 {
        lemma_action_result_single(acc, WireField { number: 4, value: WireValue::Varint(m.final_state_version) });
    }
}

/// Reading the fields of a `ActionResult` into an empty one gives the message back, and
/// every one of those fields can be written.
pub proof fn lemma_action_result_fields_roundtrip(m: ActionResultView)
    requires
        action_result_fits(m),
    ensures
        action_result_with_fields(action_result_zero(), action_result_fields(m)) == Some(m),
        all_well_formed(action_result_fields(m)),
{
    let a0 = action_result_zero();
    let p0 = text_piece(1, m.request_id);
    let a1 = ActionResultView { request_id: m.request_id, ..a0 };
    lemma_action_result_step_request_id(a0, m);
    let d0 = p0;
    let p1 = int32_piece(2, m.status);
    let a2 = ActionResultView { status: m.status, ..a1 };
    lemma_action_result_step_status(a1, m);
    lemma_action_result_split(a0, d0, p1);
    lemma_all_well_formed_concat(d0, p1);
    let d1 = d0 + p1;
    let p2 = text_piece(3, m.detail);
    let a3 = ActionResultView { detail: m.detail, ..a2 };
    lemma_action_result_step_detail(a2, m);
    lemma_action_result_split(a0, d1, p2);
    lemma_all_well_formed_concat(d1, p2);
    let d2 = d1 + p2;
    let p3 = uint_piece(4, m.final_state_version);
    let a4 = ActionResultView { final_state_version: m.final_state_version, ..a3 };
    lemma_action_result_step_final_state_version(a3, m);
    lemma_action_result_split(a0, d2, p3);
    lemma_all_well_formed_concat(d2, p3);
    let d3 = d2 + p3;
    assert(a4 == m);
}

/// Decoding an encoded `ActionResult` gives the message back.
pub proof fn lemma_action_result_roundtrip(m: ActionResultView)
    requires
        action_result_fits(m),
    ensures
        action_result_of_bytes(fields_bytes(action_result_fields(m))) == Some(m),
{
    lemma_action_result_fields_roundtrip(m);
    lemma_parse_fields_roundtrip(action_result_fields(m));
}

/// Whether every part of `m` is short enough for its length to be written in front
/// of it.
pub open spec fn error_frame_fits(m: ErrorFrameView) -> bool {
    &&& encode_utf8(m.message).len() <= u64::MAX
    &&& encode_utf8(m.correlation_id).len() <= u64::MAX
}

proof fn lemma_error_frame_single(acc: ErrorFrameView, f: WireField)
    ensures
        error_frame_with_fields(acc, seq![f]) == error_frame_with_field(acc, f),
{
    reveal_with_fuel(error_frame_with_fields, 2);
    assert(seq![f].drop_first() =~= Seq::<WireField>::empty());
}

proof fn lemma_error_frame_split(acc: ErrorFrameView, a: Seq<WireField>, b: Seq<WireField>)
    ensures
        error_frame_with_fields(acc, a + b) == match error_frame_with_fields(acc, a) {
            Some(next) => error_frame_with_fields(next, b),
            None => None,
        },
    decreases a.len(),
{
    if a.len() == 0 {
        assert(a + b =~= b);
    } else {
        assert((a + b).first() == a.first());
        assert((a + b).drop_first() =~= a.drop_first() + b);
        match error_frame_with_field(acc, a.first()) {
            Some(next) => lemma_error_frame_split(next, a.drop_first(), b),
            None => {},
        }
    }
}

proof fn lemma_error_frame_step_code(acc: ErrorFrameView, m: ErrorFrameView)
    requires
        acc.code == 0,
    ensures
        error_frame_with_fields(
            acc,
            int32_piece(1, m.code),
        ) == Some(ErrorFrameView { code: m.code, ..acc }),
        all_well_formed(
            int32_piece(1, m.code),
        ),
{
    let piece = int32_piece(1, m.code);
    lemma_int32_wire_roundtrip(m.code);
    if piece.len() != 0 {
        lemma_error_frame_single(acc, WireField { number: 1, value: WireValue::Varint(int32_to_wire(m.code)) });
    }
}

proof fn lemma_error_frame_step_message(acc: ErrorFrameView, m: ErrorFrameView)
    requires
        acc.message == Seq::<char>::empty(),
        encode_utf8(m.message).len() <= u64::MAX,
    ensures
        error_frame_with_fields(
            acc,
            text_piece(2, m.message),
        ) == Some(ErrorFrameView { message: m.message, ..acc }),
        all_well_formed(
            text_piece(2, m.message),
        ),
{
    let piece = text_piece(2, m.message);
    lemma_text_roundtrip(m.message);
    if piece.len() != 0 {
        lemma_error_frame_single(acc, WireField { number: 2, value: WireValue::Bytes(encode_utf8(m.message)) });
    }
}

proof fn lemma_error_frame_step_correlation_id(acc: ErrorFrameView, m: ErrorFrameView)
    requires
        acc.correlation_id == Seq::<char>::empty(),
        encode_utf8(m.correlation_id).len() <= u64::MAX,
    ensures
        error_frame_with_fields(
            acc,
            text_piece(3, m.correlation_id),
        ) == Some(ErrorFrameView { correlation_id: m.correlation_id, ..acc }),
        all_well_formed(
            text_piece(3, m.correlation_id),
        ),
{
    let piece = text_piece(3, m.correlation_id);
    lemma_text_roundtrip(m.correlation_id);
    if piece.len() != 0 {
        lemma_error_frame_single(acc, WireField { number: 3, value: WireValue::Bytes(encode_utf8(m.correlation_id)) });
    }
}

/// Reading the fields of a `ErrorFrame` into an empty one gives the message back, and
/// every one of those fields can be written.
pub proof fn lemma_error_frame_fields_roundtrip(m: ErrorFrameView)
    requires
        error_frame_fits(m),
    ensures
        error_frame_with_fields(error_frame_zero(), error_frame_fields(m)) == Some(m),
        all_well_formed(error_frame_fields(m)),
{
    let a0 = error_frame_zero();
    let p0 = int32_piece(1, m.code);
    let a1 = ErrorFrameView { code: m.code, ..a0 };
    lemma_error_frame_step_code(a0, m);
    let d0 = p0;
    let p1 = text_piece(2, m.message);
    let a2 = ErrorFrameView { message: m.message, ..a1 };
    lemma_error_frame_step_message(a1, m);
    lemma_error_frame_split(a0, d0, p1);
    lemma_all_well_formed_concat(d0, p1);
    let d1 = d0 + p1;
    let p2 = text_piece(3, m.correlation_id);
    let a3 = ErrorFrameView { correlation_id: m.correlation_id, ..a2 };
    lemma_error_frame_step_correlation_id(a2, m);
    lemma_error_frame_split(a0, d1, p2);
    lemma_all_well_formed_concat(d1, p2);
    let d2 = d1 + p2;
    assert(a3 == m);
}

/// Decoding an encoded `ErrorFrame` gives the message back.
pub proof fn lemma_error_frame_roundtrip(m: ErrorFrameView)
    requires
        error_frame_fits(m),
    ensures
        error_frame_of_bytes(fields_bytes(error_frame_fields(m))) == Some(m),
{
    lemma_error_frame_fields_roundtrip(m);
    lemma_parse_fields_roundtrip(error_frame_fields(m));
}

/// Whether every part of `m` is short enough for its length to be written in front
/// of it.
pub open spec fn envelope_fits(m: EnvelopeView) -> bool {
    &&& encode_utf8(m.session_id).len() <= u64::MAX
    &&& match m.payload {
        Some(PayloadView::Hello(y)) => hello_fits(y) && fields_bytes(hello_fields(y)).len() <= u64::MAX,
        Some(PayloadView::HelloAck(y)) => hello_ack_fits(y) && fields_bytes(hello_ack_fields(y)).len() <= u64::MAX,
        Some(PayloadView::Telemetry(y)) => telemetry_frame_fits(y) && fields_bytes(telemetry_frame_fields(y)).len() <= u64::MAX,
        Some(PayloadView::Heartbeat(y)) => heartbeat_fits(y) && fields_bytes(heartbeat_fields(y)).len() <= u64::MAX,
        Some(PayloadView::TimeSyncReq(y)) => time_sync_request_fits(y) && fields_bytes(time_sync_request_fields(y)).len() <= u64::MAX,
        Some(PayloadView::TimeSyncRes(y)) => time_sync_response_fits(y) && fields_bytes(time_sync_response_fields(y)).len() <= u64::MAX,
        Some(PayloadView::ActionReq(y)) => action_request_fits(y) && fields_bytes(action_request_fields(y)).len() <= u64::MAX,
        Some(PayloadView::ActionAck(y)) => action_ack_fits(y) && fields_bytes(action_ack_fields(y)).len() <= u64::MAX,
        Some(PayloadView::ActionRes(y)) => action_result_fits(y) && fields_bytes(action_result_fields(y)).len() <= u64::MAX,
        Some(PayloadView::Error(y)) => error_frame_fits(y) && fields_bytes(error_frame_fields(y)).len() <= u64::MAX,
        None => true,
    }
}

proof fn lemma_envelope_single(acc: EnvelopeView, f: WireField)
    ensures
        envelope_with_fields(acc, seq![f]) == envelope_with_field(acc, f),
{
    reveal_with_fuel(envelope_with_fields, 2);
    assert(seq![f].drop_first() =~= Seq::<WireField>::empty());
}

proof fn lemma_envelope_split(acc: EnvelopeView, a: Seq<WireField>, b: Seq<WireField>)
    ensures
        envelope_with_fields(acc, a + b) == match envelope_with_fields(acc, a) {
            Some(next) => envelope_with_fields(next, b),
            None => None,
        },
    decreases a.len(),
{
    if a.len() == 0 {
        assert(a + b =~= b);
    } else {
        assert((a + b).first() == a.first());
        assert((a + b).drop_first() =~= a.drop_first() + b);
        match envelope_with_field(acc, a.first()) {
            Some(next) => lemma_envelope_split(next, a.drop_first(), b),
            None => {},
        }
    }
}

proof fn lemma_envelope_payload_step(acc: EnvelopeView, p: Option<PayloadView>)
    requires
        acc.payload is None,
        match p {
            Some(PayloadView::Hello(y)) => hello_fits(y) && fields_bytes(hello_fields(y)).len() <= u64::MAX,
            Some(PayloadView::HelloAck(y)) => hello_ack_fits(y) && fields_bytes(hello_ack_fields(y)).len() <= u64::MAX,
            Some(PayloadView::Telemetry(y)) => telemetry_frame_fits(y) && fields_bytes(telemetry_frame_fields(y)).len() <= u64::MAX,
            Some(PayloadView::Heartbeat(y)) => heartbeat_fits(y) && fields_bytes(heartbeat_fields(y)).len() <= u64::MAX,
            Some(PayloadView::TimeSyncReq(y)) => time_sync_request_fits(y) && fields_bytes(time_sync_request_fields(y)).len() <= u64::MAX,
            Some(PayloadView::TimeSyncRes(y)) => time_sync_response_fits(y) && fields_bytes(time_sync_response_fields(y)).len() <= u64::MAX,
            Some(PayloadView::ActionReq(y)) => action_request_fits(y) && fields_bytes(action_request_fields(y)).len() <= u64::MAX,
            Some(PayloadView::ActionAck(y)) => action_ack_fits(y) && fields_bytes(action_ack_fields(y)).len() <= u64::MAX,
            Some(PayloadView::ActionRes(y)) => action_result_fits(y) && fields_bytes(action_result_fields(y)).len() <= u64::MAX,
            Some(PayloadView::Error(y)) => error_frame_fits(y) && fields_bytes(error_frame_fields(y)).len() <= u64::MAX,
            None => true,
        },
    ensures
        envelope_with_fields(acc, payload_piece(p)) == Some(EnvelopeView { payload: p, ..acc }),
        all_well_formed(payload_piece(p)),
{
    match p {
        Some(PayloadView::Hello(y)) => {
            lemma_hello_roundtrip(y);
            lemma_envelope_single(
                acc,
                WireField { number: 10, value: WireValue::Bytes(fields_bytes(hello_fields(y))) },
            );
        },
        Some(PayloadView::HelloAck(y)) => {
            lemma_hello_ack_roundtrip(y);
            lemma_envelope_single(
                acc,
                WireField { number: 11, value: WireValue::Bytes(fields_bytes(hello_ack_fields(y))) },
            );
        },
        Some(PayloadView::Telemetry(y)) => {
            lemma_telemetry_frame_roundtrip(y);
            lemma_envelope_single(
                acc,
                WireField { number: 12, value: WireValue::Bytes(fields_bytes(telemetry_frame_fields(y))) },
            );
        },
        Some(PayloadView::Heartbeat(y)) => {
            lemma_heartbeat_roundtrip(y);
            lemma_envelope_single(
                acc,
                WireField { number: 13, value: WireValue::Bytes(fields_bytes(heartbeat_fields(y))) },
            );
        },
        Some(PayloadView::TimeSyncReq(y)) => {
            lemma_time_sync_request_roundtrip(y);
            lemma_envelope_single(
                acc,
                WireField { number: 14, value: WireValue::Bytes(fields_bytes(time_sync_request_fields(y))) },
            );
        },
        Some(PayloadView::TimeSyncRes(y)) => {
            lemma_time_sync_response_roundtrip(y);
            lemma_envelope_single(
                acc,
                WireField { number: 15, value: WireValue::Bytes(fields_bytes(time_sync_response_fields(y))) },
            );
        },
        Some(PayloadView::ActionReq(y)) => {
            lemma_action_request_roundtrip(y);
            lemma_envelope_single(
                acc,
                WireField { number: 16, value: WireValue::Bytes(fields_bytes(action_request_fields(y))) },
            );
        },
        Some(PayloadView::ActionAck(y)) => {
            lemma_action_ack_roundtrip(y);
            lemma_envelope_single(
                acc,
                WireField { number: 17, value: WireValue::Bytes(fields_bytes(action_ack_fields(y))) },
            );
        },
        Some(PayloadView::ActionRes(y)) => {
            lemma_action_result_roundtrip(y);
            lemma_envelope_single(
                acc,
                WireField { number: 18, value: WireValue::Bytes(fields_bytes(action_result_fields(y))) },
            );
        },
        Some(PayloadView::Error(y)) => {
            lemma_error_frame_roundtrip(y);
            lemma_envelope_single(
                acc,
                WireField { number: 19, value: WireValue::Bytes(fields_bytes(error_frame_fields(y))) },
            );
        },
        None => {},
    }
}

proof fn lemma_envelope_step_protocol_version(acc: EnvelopeView, m: EnvelopeView)
    requires
        acc.protocol_version == 0,
    ensures
        envelope_with_fields(
            acc,
            uint_piece(1, m.protocol_version as u64),
        ) == Some(EnvelopeView { protocol_version: m.protocol_version, ..acc }),
        all_well_formed(
            uint_piece(1, m.protocol_version as u64),
        ),
{
    let piece = uint_piece(1, m.protocol_version as u64);
    if piece.len() != 0 {
        lemma_envelope_single(acc, WireField { number: 1, value: WireValue::Varint(m.protocol_version as u64) });
    }
}

proof fn lemma_envelope_step_session_id(acc: EnvelopeView, m: EnvelopeView)
    requires
        acc.session_id == Seq::<char>::empty(),
        encode_utf8(m.session_id).len() <= u64::MAX,
    ensures
        envelope_with_fields(
            acc,
            text_piece(2, m.session_id),
        ) == Some(EnvelopeView { session_id: m.session_id, ..acc }),
        all_well_formed(
            text_piece(2, m.session_id),
        ),
{
    let piece = text_piece(2, m.session_id);
    lemma_text_roundtrip(m.session_id);
    if piece.len() != 0 {
        lemma_envelope_single(acc, WireField { number: 2, value: WireValue::Bytes(encode_utf8(m.session_id)) });
    }
}

proof fn lemma_envelope_step_seq(acc: EnvelopeView, m: EnvelopeView)
    requires
        acc.seq == 0,
    ensures
        envelope_with_fields(
            acc,
            uint_piece(3, m.seq),
        ) == Some(EnvelopeView { seq: m.seq, ..acc }),
        all_well_formed(
            uint_piece(3, m.seq),
        ),
{
    let piece = uint_piece(3, m.seq);
    if piece.len() != 0 {
        lemma_envelope_single(acc, WireField { number: 3, value: WireValue::Varint(m.seq) });
    }
}

proof fn lemma_envelope_step_ack(acc: EnvelopeView, m: EnvelopeView)
    requires
        acc.ack == 0,
    ensures
        envelope_with_fields(
            acc,
            uint_piece(4, m.ack),
        ) == Some(EnvelopeView { ack: m.ack, ..acc }),
        all_well_formed(
            uint_piece(4, m.ack),
        ),
{
    let piece = uint_piece(4, m.ack);
    if piece.len() != 0 {
        lemma_envelope_single(acc, WireField { number: 4, value: WireValue::Varint(m.ack) });
    }
}

proof fn lemma_envelope_step_mono_ms(acc: EnvelopeView, m: EnvelopeView)
    requires
        acc.mono_ms == 0,
    ensures
        envelope_with_fields(
            acc,
            uint_piece(5, m.mono_ms),
        ) == Some(EnvelopeView { mono_ms: m.mono_ms, ..acc }),
        all_well_formed(
            uint_piece(5, m.mono_ms),
        ),
{
    let piece = uint_piece(5, m.mono_ms);
    if piece.len() != 0 {
        lemma_envelope_single(acc, WireField { number: 5, value: WireValue::Varint(m.mono_ms) });
    }
}

proof fn lemma_envelope_step_wall_unix_ms(acc: EnvelopeView, m: EnvelopeView)
    requires
        acc.wall_unix_ms == 0,
    ensures
        envelope_with_fields(
            acc,
            uint_piece(6, m.wall_unix_ms),
        ) == Some(EnvelopeView { wall_unix_ms: m.wall_unix_ms, ..acc }),
        all_well_formed(
            uint_piece(6, m.wall_unix_ms),
        ),
{
    let piece = uint_piece(6, m.wall_unix_ms);
    if piece.len() != 0 {
        lemma_envelope_single(acc, WireField { number: 6, value: WireValue::Varint(m.wall_unix_ms) });
    }
}

/// Reading the fields of a `Envelope` into an empty one gives the message back, and
/// every one of those fields can be written.
pub proof fn lemma_envelope_fields_roundtrip(m: EnvelopeView)
    requires
        envelope_fits(m),
    ensures
        envelope_with_fields(envelope_zero(), envelope_fields(m)) == Some(m),
        all_well_formed(envelope_fields(m)),
{
    let a0 = envelope_zero();
    let p0 = uint_piece(1, m.protocol_version as u64);
    let a1 = EnvelopeView { protocol_version: m.protocol_version, ..a0 };
    lemma_envelope_step_protocol_version(a0, m);
    let d0 = p0;
    let p1 = text_piece(2, m.session_id);
    let a2 = EnvelopeView { session_id: m.session_id, ..a1 };
    lemma_envelope_step_session_id(a1, m);
    lemma_envelope_split(a0, d0, p1);
    lemma_all_well_formed_concat(d0, p1);
    let d1 = d0 + p1;
    let p2 = uint_piece(3, m.seq);
    let a3 = EnvelopeView { seq: m.seq, ..a2 };
    lemma_envelope_step_seq(a2, m);
    lemma_envelope_split(a0, d1, p2);
    lemma_all_well_formed_concat(d1, p2);
    let d2 = d1 + p2;
    let p3 = uint_piece(4, m.ack);
    let a4 = EnvelopeView { ack: m.ack, ..a3 };
    lemma_envelope_step_ack(a3, m);
    lemma_envelope_split(a0, d2, p3);
    lemma_all_well_formed_concat(d2, p3);
    let d3 = d2 + p3;
    let p4 = uint_piece(5, m.mono_ms);
    let a5 = EnvelopeView { mono_ms: m.mono_ms, ..a4 };
    lemma_envelope_step_mono_ms(a4, m);
    lemma_envelope_split(a0, d3, p4);
    lemma_all_well_formed_concat(d3, p4);
    let d4 = d3 + p4;
    let p5 = uint_piece(6, m.wall_unix_ms);
    let a6 = EnvelopeView { wall_unix_ms: m.wall_unix_ms, ..a5 };
    lemma_envelope_step_wall_unix_ms(a5, m);
    lemma_envelope_split(a0, d4, p5);
    lemma_all_well_formed_concat(d4, p5);
    let d5 = d4 + p5;
    let p6 = payload_piece(m.payload);
    let a7 = EnvelopeView { payload: m.payload, ..a6 };
    lemma_envelope_payload_step(a6, m.payload);
    lemma_envelope_split(a0, d5, p6);
    lemma_all_well_formed_concat(d5, p6);
    let d6 = d5 + p6;
    assert(a7 == m);
}

/// Decoding an encoded `Envelope` gives the message back.
pub proof fn lemma_envelope_roundtrip(m: EnvelopeView)
    requires
        envelope_fits(m),
    ensures
        envelope_of_bytes(fields_bytes(envelope_fields(m))) == Some(m),
{
    lemma_envelope_fields_roundtrip(m);
    lemma_parse_fields_roundtrip(envelope_fields(m));
}

} // verus!
