//! How each message of the protocol is laid out as fields, and how it is read back.
//!
//! Reading follows the rules of the format: fields may come in any order, a later
//! occurrence of a field replaces an earlier one, and repeated occurrences of a list or
//! of an embedded message are merged. Inside a message unknown fields are skipped; an
//! envelope with a field it does not know, such as a payload of an unknown kind, is
//! refused.

use crate::proto::{
    ActionAck, ActionAckView, ActionRequest, ActionRequestView, ActionResult, ActionResultView, BaritoneGoto,
    BaritoneGotoView, Envelope, EnvelopeView, ErrorFrame, ErrorFrameView, Heartbeat, HeartbeatView, Hello, HelloAck,
    HelloAckView, HelloView, Payload, PayloadView, TelemetryFrame, TelemetryFrameView, TimeSyncRequest,
    TimeSyncRequestView, TimeSyncResponse, TimeSyncResponseView,
};
use crate::wire::fields::{
    field_views, fields_bytes, lemma_fields_appended, parse_fields, read_fields, Field, Value, WireField,
    WireValue,
};
use crate::wire::scalar::{
    bool_piece, fixed64_piece, int32_piece, message_piece, packed_piece, parse_packed_int32, put_bool, put_fixed64,
    put_int32, put_message, put_packed, put_text, put_uint, text_of, text_piece, uint_piece, unpack_int32,
    utf8_to_string, wire_to_i32, wire_to_int32, wire_to_u32, wire_to_uint32,
};
use vstd::prelude::*;

verus! {

/// The fields of a `Hello`, in the order in which they are written.
pub open spec fn hello_fields(m: HelloView) -> Seq<WireField> {
    text_piece(1, m.agent_id)
        + int32_piece(2, m.role)
        + packed_piece(3, m.capabilities)
        + text_piece(4, m.client_version)
        + text_piece(5, m.handshake_id)
}

/// A `Hello` with every field at its default.
pub open spec fn hello_zero() -> HelloView {
    HelloView {
        agent_id: Seq::empty(),
        role: 0,
        capabilities: Seq::empty(),
        client_version: Seq::empty(),
        handshake_id: Seq::empty(),
    }
}

/// The message `acc` after the field `f` was read into it. A field this message does
/// not have is skipped; one of the wrong wire type or with malformed content is an
/// error.
pub open spec fn hello_with_field(acc: HelloView, f: WireField) -> Option<HelloView> {
    if f.number == 1 {
        match f.value {
            WireValue::Bytes(b) => match text_of(b) {
                Some(s) => Some(HelloView { agent_id: s, ..acc }),
                None => None,
            },
            _ => None,
        }
    } else if f.number == 2 {
        match f.value {
            WireValue::Varint(v) => Some(HelloView { role: wire_to_int32(v), ..acc }),
            _ => None,
        }
    } else if f.number == 3 {
        match f.value {
            WireValue::Bytes(b) => match parse_packed_int32(b) {
                Some(vs) => Some(HelloView { capabilities: acc.capabilities + vs, ..acc }),
                None => None,
            },
            WireValue::Varint(v) => Some(HelloView { capabilities: acc.capabilities.push(wire_to_int32(v)), ..acc }),
            _ => None,
        }
    } else if f.number == 4 {
        match f.value {
            WireValue::Bytes(b) => match text_of(b) {
                Some(s) => Some(HelloView { client_version: s, ..acc }),
                None => None,
            },
            _ => None,
        }
    } else if f.number == 5 {
        match f.value {
            WireValue::Bytes(b) => match text_of(b) {
                Some(s) => Some(HelloView { handshake_id: s, ..acc }),
                None => None,
            },
            _ => None,
        }
    } else {
        Some(acc)
    }
}

/// The message `acc` after the fields `fs` were read into it, in order.
pub open spec fn hello_with_fields(acc: HelloView, fs: Seq<WireField>) -> Option<HelloView>
    decreases fs.len(),
{
    if fs.len() == 0 {
        Some(acc)
    } else {
        match hello_with_field(acc, fs.first()) {
            Some(next) => hello_with_fields(next, fs.drop_first()),
            None => None,
        }
    }
}

/// The message `acc` after the encoded fields in `b` were read into it.
pub open spec fn hello_merged(acc: HelloView, b: Seq<u8>) -> Option<HelloView> {
    match parse_fields(b) {
        Some(fs) => hello_with_fields(acc, fs),
        None => None,
    }
}

/// The `Hello` that the bytes `b` encode, if they encode one.
pub open spec fn hello_of_bytes(b: Seq<u8>) -> Option<HelloView> {
    hello_merged(hello_zero(), b)
}

/// A `Hello` with every field at its default.
pub fn new_hello() -> (m: Hello)
    ensures
        m@ == hello_zero(),
{
    let m = Hello {
        agent_id: String::new(),
        role: 0,
        capabilities: Vec::new(),
        client_version: String::new(),
        handshake_id: String::new(),
    };
    proof {
        assert(m.agent_id@ =~= Seq::<char>::empty());
        assert(m.capabilities@ =~= Seq::<i32>::empty());
        assert(m.client_version@ =~= Seq::<char>::empty());
        assert(m.handshake_id@ =~= Seq::<char>::empty());
    }
    m
}

/// Appends the encoding of `m` to `out`.
pub fn encode_hello(out: &mut Vec<u8>, m: &Hello)
    ensures
        final(out)@ == old(out)@ + fields_bytes(hello_fields(m@)),
{
    put_text(out, 1, m.agent_id.as_str());
    let ghost mut done = text_piece(1, m@.agent_id);
    let ghost before = out@;
    put_int32(out, 2, m.role);
    proof {
        let more = int32_piece(2, m@.role);
        lemma_fields_appended(old(out)@, done, more, before, out@);
        done = done + more;
    }
    let ghost before = out@;
    put_packed(out, 3, &m.capabilities);
    proof {
        let more = packed_piece(3, m@.capabilities);
        lemma_fields_appended(old(out)@, done, more, before, out@);
        done = done + more;
    }
    let ghost before = out@;
    put_text(out, 4, m.client_version.as_str());
    proof {
        let more = text_piece(4, m@.client_version);
        lemma_fields_appended(old(out)@, done, more, before, out@);
        done = done + more;
    }
    let ghost before = out@;
    put_text(out, 5, m.handshake_id.as_str());
    proof {
        let more = text_piece(5, m@.handshake_id);
        lemma_fields_appended(old(out)@, done, more, before, out@);
        done = done + more;
    }
}

/// Reads the field `f` into `acc`. Gives `false`, with `acc` in an unspecified state,
/// where the field is malformed.
pub fn merge_hello_field(acc: &mut Hello, f: &Field) -> (ok: bool)
    ensures
        match hello_with_field(old(acc)@, f@) {
            Some(v) => ok && final(acc)@ == v,
            None => !ok,
        },
{
    if f.number == 1 {
        match &f.value {
            Value::Bytes(b) => match utf8_to_string(b) {
                Some(s) => {
                    acc.agent_id = s;
                    true
                },
                None => false,
            },
            _ => false,
        }
    } else if f.number == 2 {
        match &f.value {
            Value::Varint(v) => {
                acc.role = wire_to_i32(*v);
                true
            },
            _ => false,
        }
    } else if f.number == 3 {
        match &f.value {
            Value::Bytes(b) => unpack_int32(&mut acc.capabilities, b),
            Value::Varint(v) => {
                acc.capabilities.push(wire_to_i32(*v));
                true
            },
            _ => false,
        }
    } else if f.number == 4 {
        match &f.value {
            Value::Bytes(b) => match utf8_to_string(b) {
                Some(s) => {
                    acc.client_version = s;
                    true
                },
                None => false,
            },
            _ => false,
        }
    } else if f.number == 5 {
        match &f.value {
            Value::Bytes(b) => match utf8_to_string(b) {
                Some(s) => {
                    acc.handshake_id = s;
                    true
                },
                None => false,
            },
            _ => false,
        }
    } else {
        true
    }
}

/// Reads the encoded fields in `bytes` into `acc`. Gives `false`, with `acc` in an
/// unspecified state, where the bytes are malformed.
pub fn merge_hello(acc: &mut Hello, bytes: &[u8]) -> (ok: bool)
    ensures
        match hello_merged(old(acc)@, bytes@) {
            Some(v) => ok && final(acc)@ == v,
            None => !ok,
        },
{
    let fields = match read_fields(bytes) {
        Some(fs) => fs,
        None => {
            return false;
        },
    };
    let n: usize = fields.len();
    let mut i: usize = 0;
    proof {
        assert(field_views(fields@).skip(0) =~= field_views(fields@));
    }
    while i < n
        invariant
            n == fields@.len(),
            i <= n,
            parse_fields(bytes@) == Some(field_views(fields@)),
            hello_with_fields(old(acc)@, field_views(fields@)) == hello_with_fields(
                acc@,
                field_views(fields@).skip(i as int),
            ),
        decreases n - i,
    {
        proof {
            let rest = field_views(fields@).skip(i as int);
            assert(rest.first() == fields@[i as int]@);
            assert(rest.drop_first() =~= field_views(fields@).skip(i as int + 1));
        }
        if !merge_hello_field(acc, &fields[i]) {
            return false;
        }
        i += 1;
    }
    true
}

/// Decodes a `Hello`.
pub fn decode_hello(bytes: &[u8]) -> (r: Option<Hello>)
    ensures
        match hello_of_bytes(bytes@) {
            Some(v) => r is Some && r->0@ == v,
            None => r is None,
        },
{
    let mut m = new_hello();
    if merge_hello(&mut m, bytes) {
        Some(m)
    } else {
        None
    }
}

/// The fields of a `HelloAck`, in the order in which they are written.
pub open spec fn hello_ack_fields(m: HelloAckView) -> Seq<WireField> {
    text_piece(1, m.handshake_id)
        + bool_piece(2, m.accepted)
        + text_piece(3, m.reason)
        + packed_piece(4, m.negotiated_capabilities)
        + text_piece(5, m.server_version)
}

/// A `HelloAck` with every field at its default.
pub open spec fn hello_ack_zero() -> HelloAckView {
    HelloAckView {
        handshake_id: Seq::empty(),
        accepted: false,
        reason: Seq::empty(),
        negotiated_capabilities: Seq::empty(),
        server_version: Seq::empty(),
    }
}

/// The message `acc` after the field `f` was read into it. A field this message does
/// not have is skipped; one of the wrong wire type or with malformed content is an
/// error.
pub open spec fn hello_ack_with_field(acc: HelloAckView, f: WireField) -> Option<HelloAckView> {
    if f.number == 1 {
        match f.value {
            WireValue::Bytes(b) => match text_of(b) {
                Some(s) => Some(HelloAckView { handshake_id: s, ..acc }),
                None => None,
            },
            _ => None,
        }
    } else if f.number == 2 {
        match f.value {
            WireValue::Varint(v) => Some(HelloAckView { accepted: v != 0, ..acc }),
            _ => None,
        }
    } else if f.number == 3 {
        match f.value {
            WireValue::Bytes(b) => match text_of(b) {
                Some(s) => Some(HelloAckView { reason: s, ..acc }),
                None => None,
            },
            _ => None,
        }
    } else if f.number == 4 {
        match f.value {
            WireValue::Bytes(b) => match parse_packed_int32(b) {
                Some(vs) => Some(HelloAckView { negotiated_capabilities: acc.negotiated_capabilities + vs, ..acc }),
                None => None,
            },
            WireValue::Varint(v) => Some(HelloAckView { negotiated_capabilities: acc.negotiated_capabilities.push(wire_to_int32(v)), ..acc }),
            _ => None,
        }
    } else if f.number == 5 {
        match f.value {
            WireValue::Bytes(b) => match text_of(b) {
                Some(s) => Some(HelloAckView { server_version: s, ..acc }),
                None => None,
            },
            _ => None,
        }
    } else {
        Some(acc)
    }
}

/// The message `acc` after the fields `fs` were read into it, in order.
pub open spec fn hello_ack_with_fields(acc: HelloAckView, fs: Seq<WireField>) -> Option<HelloAckView>
    decreases fs.len(),
{
    if fs.len() == 0 {
        Some(acc)
    } else {
        match hello_ack_with_field(acc, fs.first()) {
            Some(next) => hello_ack_with_fields(next, fs.drop_first()),
            None => None,
        }
    }
}

/// The message `acc` after the encoded fields in `b` were read into it.
pub open spec fn hello_ack_merged(acc: HelloAckView, b: Seq<u8>) -> Option<HelloAckView> {
    match parse_fields(b) {
        Some(fs) => hello_ack_with_fields(acc, fs),
        None => None,
    }
}

/// The `HelloAck` that the bytes `b` encode, if they encode one.
pub open spec fn hello_ack_of_bytes(b: Seq<u8>) -> Option<HelloAckView> {
    hello_ack_merged(hello_ack_zero(), b)
}

/// A `HelloAck` with every field at its default.
pub fn new_hello_ack() -> (m: HelloAck)
    ensures
        m@ == hello_ack_zero(),
{
    let m = HelloAck {
        handshake_id: String::new(),
        accepted: false,
        reason: String::new(),
        negotiated_capabilities: Vec::new(),
        server_version: String::new(),
    };
    proof {
        assert(m.handshake_id@ =~= Seq::<char>::empty());
        assert(m.reason@ =~= Seq::<char>::empty());
        assert(m.negotiated_capabilities@ =~= Seq::<i32>::empty());
        assert(m.server_version@ =~= Seq::<char>::empty());
    }
    m
}

/// Appends the encoding of `m` to `out`.
pub fn encode_hello_ack(out: &mut Vec<u8>, m: &HelloAck)
    ensures
        final(out)@ == old(out)@ + fields_bytes(hello_ack_fields(m@)),
{
    put_text(out, 1, m.handshake_id.as_str());
    let ghost mut done = text_piece(1, m@.handshake_id);
    let ghost before = out@;
    put_bool(out, 2, m.accepted);
    proof {
        let more = bool_piece(2, m@.accepted);
        lemma_fields_appended(old(out)@, done, more, before, out@);
        done = done + more;
    }
    let ghost before = out@;
    put_text(out, 3, m.reason.as_str());
    proof {
        let more = text_piece(3, m@.reason);
        lemma_fields_appended(old(out)@, done, more, before, out@);
        done = done + more;
    }
    let ghost before = out@;
    put_packed(out, 4, &m.negotiated_capabilities);
    proof {
        let more = packed_piece(4, m@.negotiated_capabilities);
        lemma_fields_appended(old(out)@, done, more, before, out@);
        done = done + more;
    }
    let ghost before = out@;
    put_text(out, 5, m.server_version.as_str());
    proof {
        let more = text_piece(5, m@.server_version);
        lemma_fields_appended(old(out)@, done, more, before, out@);
        done = done + more;
    }
}

/// Reads the field `f` into `acc`. Gives `false`, with `acc` in an unspecified state,
/// where the field is malformed.
pub fn merge_hello_ack_field(acc: &mut HelloAck, f: &Field) -> (ok: bool)
    ensures
        match hello_ack_with_field(old(acc)@, f@) {
            Some(v) => ok && final(acc)@ == v,
            None => !ok,
        },
{
    if f.number == 1 {
        match &f.value {
            Value::Bytes(b) => match utf8_to_string(b) {
                Some(s) => {
                    acc.handshake_id = s;
                    true
                },
                None => false,
            },
            _ => false,
        }
    } else if f.number == 2 {
        match &f.value {
            Value::Varint(v) => {
                acc.accepted = *v != 0;
                true
            },
            _ => false,
        }
    } else if f.number == 3 {
        match &f.value {
            Value::Bytes(b) => match utf8_to_string(b) {
                Some(s) => {
                    acc.reason = s;
                    true
                },
                None => false,
            },
            _ => false,
        }
    } else if f.number == 4 {
        match &f.value {
            Value::Bytes(b) => unpack_int32(&mut acc.negotiated_capabilities, b),
            Value::Varint(v) => {
                acc.negotiated_capabilities.push(wire_to_i32(*v));
                true
            },
            _ => false,
        }
    } else if f.number == 5 {
        match &f.value {
            Value::Bytes(b) => match utf8_to_string(b) {
                Some(s) => {
                    acc.server_version = s;
                    true
                },
                None => false,
            },
            _ => false,
        }
    } else {
        true
    }
}

/// Reads the encoded fields in `bytes` into `acc`. Gives `false`, with `acc` in an
/// unspecified state, where the bytes are malformed.
pub fn merge_hello_ack(acc: &mut HelloAck, bytes: &[u8]) -> (ok: bool)
    ensures
        match hello_ack_merged(old(acc)@, bytes@) {
            Some(v) => ok && final(acc)@ == v,
            None => !ok,
        },
{
    let fields = match read_fields(bytes) {
        Some(fs) => fs,
        None => {
            return false;
        },
    };
    let n: usize = fields.len();
    let mut i: usize = 0;
    proof {
        assert(field_views(fields@).skip(0) =~= field_views(fields@));
    }
    while i < n
        invariant
            n == fields@.len(),
            i <= n,
            parse_fields(bytes@) == Some(field_views(fields@)),
            hello_ack_with_fields(old(acc)@, field_views(fields@)) == hello_ack_with_fields(
                acc@,
                field_views(fields@).skip(i as int),
            ),
        decreases n - i,
    {
        proof {
            let rest = field_views(fields@).skip(i as int);
            assert(rest.first() == fields@[i as int]@);
            assert(rest.drop_first() =~= field_views(fields@).skip(i as int + 1));
        }
        if !merge_hello_ack_field(acc, &fields[i]) {
            return false;
        }
        i += 1;
    }
    true
}

/// Decodes a `HelloAck`.
pub fn decode_hello_ack(bytes: &[u8]) -> (r: Option<HelloAck>)
    ensures
        match hello_ack_of_bytes(bytes@) {
            Some(v) => r is Some && r->0@ == v,
            None => r is None,
        },
{
    let mut m = new_hello_ack();
    if merge_hello_ack(&mut m, bytes) {
        Some(m)
    } else {
        None
    }
}

/// The fields of a `TelemetryFrame`, in the order in which they are written.
pub open spec fn telemetry_frame_fields(m: TelemetryFrameView) -> Seq<WireField> {
    uint_piece(1, m.state_version)
        + int32_piece(2, m.dimension)
        + uint_piece(3, m.hp as u64)
        + uint_piece(4, m.hunger as u64)
}

/// A `TelemetryFrame` with every field at its default.
pub open spec fn telemetry_frame_zero() -> TelemetryFrameView {
    TelemetryFrameView {
        state_version: 0,
        dimension: 0,
        hp: 0,
        hunger: 0,
    }
}

/// The message `acc` after the field `f` was read into it. A field this message does
/// not have is skipped; one of the wrong wire type or with malformed content is an
/// error.
pub open spec fn telemetry_frame_with_field(acc: TelemetryFrameView, f: WireField) -> Option<TelemetryFrameView> {
    if f.number == 1 {
        match f.value {
            WireValue::Varint(v) => Some(TelemetryFrameView { state_version: v, ..acc }),
            _ => None,
        }
    } else if f.number == 2 {
        match f.value {
            WireValue::Varint(v) => Some(TelemetryFrameView { dimension: wire_to_int32(v), ..acc }),
            _ => None,
        }
    } else if f.number == 3 {
        match f.value {
            WireValue::Varint(v) => Some(TelemetryFrameView { hp: wire_to_uint32(v), ..acc }),
            _ => None,
        }
    } else if f.number == 4 {
        match f.value {
            WireValue::Varint(v) => Some(TelemetryFrameView { hunger: wire_to_uint32(v), ..acc }),
            _ => None,
        }
    } else {
        Some(acc)
    }
}

/// The message `acc` after the fields `fs` were read into it, in order.
pub open spec fn telemetry_frame_with_fields(acc: TelemetryFrameView, fs: Seq<WireField>) -> Option<TelemetryFrameView>
    decreases fs.len(),
{
    if fs.len() == 0 {
        Some(acc)
    } else {
        match telemetry_frame_with_field(acc, fs.first()) {
            Some(next) => telemetry_frame_with_fields(next, fs.drop_first()),
            None => None,
        }
    }
}

/// The message `acc` after the encoded fields in `b` were read into it.
pub open spec fn telemetry_frame_merged(acc: TelemetryFrameView, b: Seq<u8>) -> Option<TelemetryFrameView> {
    match parse_fields(b) {
        Some(fs) => telemetry_frame_with_fields(acc, fs),
        None => None,
    }
}

/// The `TelemetryFrame` that the bytes `b` encode, if they encode one.
pub open spec fn telemetry_frame_of_bytes(b: Seq<u8>) -> Option<TelemetryFrameView> {
    telemetry_frame_merged(telemetry_frame_zero(), b)
}

/// A `TelemetryFrame` with every field at its default.
pub fn new_telemetry_frame() -> (m: TelemetryFrame)
    ensures
        m@ == telemetry_frame_zero(),
{
    let m = TelemetryFrame {
        state_version: 0,
        dimension: 0,
        hp: 0,
        hunger: 0,
    };
    proof {
    }
    m
}

/// Appends the encoding of `m` to `out`.
pub fn encode_telemetry_frame(out: &mut Vec<u8>, m: &TelemetryFrame)
    ensures
        final(out)@ == old(out)@ + fields_bytes(telemetry_frame_fields(m@)),
{
    put_uint(out, 1, m.state_version);
    let ghost mut done = uint_piece(1, m@.state_version);
    let ghost before = out@;
    put_int32(out, 2, m.dimension);
    proof {
        let more = int32_piece(2, m@.dimension);
        lemma_fields_appended(old(out)@, done, more, before, out@);
        done = done + more;
    }
    let ghost before = out@;
    put_uint(out, 3, m.hp as u64);
    proof {
        let more = uint_piece(3, m@.hp as u64);
        lemma_fields_appended(old(out)@, done, more, before, out@);
        done = done + more;
    }
    let ghost before = out@;
    put_uint(out, 4, m.hunger as u64);
    proof {
        let more = uint_piece(4, m@.hunger as u64);
        lemma_fields_appended(old(out)@, done, more, before, out@);
        done = done + more;
    }
}

/// Reads the field `f` into `acc`. Gives `false`, with `acc` in an unspecified state,
/// where the field is malformed.
pub fn merge_telemetry_frame_field(acc: &mut TelemetryFrame, f: &Field) -> (ok: bool)
    ensures
        match telemetry_frame_with_field(old(acc)@, f@) {
            Some(v) => ok && final(acc)@ == v,
            None => !ok,
        },
{
    if f.number == 1 {
        match &f.value {
            Value::Varint(v) => {
                acc.state_version = *v;
                true
            },
            _ => false,
        }
    } else if f.number == 2 {
        match &f.value {
            Value::Varint(v) => {
                acc.dimension = wire_to_i32(*v);
                true
            },
            _ => false,
        }
    } else if f.number == 3 {
        match &f.value {
            Value::Varint(v) => {
                acc.hp = wire_to_u32(*v);
                true
            },
            _ => false,
        }
    } else if f.number == 4 {
        match &f.value {
            Value::Varint(v) => {
                acc.hunger = wire_to_u32(*v);
                true
            },
            _ => false,
        }
    } else {
        true
    }
}

/// Reads the encoded fields in `bytes` into `acc`. Gives `false`, with `acc` in an
/// unspecified state, where the bytes are malformed.
pub fn merge_telemetry_frame(acc: &mut TelemetryFrame, bytes: &[u8]) -> (ok: bool)
    ensures
        match telemetry_frame_merged(old(acc)@, bytes@) {
            Some(v) => ok && final(acc)@ == v,
            None => !ok,
        },
{
    let fields = match read_fields(bytes) {
        Some(fs) => fs,
        None => {
            return false;
        },
    };
    let n: usize = fields.len();
    let mut i: usize = 0;
    proof {
        assert(field_views(fields@).skip(0) =~= field_views(fields@));
    }
    while i < n
        invariant
            n == fields@.len(),
            i <= n,
            parse_fields(bytes@) == Some(field_views(fields@)),
            telemetry_frame_with_fields(old(acc)@, field_views(fields@)) == telemetry_frame_with_fields(
                acc@,
                field_views(fields@).skip(i as int),
            ),
        decreases n - i,
    {
        proof {
            let rest = field_views(fields@).skip(i as int);
            assert(rest.first() == fields@[i as int]@);
            assert(rest.drop_first() =~= field_views(fields@).skip(i as int + 1));
        }
        if !merge_telemetry_frame_field(acc, &fields[i]) {
            return false;
        }
        i += 1;
    }
    true
}

/// Decodes a `TelemetryFrame`.
pub fn decode_telemetry_frame(bytes: &[u8]) -> (r: Option<TelemetryFrame>)
    ensures
        match telemetry_frame_of_bytes(bytes@) {
            Some(v) => r is Some && r->0@ == v,
            None => r is None,
        },
{
    let mut m = new_telemetry_frame();
    if merge_telemetry_frame(&mut m, bytes) {
        Some(m)
    } else {
        None
    }
}

/// The fields of a `Heartbeat`, in the order in which they are written.
pub open spec fn heartbeat_fields(m: HeartbeatView) -> Seq<WireField> {
    uint_piece(1, m.rx_queue_len as u64)
        + uint_piece(2, m.tx_queue_len as u64)
        + uint_piece(3, m.dropped_frames)
}

/// A `Heartbeat` with every field at its default.
pub open spec fn heartbeat_zero() -> HeartbeatView {
    HeartbeatView {
        rx_queue_len: 0,
        tx_queue_len: 0,
        dropped_frames: 0,
    }
}

/// The message `acc` after the field `f` was read into it. A field this message does
/// not have is skipped; one of the wrong wire type or with malformed content is an
/// error.
pub open spec fn heartbeat_with_field(acc: HeartbeatView, f: WireField) -> Option<HeartbeatView> {
    if f.number == 1 {
        match f.value {
            WireValue::Varint(v) => Some(HeartbeatView { rx_queue_len: wire_to_uint32(v), ..acc }),
            _ => None,
        }
    } else if f.number == 2 {
        match f.value {
            WireValue::Varint(v) => Some(HeartbeatView { tx_queue_len: wire_to_uint32(v), ..acc }),
            _ => None,
        }
    } else if f.number == 3 {
        match f.value {
            WireValue::Varint(v) => Some(HeartbeatView { dropped_frames: v, ..acc }),
            _ => None,
        }
    } else {
        Some(acc)
    }
}

/// The message `acc` after the fields `fs` were read into it, in order.
pub open spec fn heartbeat_with_fields(acc: HeartbeatView, fs: Seq<WireField>) -> Option<HeartbeatView>
    decreases fs.len(),
{
    if fs.len() == 0 {
        Some(acc)
    } else {
        match heartbeat_with_field(acc, fs.first()) {
            Some(next) => heartbeat_with_fields(next, fs.drop_first()),
            None => None,
        }
    }
}

/// The message `acc` after the encoded fields in `b` were read into it.
pub open spec fn heartbeat_merged(acc: HeartbeatView, b: Seq<u8>) -> Option<HeartbeatView> {
    match parse_fields(b) {
        Some(fs) => heartbeat_with_fields(acc, fs),
        None => None,
    }
}

/// The `Heartbeat` that the bytes `b` encode, if they encode one.
pub open spec fn heartbeat_of_bytes(b: Seq<u8>) -> Option<HeartbeatView> {
    heartbeat_merged(heartbeat_zero(), b)
}

/// A `Heartbeat` with every field at its default.
pub fn new_heartbeat() -> (m: Heartbeat)
    ensures
        m@ == heartbeat_zero(),
{
    let m = Heartbeat {
        rx_queue_len: 0,
        tx_queue_len: 0,
        dropped_frames: 0,
    };
    proof {
    }
    m
}

/// Appends the encoding of `m` to `out`.
pub fn encode_heartbeat(out: &mut Vec<u8>, m: &Heartbeat)
    ensures
        final(out)@ == old(out)@ + fields_bytes(heartbeat_fields(m@)),
{
    put_uint(out, 1, m.rx_queue_len as u64);
    let ghost mut done = uint_piece(1, m@.rx_queue_len as u64);
    let ghost before = out@;
    put_uint(out, 2, m.tx_queue_len as u64);
    proof {
        let more = uint_piece(2, m@.tx_queue_len as u64);
        lemma_fields_appended(old(out)@, done, more, before, out@);
        done = done + more;
    }
    let ghost before = out@;
    put_uint(out, 3, m.dropped_frames);
    proof {
        let more = uint_piece(3, m@.dropped_frames);
        lemma_fields_appended(old(out)@, done, more, before, out@);
        done = done + more;
    }
}

/// Reads the field `f` into `acc`. Gives `false`, with `acc` in an unspecified state,
/// where the field is malformed.
pub fn merge_heartbeat_field(acc: &mut Heartbeat, f: &Field) -> (ok: bool)
    ensures
        match heartbeat_with_field(old(acc)@, f@) {
            Some(v) => ok && final(acc)@ == v,
            None => !ok,
        },
{
    if f.number == 1 {
        match &f.value {
            Value::Varint(v) => {
                acc.rx_queue_len = wire_to_u32(*v);
                true
            },
            _ => false,
        }
    } else if f.number == 2 {
        match &f.value {
            Value::Varint(v) => {
                acc.tx_queue_len = wire_to_u32(*v);
                true
            },
            _ => false,
        }
    } else if f.number == 3 {
        match &f.value {
            Value::Varint(v) => {
                acc.dropped_frames = *v;
                true
            },
            _ => false,
        }
    } else {
        true
    }
}

/// Reads the encoded fields in `bytes` into `acc`. Gives `false`, with `acc` in an
/// unspecified state, where the bytes are malformed.
pub fn merge_heartbeat(acc: &mut Heartbeat, bytes: &[u8]) -> (ok: bool)
    ensures
        match heartbeat_merged(old(acc)@, bytes@) {
            Some(v) => ok && final(acc)@ == v,
            None => !ok,
        },
{
    let fields = match read_fields(bytes) {
        Some(fs) => fs,
        None => {
            return false;
        },
    };
    let n: usize = fields.len();
    let mut i: usize = 0;
    proof {
        assert(field_views(fields@).skip(0) =~= field_views(fields@));
    }
    while i < n
        invariant
            n == fields@.len(),
            i <= n,
            parse_fields(bytes@) == Some(field_views(fields@)),
            heartbeat_with_fields(old(acc)@, field_views(fields@)) == heartbeat_with_fields(
                acc@,
                field_views(fields@).skip(i as int),
            ),
        decreases n - i,
    {
        proof {
            let rest = field_views(fields@).skip(i as int);
            assert(rest.first() == fields@[i as int]@);
            assert(rest.drop_first() =~= field_views(fields@).skip(i as int + 1));
        }
        if !merge_heartbeat_field(acc, &fields[i]) {
            return false;
        }
        i += 1;
    }
    true
}

/// Decodes a `Heartbeat`.
pub fn decode_heartbeat(bytes: &[u8]) -> (r: Option<Heartbeat>)
    ensures
        match heartbeat_of_bytes(bytes@) {
            Some(v) => r is Some && r->0@ == v,
            None => r is None,
        },
{
    let mut m = new_heartbeat();
    if merge_heartbeat(&mut m, bytes) {
        Some(m)
    } else {
        None
    }
}

/// The fields of a `TimeSyncRequest`, in the order in which they are written.
pub open spec fn time_sync_request_fields(m: TimeSyncRequestView) -> Seq<WireField> {
    uint_piece(1, m.t0_mono_ms)
}

/// A `TimeSyncRequest` with every field at its default.
pub open spec fn time_sync_request_zero() -> TimeSyncRequestView {
    TimeSyncRequestView {
        t0_mono_ms: 0,
    }
}

/// The message `acc` after the field `f` was read into it. A field this message does
/// not have is skipped; one of the wrong wire type or with malformed content is an
/// error.
pub open spec fn time_sync_request_with_field(acc: TimeSyncRequestView, f: WireField) -> Option<TimeSyncRequestView> {
    if f.number == 1 {
        match f.value {
            WireValue::Varint(v) => Some(TimeSyncRequestView { t0_mono_ms: v, ..acc }),
            _ => None,
        }
    } else {
        Some(acc)
    }
}

/// The message `acc` after the fields `fs` were read into it, in order.
pub open spec fn time_sync_request_with_fields(acc: TimeSyncRequestView, fs: Seq<WireField>) -> Option<TimeSyncRequestView>
    decreases fs.len(),
{
    if fs.len() == 0 {
        Some(acc)
    } else {
        match time_sync_request_with_field(acc, fs.first()) {
            Some(next) => time_sync_request_with_fields(next, fs.drop_first()),
            None => None,
        }
    }
}

/// The message `acc` after the encoded fields in `b` were read into it.
pub open spec fn time_sync_request_merged(acc: TimeSyncRequestView, b: Seq<u8>) -> Option<TimeSyncRequestView> {
    match parse_fields(b) {
        Some(fs) => time_sync_request_with_fields(acc, fs),
        None => None,
    }
}

/// The `TimeSyncRequest` that the bytes `b` encode, if they encode one.
pub open spec fn time_sync_request_of_bytes(b: Seq<u8>) -> Option<TimeSyncRequestView> {
    time_sync_request_merged(time_sync_request_zero(), b)
}

/// A `TimeSyncRequest` with every field at its default.
pub fn new_time_sync_request() -> (m: TimeSyncRequest)
    ensures
        m@ == time_sync_request_zero(),
{
    let m = TimeSyncRequest {
        t0_mono_ms: 0,
    };
    proof {
    }
    m
}

/// Appends the encoding of `m` to `out`.
pub fn encode_time_sync_request(out: &mut Vec<u8>, m: &TimeSyncRequest)
    ensures
        final(out)@ == old(out)@ + fields_bytes(time_sync_request_fields(m@)),
{
    put_uint(out, 1, m.t0_mono_ms);
    let ghost mut done = uint_piece(1, m@.t0_mono_ms);
}

/// Reads the field `f` into `acc`. Gives `false`, with `acc` in an unspecified state,
/// where the field is malformed.
pub fn merge_time_sync_request_field(acc: &mut TimeSyncRequest, f: &Field) -> (ok: bool)
    ensures
        match time_sync_request_with_field(old(acc)@, f@) {
            Some(v) => ok && final(acc)@ == v,
            None => !ok,
        },
{
    if f.number == 1 {
        match &f.value {
            Value::Varint(v) => {
                acc.t0_mono_ms = *v;
                true
            },
            _ => false,
        }
    } else {
        true
    }
}

/// Reads the encoded fields in `bytes` into `acc`. Gives `false`, with `acc` in an
/// unspecified state, where the bytes are malformed.
pub fn merge_time_sync_request(acc: &mut TimeSyncRequest, bytes: &[u8]) -> (ok: bool)
    ensures
        match time_sync_request_merged(old(acc)@, bytes@) {
            Some(v) => ok && final(acc)@ == v,
            None => !ok,
        },
{
    let fields = match read_fields(bytes) {
        Some(fs) => fs,
        None => {
            return false;
        },
    };
    let n: usize = fields.len();
    let mut i: usize = 0;
    proof {
        assert(field_views(fields@).skip(0) =~= field_views(fields@));
    }
    while i < n
        invariant
            n == fields@.len(),
            i <= n,
            parse_fields(bytes@) == Some(field_views(fields@)),
            time_sync_request_with_fields(old(acc)@, field_views(fields@)) == time_sync_request_with_fields(
                acc@,
                field_views(fields@).skip(i as int),
            ),
        decreases n - i,
    {
        proof {
            let rest = field_views(fields@).skip(i as int);
            assert(rest.first() == fields@[i as int]@);
            assert(rest.drop_first() =~= field_views(fields@).skip(i as int + 1));
        }
        if !merge_time_sync_request_field(acc, &fields[i]) {
            return false;
        }
        i += 1;
    }
    true
}

/// Decodes a `TimeSyncRequest`.
pub fn decode_time_sync_request(bytes: &[u8]) -> (r: Option<TimeSyncRequest>)
    ensures
        match time_sync_request_of_bytes(bytes@) {
            Some(v) => r is Some && r->0@ == v,
            None => r is None,
        },
{
    let mut m = new_time_sync_request();
    if merge_time_sync_request(&mut m, bytes) {
        Some(m)
    } else {
        None
    }
}

/// The fields of a `TimeSyncResponse`, in the order in which they are written.
pub open spec fn time_sync_response_fields(m: TimeSyncResponseView) -> Seq<WireField> {
    uint_piece(1, m.t0_mono_ms)
        + uint_piece(2, m.t1_mono_ms)
        + uint_piece(3, m.t2_mono_ms)
}

/// A `TimeSyncResponse` with every field at its default.
pub open spec fn time_sync_response_zero() -> TimeSyncResponseView {
    TimeSyncResponseView {
        t0_mono_ms: 0,
        t1_mono_ms: 0,
        t2_mono_ms: 0,
    }
}

/// The message `acc` after the field `f` was read into it. A field this message does
/// not have is skipped; one of the wrong wire type or with malformed content is an
/// error.
pub open spec fn time_sync_response_with_field(acc: TimeSyncResponseView, f: WireField) -> Option<TimeSyncResponseView> {
    if f.number == 1 {
        match f.value {
            WireValue::Varint(v) => Some(TimeSyncResponseView { t0_mono_ms: v, ..acc }),
            _ => None,
        }
    } else if f.number == 2 {
        match f.value {
            WireValue::Varint(v) => Some(TimeSyncResponseView { t1_mono_ms: v, ..acc }),
            _ => None,
        }
    } else if f.number == 3 {
        match f.value {
            WireValue::Varint(v) => Some(TimeSyncResponseView { t2_mono_ms: v, ..acc }),
            _ => None,
        }
    } else {
        Some(acc)
    }
}

/// The message `acc` after the fields `fs` were read into it, in order.
pub open spec fn time_sync_response_with_fields(acc: TimeSyncResponseView, fs: Seq<WireField>) -> Option<TimeSyncResponseView>
    decreases fs.len(),
{
    if fs.len() == 0 {
        Some(acc)
    } else {
        match time_sync_response_with_field(acc, fs.first()) {
            Some(next) => time_sync_response_with_fields(next, fs.drop_first()),
            None => None,
        }
    }
}

/// The message `acc` after the encoded fields in `b` were read into it.
pub open spec fn time_sync_response_merged(acc: TimeSyncResponseView, b: Seq<u8>) -> Option<TimeSyncResponseView> {
    match parse_fields(b) {
        Some(fs) => time_sync_response_with_fields(acc, fs),
        None => None,
    }
}

/// The `TimeSyncResponse` that the bytes `b` encode, if they encode one.
pub open spec fn time_sync_response_of_bytes(b: Seq<u8>) -> Option<TimeSyncResponseView> {
    time_sync_response_merged(time_sync_response_zero(), b)
}

/// A `TimeSyncResponse` with every field at its default.
pub fn new_time_sync_response() -> (m: TimeSyncResponse)
    ensures
        m@ == time_sync_response_zero(),
{
    let m = TimeSyncResponse {
        t0_mono_ms: 0,
        t1_mono_ms: 0,
        t2_mono_ms: 0,
    };
    proof {
    }
    m
}

/// Appends the encoding of `m` to `out`.
pub fn encode_time_sync_response(out: &mut Vec<u8>, m: &TimeSyncResponse)
    ensures
        final(out)@ == old(out)@ + fields_bytes(time_sync_response_fields(m@)),
{
    put_uint(out, 1, m.t0_mono_ms);
    let ghost mut done = uint_piece(1, m@.t0_mono_ms);
    let ghost before = out@;
    put_uint(out, 2, m.t1_mono_ms);
    proof {
        let more = uint_piece(2, m@.t1_mono_ms);
        lemma_fields_appended(old(out)@, done, more, before, out@);
        done = done + more;
    }
    let ghost before = out@;
    put_uint(out, 3, m.t2_mono_ms);
    proof {
        let more = uint_piece(3, m@.t2_mono_ms);
        lemma_fields_appended(old(out)@, done, more, before, out@);
        done = done + more;
    }
}

/// Reads the field `f` into `acc`. Gives `false`, with `acc` in an unspecified state,
/// where the field is malformed.
pub fn merge_time_sync_response_field(acc: &mut TimeSyncResponse, f: &Field) -> (ok: bool)
    ensures
        match time_sync_response_with_field(old(acc)@, f@) {
            Some(v) => ok && final(acc)@ == v,
            None => !ok,
        },
{
    if f.number == 1 {
        match &f.value {
            Value::Varint(v) => {
                acc.t0_mono_ms = *v;
                true
            },
            _ => false,
        }
    } else if f.number == 2 {
        match &f.value {
            Value::Varint(v) => {
                acc.t1_mono_ms = *v;
                true
            },
            _ => false,
        }
    } else if f.number == 3 {
        match &f.value {
            Value::Varint(v) => {
                acc.t2_mono_ms = *v;
                true
            },
            _ => false,
        }
    } else {
        true
    }
}

/// Reads the encoded fields in `bytes` into `acc`. Gives `false`, with `acc` in an
/// unspecified state, where the bytes are malformed.
pub fn merge_time_sync_response(acc: &mut TimeSyncResponse, bytes: &[u8]) -> (ok: bool)
    ensures
        match time_sync_response_merged(old(acc)@, bytes@) {
            Some(v) => ok && final(acc)@ == v,
            None => !ok,
        },
{
    let fields = match read_fields(bytes) {
        Some(fs) => fs,
        None => {
            return false;
        },
    };
    let n: usize = fields.len();
    let mut i: usize = 0;
    proof {
        assert(field_views(fields@).skip(0) =~= field_views(fields@));
    }
    while i < n
        invariant
            n == fields@.len(),
            i <= n,
            parse_fields(bytes@) == Some(field_views(fields@)),
            time_sync_response_with_fields(old(acc)@, field_views(fields@)) == time_sync_response_with_fields(
                acc@,
                field_views(fields@).skip(i as int),
            ),
        decreases n - i,
    {
        proof {
            let rest = field_views(fields@).skip(i as int);
            assert(rest.first() == fields@[i as int]@);
            assert(rest.drop_first() =~= field_views(fields@).skip(i as int + 1));
        }
        if !merge_time_sync_response_field(acc, &fields[i]) {
            return false;
        }
        i += 1;
    }
    true
}

/// Decodes a `TimeSyncResponse`.
pub fn decode_time_sync_response(bytes: &[u8]) -> (r: Option<TimeSyncResponse>)
    ensures
        match time_sync_response_of_bytes(bytes@) {
            Some(v) => r is Some && r->0@ == v,
            None => r is None,
        },
{
    let mut m = new_time_sync_response();
    if merge_time_sync_response(&mut m, bytes) {
        Some(m)
    } else {
        None
    }
}

/// The fields of a `BaritoneGoto`, in the order in which they are written.
pub open spec fn baritone_goto_fields(m: BaritoneGotoView) -> Seq<WireField> {
    fixed64_piece(1, m.x_bits)
        + fixed64_piece(2, m.y_bits)
        + fixed64_piece(3, m.z_bits)
        + uint_piece(4, m.max_distance as u64)
        + uint_piece(5, m.timeout_ms)
        + uint_piece(6, m.stuck_timeout_ms)
}

/// A `BaritoneGoto` with every field at its default.
pub open spec fn baritone_goto_zero() -> BaritoneGotoView {
    BaritoneGotoView {
        x_bits: 0,
        y_bits: 0,
        z_bits: 0,
        max_distance: 0,
        timeout_ms: 0,
        stuck_timeout_ms: 0,
    }
}

/// The message `acc` after the field `f` was read into it. A field this message does
/// not have is skipped; one of the wrong wire type or with malformed content is an
/// error.
pub open spec fn baritone_goto_with_field(acc: BaritoneGotoView, f: WireField) -> Option<BaritoneGotoView> {
    if f.number == 1 {
        match f.value {
            WireValue::Fixed64(v) => Some(BaritoneGotoView { x_bits: v, ..acc }),
            _ => None,
        }
    } else if f.number == 2 {
        match f.value {
            WireValue::Fixed64(v) => Some(BaritoneGotoView { y_bits: v, ..acc }),
            _ => None,
        }
    } else if f.number == 3 {
        match f.value {
            WireValue::Fixed64(v) => Some(BaritoneGotoView { z_bits: v, ..acc }),
            _ => None,
        }
    } else if f.number == 4 {
        match f.value {
            WireValue::Varint(v) => Some(BaritoneGotoView { max_distance: wire_to_uint32(v), ..acc }),
            _ => None,
        }
    } else if f.number == 5 {
        match f.value {
            WireValue::Varint(v) => Some(BaritoneGotoView { timeout_ms: v, ..acc }),
            _ => None,
        }
    } else if f.number == 6 {
        match f.value {
            WireValue::Varint(v) => Some(BaritoneGotoView { stuck_timeout_ms: v, ..acc }),
            _ => None,
        }
    } else {
        Some(acc)
    }
}

/// The message `acc` after the fields `fs` were read into it, in order.
pub open spec fn baritone_goto_with_fields(acc: BaritoneGotoView, fs: Seq<WireField>) -> Option<BaritoneGotoView>
    decreases fs.len(),
{
    if fs.len() == 0 {
        Some(acc)
    } else {
        match baritone_goto_with_field(acc, fs.first()) {
            Some(next) => baritone_goto_with_fields(next, fs.drop_first()),
            None => None,
        }
    }
}

/// The message `acc` after the encoded fields in `b` were read into it.
pub open spec fn baritone_goto_merged(acc: BaritoneGotoView, b: Seq<u8>) -> Option<BaritoneGotoView> {
    match parse_fields(b) {
        Some(fs) => baritone_goto_with_fields(acc, fs),
        None => None,
    }
}

/// The `BaritoneGoto` that the bytes `b` encode, if they encode one.
pub open spec fn baritone_goto_of_bytes(b: Seq<u8>) -> Option<BaritoneGotoView> {
    baritone_goto_merged(baritone_goto_zero(), b)
}

/// A `BaritoneGoto` with every field at its default.
pub fn new_baritone_goto() -> (m: BaritoneGoto)
    ensures
        m@ == baritone_goto_zero(),
{
    let m = BaritoneGoto {
        x_bits: 0,
        y_bits: 0,
        z_bits: 0,
        max_distance: 0,
        timeout_ms: 0,
        stuck_timeout_ms: 0,
    };
    proof {
    }
    m
}

/// Appends the encoding of `m` to `out`.
pub fn encode_baritone_goto(out: &mut Vec<u8>, m: &BaritoneGoto)
    ensures
        final(out)@ == old(out)@ + fields_bytes(baritone_goto_fields(m@)),
{
    put_fixed64(out, 1, m.x_bits);
    let ghost mut done = fixed64_piece(1, m@.x_bits);
    let ghost before = out@;
    put_fixed64(out, 2, m.y_bits);
    proof {
        let more = fixed64_piece(2, m@.y_bits);
        lemma_fields_appended(old(out)@, done, more, before, out@);
        done = done + more;
    }
    let ghost before = out@;
    put_fixed64(out, 3, m.z_bits);
    proof {
        let more = fixed64_piece(3, m@.z_bits);
        lemma_fields_appended(old(out)@, done, more, before, out@);
        done = done + more;
    }
    let ghost before = out@;
    put_uint(out, 4, m.max_distance as u64);
    proof {
        let more = uint_piece(4, m@.max_distance as u64);
        lemma_fields_appended(old(out)@, done, more, before, out@);
        done = done + more;
    }
    let ghost before = out@;
    put_uint(out, 5, m.timeout_ms);
    proof {
        let more = uint_piece(5, m@.timeout_ms);
        lemma_fields_appended(old(out)@, done, more, before, out@);
        done = done + more;
    }
    let ghost before = out@;
    put_uint(out, 6, m.stuck_timeout_ms);
    proof {
        let more = uint_piece(6, m@.stuck_timeout_ms);
        lemma_fields_appended(old(out)@, done, more, before, out@);
        done = done + more;
    }
}

/// Reads the field `f` into `acc`. Gives `false`, with `acc` in an unspecified state,
/// where the field is malformed.
pub fn merge_baritone_goto_field(acc: &mut BaritoneGoto, f: &Field) -> (ok: bool)
    ensures
        match baritone_goto_with_field(old(acc)@, f@) {
            Some(v) => ok && final(acc)@ == v,
            None => !ok,
        },
{
    if f.number == 1 {
        match &f.value {
            Value::Fixed64(v) => {
                acc.x_bits = *v;
                true
            },
            _ => false,
        }
    } else if f.number == 2 {
        match &f.value {
            Value::Fixed64(v) => {
                acc.y_bits = *v;
                true
            },
            _ => false,
        }
    } else if f.number == 3 {
        match &f.value {
            Value::Fixed64(v) => {
                acc.z_bits = *v;
                true
            },
            _ => false,
        }
    } else if f.number == 4 {
        match &f.value {
            Value::Varint(v) => {
                acc.max_distance = wire_to_u32(*v);
                true
            },
            _ => false,
        }
    } else if f.number == 5 {
        match &f.value {
            Value::Varint(v) => {
                acc.timeout_ms = *v;
                true
            },
            _ => false,
        }
    } else if f.number == 6 {
        match &f.value {
            Value::Varint(v) => {
                acc.stuck_timeout_ms = *v;
                true
            },
            _ => false,
        }
    } else {
        true
    }
}

/// Reads the encoded fields in `bytes` into `acc`. Gives `false`, with `acc` in an
/// unspecified state, where the bytes are malformed.
pub fn merge_baritone_goto(acc: &mut BaritoneGoto, bytes: &[u8]) -> (ok: bool)
    ensures
        match baritone_goto_merged(old(acc)@, bytes@) {
            Some(v) => ok && final(acc)@ == v,
            None => !ok,
        },
{
    let fields = match read_fields(bytes) {
        Some(fs) => fs,
        None => {
            return false;
        },
    };
    let n: usize = fields.len();
    let mut i: usize = 0;
    proof {
        assert(field_views(fields@).skip(0) =~= field_views(fields@));
    }
    while i < n
        invariant
            n == fields@.len(),
            i <= n,
            parse_fields(bytes@) == Some(field_views(fields@)),
            baritone_goto_with_fields(old(acc)@, field_views(fields@)) == baritone_goto_with_fields(
                acc@,
                field_views(fields@).skip(i as int),
            ),
        decreases n - i,
    {
        proof {
            let rest = field_views(fields@).skip(i as int);
            assert(rest.first() == fields@[i as int]@);
            assert(rest.drop_first() =~= field_views(fields@).skip(i as int + 1));
        }
        if !merge_baritone_goto_field(acc, &fields[i]) {
            return false;
        }
        i += 1;
    }
    true
}

/// Decodes a `BaritoneGoto`.
pub fn decode_baritone_goto(bytes: &[u8]) -> (r: Option<BaritoneGoto>)
    ensures
        match baritone_goto_of_bytes(bytes@) {
            Some(v) => r is Some && r->0@ == v,
            None => r is None,
        },
{
    let mut m = new_baritone_goto();
    if merge_baritone_goto(&mut m, bytes) {
        Some(m)
    } else {
        None
    }
}

/// The fields of a `ActionRequest`, in the order in which they are written.
pub open spec fn action_request_fields(m: ActionRequestView) -> Seq<WireField> {
    text_piece(1, m.request_id)
        + uint_piece(2, m.expected_state_version)
        + int32_piece(3, m.action_type)
        + uint_piece(4, m.expires_at_unix_ms)
        + text_piece(5, m.idempotency_key)
        + text_piece(6, m.target_agent_id)
        + match m.baritone_goto {
            Some(x) => message_piece(8, fields_bytes(baritone_goto_fields(x))),
            None => Seq::empty(),
        }
}

/// A `ActionRequest` with every field at its default.
pub open spec fn action_request_zero() -> ActionRequestView {
    ActionRequestView {
        request_id: Seq::empty(),
        expected_state_version: 0,
        action_type: 0,
        expires_at_unix_ms: 0,
        idempotency_key: Seq::empty(),
        target_agent_id: Seq::empty(),
        baritone_goto: None,
    }
}

/// The message `acc` after the field `f` was read into it. A field this message does
/// not have is skipped; one of the wrong wire type or with malformed content is an
/// error.
pub open spec fn action_request_with_field(acc: ActionRequestView, f: WireField) -> Option<ActionRequestView> {
    if f.number == 1 {
        match f.value {
            WireValue::Bytes(b) => match text_of(b) {
                Some(s) => Some(ActionRequestView { request_id: s, ..acc }),
                None => None,
            },
            _ => None,
        }
    } else if f.number == 2 {
        match f.value {
            WireValue::Varint(v) => Some(ActionRequestView { expected_state_version: v, ..acc }),
            _ => None,
        }
    } else if f.number == 3 {
        match f.value {
            WireValue::Varint(v) => Some(ActionRequestView { action_type: wire_to_int32(v), ..acc }),
            _ => None,
        }
    } else if f.number == 4 {
        match f.value {
            WireValue::Varint(v) => Some(ActionRequestView { expires_at_unix_ms: v, ..acc }),
            _ => None,
        }
    } else if f.number == 5 {
        match f.value {
            WireValue::Bytes(b) => match text_of(b) {
                Some(s) => Some(ActionRequestView { idempotency_key: s, ..acc }),
                None => None,
            },
            _ => None,
        }
    } else if f.number == 6 {
        match f.value {
            WireValue::Bytes(b) => match text_of(b) {
                Some(s) => Some(ActionRequestView { target_agent_id: s, ..acc }),
                None => None,
            },
            _ => None,
        }
    } else if f.number == 8 {
        match f.value {
            WireValue::Bytes(b) => match baritone_goto_merged(
                match acc.baritone_goto {
                    Some(x) => x,
                    None => baritone_goto_zero(),
                },
                b,
            ) {
                Some(x) => Some(ActionRequestView { baritone_goto: Some(x), ..acc }),
                None => None,
            },
            _ => None,
        }
    } else {
        Some(acc)
    }
}

/// The message `acc` after the fields `fs` were read into it, in order.
pub open spec fn action_request_with_fields(acc: ActionRequestView, fs: Seq<WireField>) -> Option<ActionRequestView>
    decreases fs.len(),
{
    if fs.len() == 0 {
        Some(acc)
    } else {
        match action_request_with_field(acc, fs.first()) {
            Some(next) => action_request_with_fields(next, fs.drop_first()),
            None => None,
        }
    }
}

/// The message `acc` after the encoded fields in `b` were read into it.
pub open spec fn action_request_merged(acc: ActionRequestView, b: Seq<u8>) -> Option<ActionRequestView> {
    match parse_fields(b) {
        Some(fs) => action_request_with_fields(acc, fs),
        None => None,
    }
}

/// The `ActionRequest` that the bytes `b` encode, if they encode one.
pub open spec fn action_request_of_bytes(b: Seq<u8>) -> Option<ActionRequestView> {
    action_request_merged(action_request_zero(), b)
}

/// A `ActionRequest` with every field at its default.
pub fn new_action_request() -> (m: ActionRequest)
    ensures
        m@ == action_request_zero(),
{
    let m = ActionRequest {
        request_id: String::new(),
        expected_state_version: 0,
        action_type: 0,
        expires_at_unix_ms: 0,
        idempotency_key: String::new(),
        target_agent_id: String::new(),
        baritone_goto: None,
    };
    proof {
        assert(m.request_id@ =~= Seq::<char>::empty());
        assert(m.idempotency_key@ =~= Seq::<char>::empty());
        assert(m.target_agent_id@ =~= Seq::<char>::empty());
    }
    m
}

/// Appends the encoding of `m` to `out`.
pub fn encode_action_request(out: &mut Vec<u8>, m: &ActionRequest)
    ensures
        final(out)@ == old(out)@ + fields_bytes(action_request_fields(m@)),
{
    put_text(out, 1, m.request_id.as_str());
    let ghost mut done = text_piece(1, m@.request_id);
    let ghost before = out@;
    put_uint(out, 2, m.expected_state_version);
    proof {
        let more = uint_piece(2, m@.expected_state_version);
        lemma_fields_appended(old(out)@, done, more, before, out@);
        done = done + more;
    }
    let ghost before = out@;
    put_int32(out, 3, m.action_type);
    proof {
        let more = int32_piece(3, m@.action_type);
        lemma_fields_appended(old(out)@, done, more, before, out@);
        done = done + more;
    }
    let ghost before = out@;
    put_uint(out, 4, m.expires_at_unix_ms);
    proof {
        let more = uint_piece(4, m@.expires_at_unix_ms);
        lemma_fields_appended(old(out)@, done, more, before, out@);
        done = done + more;
    }
    let ghost before = out@;
    put_text(out, 5, m.idempotency_key.as_str());
    proof {
        let more = text_piece(5, m@.idempotency_key);
        lemma_fields_appended(old(out)@, done, more, before, out@);
        done = done + more;
    }
    let ghost before = out@;
    put_text(out, 6, m.target_agent_id.as_str());
    proof {
        let more = text_piece(6, m@.target_agent_id);
        lemma_fields_appended(old(out)@, done, more, before, out@);
        done = done + more;
    }
    let ghost before = out@;
    match &m.baritone_goto {
        Some(x) => {
            let mut body: Vec<u8> = Vec::new();
            encode_baritone_goto(&mut body, x);
            proof {
                assert(body@ =~= fields_bytes(baritone_goto_fields(x@)));
            }
            put_message(out, 8, body.as_slice());
        },
        None => {
            proof {
                assert(out@ =~= out@ + fields_bytes(Seq::<WireField>::empty()));
            }
        },
    }
    proof {
        let more = match m@.baritone_goto {
            Some(x) => message_piece(8, fields_bytes(baritone_goto_fields(x))),
            None => Seq::empty(),
        };
        lemma_fields_appended(old(out)@, done, more, before, out@);
        done = done + more;
    }
}

/// Reads the field `f` into `acc`. Gives `false`, with `acc` in an unspecified state,
/// where the field is malformed.
pub fn merge_action_request_field(acc: &mut ActionRequest, f: &Field) -> (ok: bool)
    ensures
        match action_request_with_field(old(acc)@, f@) {
            Some(v) => ok && final(acc)@ == v,
            None => !ok,
        },
{
    if f.number == 1 {
        match &f.value {
            Value::Bytes(b) => match utf8_to_string(b) {
                Some(s) => {
                    acc.request_id = s;
                    true
                },
                None => false,
            },
            _ => false,
        }
    } else if f.number == 2 {
        match &f.value {
            Value::Varint(v) => {
                acc.expected_state_version = *v;
                true
            },
            _ => false,
        }
    } else if f.number == 3 {
        match &f.value {
            Value::Varint(v) => {
                acc.action_type = wire_to_i32(*v);
                true
            },
            _ => false,
        }
    } else if f.number == 4 {
        match &f.value {
            Value::Varint(v) => {
                acc.expires_at_unix_ms = *v;
                true
            },
            _ => false,
        }
    } else if f.number == 5 {
        match &f.value {
            Value::Bytes(b) => match utf8_to_string(b) {
                Some(s) => {
                    acc.idempotency_key = s;
                    true
                },
                None => false,
            },
            _ => false,
        }
    } else if f.number == 6 {
        match &f.value {
            Value::Bytes(b) => match utf8_to_string(b) {
                Some(s) => {
                    acc.target_agent_id = s;
                    true
                },
                None => false,
            },
            _ => false,
        }
    } else if f.number == 8 {
        match &f.value {
            Value::Bytes(b) => {
                let mut inner = match &acc.baritone_goto {
                    Some(x) => x.clone(),
                    None => new_baritone_goto(),
                };
                if merge_baritone_goto(&mut inner, b) {
                    acc.baritone_goto = Some(inner);
                    true
                } else {
                    false
                }
            },
            _ => false,
        }
    } else {
        true
    }
}

/// Reads the encoded fields in `bytes` into `acc`. Gives `false`, with `acc` in an
/// unspecified state, where the bytes are malformed.
pub fn merge_action_request(acc: &mut ActionRequest, bytes: &[u8]) -> (ok: bool)
    ensures
        match action_request_merged(old(acc)@, bytes@) {
            Some(v) => ok && final(acc)@ == v,
            None => !ok,
        },
{
    let fields = match read_fields(bytes) {
        Some(fs) => fs,
        None => {
            return false;
        },
    };
    let n: usize = fields.len();
    let mut i: usize = 0;
    proof {
        assert(field_views(fields@).skip(0) =~= field_views(fields@));
    }
    while i < n
        invariant
            n == fields@.len(),
            i <= n,
            parse_fields(bytes@) == Some(field_views(fields@)),
            action_request_with_fields(old(acc)@, field_views(fields@)) == action_request_with_fields(
                acc@,
                field_views(fields@).skip(i as int),
            ),
        decreases n - i,
    {
        proof {
            let rest = field_views(fields@).skip(i as int);
            assert(rest.first() == fields@[i as int]@);
            assert(rest.drop_first() =~= field_views(fields@).skip(i as int + 1));
        }
        if !merge_action_request_field(acc, &fields[i]) {
            return false;
        }
        i += 1;
    }
    true
}

/// Decodes a `ActionRequest`.
pub fn decode_action_request(bytes: &[u8]) -> (r: Option<ActionRequest>)
    ensures
        match action_request_of_bytes(bytes@) {
            Some(v) => r is Some && r->0@ == v,
            None => r is None,
        },
{
    let mut m = new_action_request();
    if merge_action_request(&mut m, bytes) {
        Some(m)
    } else {
        None
    }
}

/// The fields of a `ActionAck`, in the order in which they are written.
pub open spec fn action_ack_fields(m: ActionAckView) -> Seq<WireField> {
    text_piece(1, m.request_id)
        + bool_piece(2, m.accepted)
        + text_piece(3, m.reason)
}

/// A `ActionAck` with every field at its default.
pub open spec fn action_ack_zero() -> ActionAckView {
    ActionAckView {
        request_id: Seq::empty(),
        accepted: false,
        reason: Seq::empty(),
    }
}

/// The message `acc` after the field `f` was read into it. A field this message does
/// not have is skipped; one of the wrong wire type or with malformed content is an
/// error.
pub open spec fn action_ack_with_field(acc: ActionAckView, f: WireField) -> Option<ActionAckView> {
    if f.number == 1 {
        match f.value {
            WireValue::Bytes(b) => match text_of(b) {
                Some(s) => Some(ActionAckView { request_id: s, ..acc }),
                None => None,
            },
            _ => None,
        }
    } else if f.number == 2 {
        match f.value {
            WireValue::Varint(v) => Some(ActionAckView { accepted: v != 0, ..acc }),
            _ => None,
        }
    } else if f.number == 3 {
        match f.value {
            WireValue::Bytes(b) => match text_of(b) {
                Some(s) => Some(ActionAckView { reason: s, ..acc }),
                None => None,
            },
            _ => None,
        }
    } else {
        Some(acc)
    }
}

/// The message `acc` after the fields `fs` were read into it, in order.
pub open spec fn action_ack_with_fields(acc: ActionAckView, fs: Seq<WireField>) -> Option<ActionAckView>
    decreases fs.len(),
{
    if fs.len() == 0 {
        Some(acc)
    } else {
        match action_ack_with_field(acc, fs.first()) {
            Some(next) => action_ack_with_fields(next, fs.drop_first()),
            None => None,
        }
    }
}

/// The message `acc` after the encoded fields in `b` were read into it.
pub open spec fn action_ack_merged(acc: ActionAckView, b: Seq<u8>) -> Option<ActionAckView> {
    match parse_fields(b) {
        Some(fs) => action_ack_with_fields(acc, fs),
        None => None,
    }
}

/// The `ActionAck` that the bytes `b` encode, if they encode one.
pub open spec fn action_ack_of_bytes(b: Seq<u8>) -> Option<ActionAckView> {
    action_ack_merged(action_ack_zero(), b)
}

/// A `ActionAck` with every field at its default.
pub fn new_action_ack() -> (m: ActionAck)
    ensures
        m@ == action_ack_zero(),
{
    let m = ActionAck {
        request_id: String::new(),
        accepted: false,
        reason: String::new(),
    };
    proof {
        assert(m.request_id@ =~= Seq::<char>::empty());
        assert(m.reason@ =~= Seq::<char>::empty());
    }
    m
}

/// Appends the encoding of `m` to `out`.
pub fn encode_action_ack(out: &mut Vec<u8>, m: &ActionAck)
    ensures
        final(out)@ == old(out)@ + fields_bytes(action_ack_fields(m@)),
{
    put_text(out, 1, m.request_id.as_str());
    let ghost mut done = text_piece(1, m@.request_id);
    let ghost before = out@;
    put_bool(out, 2, m.accepted);
    proof {
        let more = bool_piece(2, m@.accepted);
        lemma_fields_appended(old(out)@, done, more, before, out@);
        done = done + more;
    }
    let ghost before = out@;
    put_text(out, 3, m.reason.as_str());
    proof {
        let more = text_piece(3, m@.reason);
        lemma_fields_appended(old(out)@, done, more, before, out@);
        done = done + more;
    }
}

/// Reads the field `f` into `acc`. Gives `false`, with `acc` in an unspecified state,
/// where the field is malformed.
pub fn merge_action_ack_field(acc: &mut ActionAck, f: &Field) -> (ok: bool)
    ensures
        match action_ack_with_field(old(acc)@, f@) {
            Some(v) => ok && final(acc)@ == v,
            None => !ok,
        },
{
    if f.number == 1 {
        match &f.value {
            Value::Bytes(b) => match utf8_to_string(b) {
                Some(s) => {
                    acc.request_id = s;
                    true
                },
                None => false,
            },
            _ => false,
        }
    } else if f.number == 2 {
        match &f.value {
            Value::Varint(v) => {
                acc.accepted = *v != 0;
                true
            },
            _ => false,
        }
    } else if f.number == 3 {
        match &f.value {
            Value::Bytes(b) => match utf8_to_string(b) {
                Some(s) => {
                    acc.reason = s;
                    true
                },
                None => false,
            },
            _ => false,
        }
    } else {
        true
    }
}

/// Reads the encoded fields in `bytes` into `acc`. Gives `false`, with `acc` in an
/// unspecified state, where the bytes are malformed.
pub fn merge_action_ack(acc: &mut ActionAck, bytes: &[u8]) -> (ok: bool)
    ensures
        match action_ack_merged(old(acc)@, bytes@) {
            Some(v) => ok && final(acc)@ == v,
            None => !ok,
        },
{
    let fields = match read_fields(bytes) {
        Some(fs) => fs,
        None => {
            return false;
        },
    };
    let n: usize = fields.len();
    let mut i: usize = 0;
    proof {
        assert(field_views(fields@).skip(0) =~= field_views(fields@));
    }
    while i < n
        invariant
            n == fields@.len(),
            i <= n,
            parse_fields(bytes@) == Some(field_views(fields@)),
            action_ack_with_fields(old(acc)@, field_views(fields@)) == action_ack_with_fields(
                acc@,
                field_views(fields@).skip(i as int),
            ),
        decreases n - i,
    {
        proof {
            let rest = field_views(fields@).skip(i as int);
            assert(rest.first() == fields@[i as int]@);
            assert(rest.drop_first() =~= field_views(fields@).skip(i as int + 1));
        }
        if !merge_action_ack_field(acc, &fields[i]) {
            return false;
        }
        i += 1;
    }
    true
}

/// Decodes a `ActionAck`.
pub fn decode_action_ack(bytes: &[u8]) -> (r: Option<ActionAck>)
    ensures
        match action_ack_of_bytes(bytes@) {
            Some(v) => r is Some && r->0@ == v,
            None => r is None,
        },
{
    let mut m = new_action_ack();
    if merge_action_ack(&mut m, bytes) {
        Some(m)
    } else {
        None
    }
}

/// The fields of a `ActionResult`, in the order in which they are written.
pub open spec fn action_result_fields(m: ActionResultView) -> Seq<WireField> {
    text_piece(1, m.request_id)
        + int32_piece(2, m.status)
        + text_piece(3, m.detail)
        + uint_piece(4, m.final_state_version)
}

/// A `ActionResult` with every field at its default.
pub open spec fn action_result_zero() -> ActionResultView {
    ActionResultView {
        request_id: Seq::empty(),
        status: 0,
        detail: Seq::empty(),
        final_state_version: 0,
    }
}

/// The message `acc` after the field `f` was read into it. A field this message does
/// not have is skipped; one of the wrong wire type or with malformed content is an
/// error.
pub open spec fn action_result_with_field(acc: ActionResultView, f: WireField) -> Option<ActionResultView> {
    if f.number == 1 {
        match f.value {
            WireValue::Bytes(b) => match text_of(b) {
                Some(s) => Some(ActionResultView { request_id: s, ..acc }),
                None => None,
            },
            _ => None,
        }
    } else if f.number == 2 {
        match f.value {
            WireValue::Varint(v) => Some(ActionResultView { status: wire_to_int32(v), ..acc }),
            _ => None,
        }
    } else if f.number == 3 {
        match f.value {
            WireValue::Bytes(b) => match text_of(b) {
                Some(s) => Some(ActionResultView { detail: s, ..acc }),
                None => None,
            },
            _ => None,
        }
    } else if f.number == 4 {
        match f.value {
            WireValue::Varint(v) => Some(ActionResultView { final_state_version: v, ..acc }),
            _ => None,
        }
    } else {
        Some(acc)
    }
}

/// The message `acc` after the fields `fs` were read into it, in order.
pub open spec fn action_result_with_fields(acc: ActionResultView, fs: Seq<WireField>) -> Option<ActionResultView>
    decreases fs.len(),
{
    if fs.len() == 0 {
        Some(acc)
    } else {
        match action_result_with_field(acc, fs.first()) {
            Some(next) => action_result_with_fields(next, fs.drop_first()),
            None => None,
        }
    }
}

/// The message `acc` after the encoded fields in `b` were read into it.
pub open spec fn action_result_merged(acc: ActionResultView, b: Seq<u8>) -> Option<ActionResultView> {
    match parse_fields(b) {
        Some(fs) => action_result_with_fields(acc, fs),
        None => None,
    }
}

/// The `ActionResult` that the bytes `b` encode, if they encode one.
pub open spec fn action_result_of_bytes(b: Seq<u8>) -> Option<ActionResultView> {
    action_result_merged(action_result_zero(), b)
}

/// A `ActionResult` with every field at its default.
pub fn new_action_result() -> (m: ActionResult)
    ensures
        m@ == action_result_zero(),
{
    let m = ActionResult {
        request_id: String::new(),
        status: 0,
        detail: String::new(),
        final_state_version: 0,
    };
    proof {
        assert(m.request_id@ =~= Seq::<char>::empty());
        assert(m.detail@ =~= Seq::<char>::empty());
    }
    m
}

/// Appends the encoding of `m` to `out`.
pub fn encode_action_result(out: &mut Vec<u8>, m: &ActionResult)
    ensures
        final(out)@ == old(out)@ + fields_bytes(action_result_fields(m@)),
{
    put_text(out, 1, m.request_id.as_str());
    let ghost mut done = text_piece(1, m@.request_id);
    let ghost before = out@;
    put_int32(out, 2, m.status);
    proof {
        let more = int32_piece(2, m@.status);
        lemma_fields_appended(old(out)@, done, more, before, out@);
        done = done + more;
    }
    let ghost before = out@;
    put_text(out, 3, m.detail.as_str());
    proof {
        let more = text_piece(3, m@.detail);
        lemma_fields_appended(old(out)@, done, more, before, out@);
        done = done + more;
    }
    let ghost before = out@;
    put_uint(out, 4, m.final_state_version);
    proof {
        let more = uint_piece(4, m@.final_state_version);
        lemma_fields_appended(old(out)@, done, more, before, out@);
        done = done + more;
    }
}

/// Reads the field `f` into `acc`. Gives `false`, with `acc` in an unspecified state,
/// where the field is malformed.
pub fn merge_action_result_field(acc: &mut ActionResult, f: &Field) -> (ok: bool)
    ensures
        match action_result_with_field(old(acc)@, f@) {
            Some(v) => ok && final(acc)@ == v,
            None => !ok,
        },
{
    if f.number == 1 {
        match &f.value {
            Value::Bytes(b) => match utf8_to_string(b) {
                Some(s) => {
                    acc.request_id = s;
                    true
                },
                None => false,
            },
            _ => false,
        }
    } else if f.number == 2 {
        match &f.value {
            Value::Varint(v) => {
                acc.status = wire_to_i32(*v);
                true
            },
            _ => false,
        }
    } else if f.number == 3 {
        match &f.value {
            Value::Bytes(b) => match utf8_to_string(b) {
                Some(s) => {
                    acc.detail = s;
                    true
                },
                None => false,
            },
            _ => false,
        }
    } else if f.number == 4 {
        match &f.value {
            Value::Varint(v) => {
                acc.final_state_version = *v;
                true
            },
            _ => false,
        }
    } else {
        true
    }
}

/// Reads the encoded fields in `bytes` into `acc`. Gives `false`, with `acc` in an
/// unspecified state, where the bytes are malformed.
pub fn merge_action_result(acc: &mut ActionResult, bytes: &[u8]) -> (ok: bool)
    ensures
        match action_result_merged(old(acc)@, bytes@) {
            Some(v) => ok && final(acc)@ == v,
            None => !ok,
        },
{
    let fields = match read_fields(bytes) {
        Some(fs) => fs,
        None => {
            return false;
        },
    };
    let n: usize = fields.len();
    let mut i: usize = 0;
    proof {
        assert(field_views(fields@).skip(0) =~= field_views(fields@));
    }
    while i < n
        invariant
            n == fields@.len(),
            i <= n,
            parse_fields(bytes@) == Some(field_views(fields@)),
            action_result_with_fields(old(acc)@, field_views(fields@)) == action_result_with_fields(
                acc@,
                field_views(fields@).skip(i as int),
            ),
        decreases n - i,
    {
        proof {
            let rest = field_views(fields@).skip(i as int);
            assert(rest.first() == fields@[i as int]@);
            assert(rest.drop_first() =~= field_views(fields@).skip(i as int + 1));
        }
        if !merge_action_result_field(acc, &fields[i]) {
            return false;
        }
        i += 1;
    }
    true
}

/// Decodes a `ActionResult`.
pub fn decode_action_result(bytes: &[u8]) -> (r: Option<ActionResult>)
    ensures
        match action_result_of_bytes(bytes@) {
            Some(v) => r is Some && r->0@ == v,
            None => r is None,
        },
{
    let mut m = new_action_result();
    if merge_action_result(&mut m, bytes) {
        Some(m)
    } else {
        None
    }
}

/// The fields of a `ErrorFrame`, in the order in which they are written.
pub open spec fn error_frame_fields(m: ErrorFrameView) -> Seq<WireField> {
    int32_piece(1, m.code)
        + text_piece(2, m.message)
        + text_piece(3, m.correlation_id)
}

/// A `ErrorFrame` with every field at its default.
pub open spec fn error_frame_zero() -> ErrorFrameView {
    ErrorFrameView {
        code: 0,
        message: Seq::empty(),
        correlation_id: Seq::empty(),
    }
}

/// The message `acc` after the field `f` was read into it. A field this message does
/// not have is skipped; one of the wrong wire type or with malformed content is an
/// error.
pub open spec fn error_frame_with_field(acc: ErrorFrameView, f: WireField) -> Option<ErrorFrameView> {
    if f.number == 1 {
        match f.value {
            WireValue::Varint(v) => Some(ErrorFrameView { code: wire_to_int32(v), ..acc }),
            _ => None,
        }
    } else if f.number == 2 {
        match f.value {
            WireValue::Bytes(b) => match text_of(b) {
                Some(s) => Some(ErrorFrameView { message: s, ..acc }),
                None => None,
            },
            _ => None,
        }
    } else if f.number == 3 {
        match f.value {
            WireValue::Bytes(b) => match text_of(b) {
                Some(s) => Some(ErrorFrameView { correlation_id: s, ..acc }),
                None => None,
            },
            _ => None,
        }
    } else {
        Some(acc)
    }
}

/// The message `acc` after the fields `fs` were read into it, in order.
pub open spec fn error_frame_with_fields(acc: ErrorFrameView, fs: Seq<WireField>) -> Option<ErrorFrameView>
    decreases fs.len(),
{
    if fs.len() == 0 {
        Some(acc)
    } else {
        match error_frame_with_field(acc, fs.first()) {
            Some(next) => error_frame_with_fields(next, fs.drop_first()),
            None => None,
        }
    }
}

/// The message `acc` after the encoded fields in `b` were read into it.
pub open spec fn error_frame_merged(acc: ErrorFrameView, b: Seq<u8>) -> Option<ErrorFrameView> {
    match parse_fields(b) {
        Some(fs) => error_frame_with_fields(acc, fs),
        None => None,
    }
}

/// The `ErrorFrame` that the bytes `b` encode, if they encode one.
pub open spec fn error_frame_of_bytes(b: Seq<u8>) -> Option<ErrorFrameView> {
    error_frame_merged(error_frame_zero(), b)
}

/// A `ErrorFrame` with every field at its default.
pub fn new_error_frame() -> (m: ErrorFrame)
    ensures
        m@ == error_frame_zero(),
{
    let m = ErrorFrame {
        code: 0,
        message: String::new(),
        correlation_id: String::new(),
    };
    proof {
        assert(m.message@ =~= Seq::<char>::empty());
        assert(m.correlation_id@ =~= Seq::<char>::empty());
    }
    m
}

/// Appends the encoding of `m` to `out`.
pub fn encode_error_frame(out: &mut Vec<u8>, m: &ErrorFrame)
    ensures
        final(out)@ == old(out)@ + fields_bytes(error_frame_fields(m@)),
{
    put_int32(out, 1, m.code);
    let ghost mut done = int32_piece(1, m@.code);
    let ghost before = out@;
    put_text(out, 2, m.message.as_str());
    proof {
        let more = text_piece(2, m@.message);
        lemma_fields_appended(old(out)@, done, more, before, out@);
        done = done + more;
    }
    let ghost before = out@;
    put_text(out, 3, m.correlation_id.as_str());
    proof {
        let more = text_piece(3, m@.correlation_id);
        lemma_fields_appended(old(out)@, done, more, before, out@);
        done = done + more;
    }
}

/// Reads the field `f` into `acc`. Gives `false`, with `acc` in an unspecified state,
/// where the field is malformed.
pub fn merge_error_frame_field(acc: &mut ErrorFrame, f: &Field) -> (ok: bool)
    ensures
        match error_frame_with_field(old(acc)@, f@) {
            Some(v) => ok && final(acc)@ == v,
            None => !ok,
        },
{
    if f.number == 1 {
        match &f.value {
            Value::Varint(v) => {
                acc.code = wire_to_i32(*v);
                true
            },
            _ => false,
        }
    } else if f.number == 2 {
        match &f.value {
            Value::Bytes(b) => match utf8_to_string(b) {
                Some(s) => {
                    acc.message = s;
                    true
                },
                None => false,
            },
            _ => false,
        }
    } else if f.number == 3 {
        match &f.value {
            Value::Bytes(b) => match utf8_to_string(b) {
                Some(s) => {
                    acc.correlation_id = s;
                    true
                },
                None => false,
            },
            _ => false,
        }
    } else {
        true
    }
}

/// Reads the encoded fields in `bytes` into `acc`. Gives `false`, with `acc` in an
/// unspecified state, where the bytes are malformed.
pub fn merge_error_frame(acc: &mut ErrorFrame, bytes: &[u8]) -> (ok: bool)
    ensures
        match error_frame_merged(old(acc)@, bytes@) {
            Some(v) => ok && final(acc)@ == v,
            None => !ok,
        },
{
    let fields = match read_fields(bytes) {
        Some(fs) => fs,
        None => {
            return false;
        },
    };
    let n: usize = fields.len();
    let mut i: usize = 0;
    proof {
        assert(field_views(fields@).skip(0) =~= field_views(fields@));
    }
    while i < n
        invariant
            n == fields@.len(),
            i <= n,
            parse_fields(bytes@) == Some(field_views(fields@)),
            error_frame_with_fields(old(acc)@, field_views(fields@)) == error_frame_with_fields(
                acc@,
                field_views(fields@).skip(i as int),
            ),
        decreases n - i,
    {
        proof {
            let rest = field_views(fields@).skip(i as int);
            assert(rest.first() == fields@[i as int]@);
            assert(rest.drop_first() =~= field_views(fields@).skip(i as int + 1));
        }
        if !merge_error_frame_field(acc, &fields[i]) {
            return false;
        }
        i += 1;
    }
    true
}

/// Decodes a `ErrorFrame`.
pub fn decode_error_frame(bytes: &[u8]) -> (r: Option<ErrorFrame>)
    ensures
        match error_frame_of_bytes(bytes@) {
            Some(v) => r is Some && r->0@ == v,
            None => r is None,
        },
{
    let mut m = new_error_frame();
    if merge_error_frame(&mut m, bytes) {
        Some(m)
    } else {
        None
    }
}

/// Whether `number` is the field number of one of the payloads of an envelope.
pub open spec fn is_payload_number(number: u32) -> bool {
    10 <= number <= 19
}

/// The payload of an envelope as a field: an embedded message under the number of
/// its kind, or nothing where the envelope carries none.
pub open spec fn payload_piece(p: Option<PayloadView>) -> Seq<WireField> {
    match p {
        Some(PayloadView::Hello(m)) => message_piece(10, fields_bytes(hello_fields(m))),
        Some(PayloadView::HelloAck(m)) => message_piece(11, fields_bytes(hello_ack_fields(m))),
        Some(PayloadView::Telemetry(m)) => message_piece(12, fields_bytes(telemetry_frame_fields(m))),
        Some(PayloadView::Heartbeat(m)) => message_piece(13, fields_bytes(heartbeat_fields(m))),
        Some(PayloadView::TimeSyncReq(m)) => message_piece(14, fields_bytes(time_sync_request_fields(m))),
        Some(PayloadView::TimeSyncRes(m)) => message_piece(15, fields_bytes(time_sync_response_fields(m))),
        Some(PayloadView::ActionReq(m)) => message_piece(16, fields_bytes(action_request_fields(m))),
        Some(PayloadView::ActionAck(m)) => message_piece(17, fields_bytes(action_ack_fields(m))),
        Some(PayloadView::ActionRes(m)) => message_piece(18, fields_bytes(action_result_fields(m))),
        Some(PayloadView::Error(m)) => message_piece(19, fields_bytes(error_frame_fields(m))),
        None => Seq::empty(),
    }
}

/// The payload after an embedded message with the bytes `b` was read under the
/// payload number `number`: it is merged into a payload of the same kind and replaces
/// one of another kind.
pub open spec fn payload_with_field(p: Option<PayloadView>, number: u32, b: Seq<u8>) -> Option<PayloadView> {
    if number == 10 {
        match hello_merged(
            match p {
                Some(PayloadView::Hello(m)) => m,
                _ => hello_zero(),
            },
            b,
        ) {
            Some(m) => Some(PayloadView::Hello(m)),
            None => None,
        }
    } else if number == 11 {
        match hello_ack_merged(
            match p {
                Some(PayloadView::HelloAck(m)) => m,
                _ => hello_ack_zero(),
            },
            b,
        ) {
            Some(m) => Some(PayloadView::HelloAck(m)),
            None => None,
        }
    } else if number == 12 {
        match telemetry_frame_merged(
            match p {
                Some(PayloadView::Telemetry(m)) => m,
                _ => telemetry_frame_zero(),
            },
            b,
        ) {
            Some(m) => Some(PayloadView::Telemetry(m)),
            None => None,
        }
    } else if number == 13 {
        match heartbeat_merged(
            match p {
                Some(PayloadView::Heartbeat(m)) => m,
                _ => heartbeat_zero(),
            },
            b,
        ) {
            Some(m) => Some(PayloadView::Heartbeat(m)),
            None => None,
        }
    } else if number == 14 {
        match time_sync_request_merged(
            match p {
                Some(PayloadView::TimeSyncReq(m)) => m,
                _ => time_sync_request_zero(),
            },
            b,
        ) {
            Some(m) => Some(PayloadView::TimeSyncReq(m)),
            None => None,
        }
    } else if number == 15 {
        match time_sync_response_merged(
            match p {
                Some(PayloadView::TimeSyncRes(m)) => m,
                _ => time_sync_response_zero(),
            },
            b,
        ) {
            Some(m) => Some(PayloadView::TimeSyncRes(m)),
            None => None,
        }
    } else if number == 16 {
        match action_request_merged(
            match p {
                Some(PayloadView::ActionReq(m)) => m,
                _ => action_request_zero(),
            },
            b,
        ) {
            Some(m) => Some(PayloadView::ActionReq(m)),
            None => None,
        }
    } else if number == 17 {
        match action_ack_merged(
            match p {
                Some(PayloadView::ActionAck(m)) => m,
                _ => action_ack_zero(),
            },
            b,
        ) {
            Some(m) => Some(PayloadView::ActionAck(m)),
            None => None,
        }
    } else if number == 18 {
        match action_result_merged(
            match p {
                Some(PayloadView::ActionRes(m)) => m,
                _ => action_result_zero(),
            },
            b,
        ) {
            Some(m) => Some(PayloadView::ActionRes(m)),
            None => None,
        }
    } else {
        match error_frame_merged(
            match p {
                Some(PayloadView::Error(m)) => m,
                _ => error_frame_zero(),
            },
            b,
        ) {
            Some(m) => Some(PayloadView::Error(m)),
            None => None,
        }
    }
}

pub fn number_is_payload(number: u32) -> (r: bool)
    ensures
        r == is_payload_number(number),
{
    10 <= number && number <= 19
}

/// Appends the payload of an envelope to `out`.
pub fn encode_payload(out: &mut Vec<u8>, p: &Option<Payload>)
    ensures
        final(out)@ == old(out)@ + fields_bytes(
            payload_piece(
                match p {
                    Some(x) => Some(x@),
                    None => None,
                },
            ),
        ),
{
    let mut body: Vec<u8> = Vec::new();
    match p {
        Some(Payload::Hello(m)) => {
            encode_hello(&mut body, m);
            proof {
                assert(body@ =~= fields_bytes(hello_fields(m@)));
            }
            put_message(out, 10, body.as_slice());
        },
        Some(Payload::HelloAck(m)) => {
            encode_hello_ack(&mut body, m);
            proof {
                assert(body@ =~= fields_bytes(hello_ack_fields(m@)));
            }
            put_message(out, 11, body.as_slice());
        },
        Some(Payload::Telemetry(m)) => {
            encode_telemetry_frame(&mut body, m);
            proof {
                assert(body@ =~= fields_bytes(telemetry_frame_fields(m@)));
            }
            put_message(out, 12, body.as_slice());
        },
        Some(Payload::Heartbeat(m)) => {
            encode_heartbeat(&mut body, m);
            proof {
                assert(body@ =~= fields_bytes(heartbeat_fields(m@)));
            }
            put_message(out, 13, body.as_slice());
        },
        Some(Payload::TimeSyncReq(m)) => {
            encode_time_sync_request(&mut body, m);
            proof {
                assert(body@ =~= fields_bytes(time_sync_request_fields(m@)));
            }
            put_message(out, 14, body.as_slice());
        },
        Some(Payload::TimeSyncRes(m)) => {
            encode_time_sync_response(&mut body, m);
            proof {
                assert(body@ =~= fields_bytes(time_sync_response_fields(m@)));
            }
            put_message(out, 15, body.as_slice());
        },
        Some(Payload::ActionReq(m)) => {
            encode_action_request(&mut body, m);
            proof {
                assert(body@ =~= fields_bytes(action_request_fields(m@)));
            }
            put_message(out, 16, body.as_slice());
        },
        Some(Payload::ActionAck(m)) => {
            encode_action_ack(&mut body, m);
            proof {
                assert(body@ =~= fields_bytes(action_ack_fields(m@)));
            }
            put_message(out, 17, body.as_slice());
        },
        Some(Payload::ActionRes(m)) => {
            encode_action_result(&mut body, m);
            proof {
                assert(body@ =~= fields_bytes(action_result_fields(m@)));
            }
            put_message(out, 18, body.as_slice());
        },
        Some(Payload::Error(m)) => {
            encode_error_frame(&mut body, m);
            proof {
                assert(body@ =~= fields_bytes(error_frame_fields(m@)));
            }
            put_message(out, 19, body.as_slice());
        },
        None => {
            proof {
                assert(out@ =~= out@ + fields_bytes(Seq::<WireField>::empty()));
            }
        },
    }
}

/// Reads an embedded message with the bytes `bytes` into the payload `p` under the
/// payload number `number`. Gives `false`, with `p` in an unspecified state, where the
/// bytes are malformed.
pub fn merge_payload_field(p: &mut Option<Payload>, number: u32, bytes: &[u8]) -> (ok: bool)
    requires
        is_payload_number(number),
    ensures
        match payload_with_field(
            match *old(p) {
                Some(x) => Some(x@),
                None => None,
            },
            number,
            bytes@,
        ) {
            Some(v) => ok && *final(p) is Some && final(p)->0@ == v,
            None => !ok,
        },
{
    if number == 10 {
        let mut inner = match &*p {
            Some(Payload::Hello(m)) => m.clone(),
            _ => new_hello(),
        };
        if merge_hello(&mut inner, bytes) {
            *p = Some(Payload::Hello(inner));
            true
        } else {
            false
        }
    } else if number == 11 {
        let mut inner = match &*p {
            Some(Payload::HelloAck(m)) => m.clone(),
            _ => new_hello_ack(),
        };
        if merge_hello_ack(&mut inner, bytes) {
            *p = Some(Payload::HelloAck(inner));
            true
        } else {
            false
        }
    } else if number == 12 {
        let mut inner = match &*p {
            Some(Payload::Telemetry(m)) => m.clone(),
            _ => new_telemetry_frame(),
        };
        if merge_telemetry_frame(&mut inner, bytes) {
            *p = Some(Payload::Telemetry(inner));
            true
        } else {
            false
        }
    } else if number == 13 {
        let mut inner = match &*p {
            Some(Payload::Heartbeat(m)) => m.clone(),
            _ => new_heartbeat(),
        };
        if merge_heartbeat(&mut inner, bytes) {
            *p = Some(Payload::Heartbeat(inner));
            true
        } else {
            false
        }
    } else if number == 14 {
        let mut inner = match &*p {
            Some(Payload::TimeSyncReq(m)) => m.clone(),
            _ => new_time_sync_request(),
        };
        if merge_time_sync_request(&mut inner, bytes) {
            *p = Some(Payload::TimeSyncReq(inner));
            true
        } else {
            false
        }
    } else if number == 15 {
        let mut inner = match &*p {
            Some(Payload::TimeSyncRes(m)) => m.clone(),
            _ => new_time_sync_response(),
        };
        if merge_time_sync_response(&mut inner, bytes) {
            *p = Some(Payload::TimeSyncRes(inner));
            true
        } else {
            false
        }
    } else if number == 16 {
        let mut inner = match &*p {
            Some(Payload::ActionReq(m)) => m.clone(),
            _ => new_action_request(),
        };
        if merge_action_request(&mut inner, bytes) {
            *p = Some(Payload::ActionReq(inner));
            true
        } else {
            false
        }
    } else if number == 17 {
        let mut inner = match &*p {
            Some(Payload::ActionAck(m)) => m.clone(),
            _ => new_action_ack(),
        };
        if merge_action_ack(&mut inner, bytes) {
            *p = Some(Payload::ActionAck(inner));
            true
        } else {
            false
        }
    } else if number == 18 {
        let mut inner = match &*p {
            Some(Payload::ActionRes(m)) => m.clone(),
            _ => new_action_result(),
        };
        if merge_action_result(&mut inner, bytes) {
            *p = Some(Payload::ActionRes(inner));
            true
        } else {
            false
        }
    } else {
        let mut inner = match &*p {
            Some(Payload::Error(m)) => m.clone(),
            _ => new_error_frame(),
        };
        if merge_error_frame(&mut inner, bytes) {
            *p = Some(Payload::Error(inner));
            true
        } else {
            false
        }
    }
}

/// The fields of a `Envelope`, in the order in which they are written.
pub open spec fn envelope_fields(m: EnvelopeView) -> Seq<WireField> {
    uint_piece(1, m.protocol_version as u64)
        + text_piece(2, m.session_id)
        + uint_piece(3, m.seq)
        + uint_piece(4, m.ack)
        + uint_piece(5, m.mono_ms)
        + uint_piece(6, m.wall_unix_ms)
        + payload_piece(m.payload)
}

/// A `Envelope` with every field at its default.
pub open spec fn envelope_zero() -> EnvelopeView {
    EnvelopeView {
        protocol_version: 0,
        session_id: Seq::empty(),
        seq: 0,
        ack: 0,
        mono_ms: 0,
        wall_unix_ms: 0,
        payload: None,
    }
}

/// The envelope `acc` after the field `f` was read into it. A field that is neither
/// one of the envelope's own nor one of the known payloads is an error, and so is
/// one of the wrong wire type or with malformed content.
pub open spec fn envelope_with_field(acc: EnvelopeView, f: WireField) -> Option<EnvelopeView> {
    if f.number == 1 {
        match f.value {
            WireValue::Varint(v) => Some(EnvelopeView { protocol_version: wire_to_uint32(v), ..acc }),
            _ => None,
        }
    } else if f.number == 2 {
        match f.value {
            WireValue::Bytes(b) => match text_of(b) {
                Some(s) => Some(EnvelopeView { session_id: s, ..acc }),
                None => None,
            },
            _ => None,
        }
    } else if f.number == 3 {
        match f.value {
            WireValue::Varint(v) => Some(EnvelopeView { seq: v, ..acc }),
            _ => None,
        }
    } else if f.number == 4 {
        match f.value {
            WireValue::Varint(v) => Some(EnvelopeView { ack: v, ..acc }),
            _ => None,
        }
    } else if f.number == 5 {
        match f.value {
            WireValue::Varint(v) => Some(EnvelopeView { mono_ms: v, ..acc }),
            _ => None,
        }
    } else if f.number == 6 {
        match f.value {
            WireValue::Varint(v) => Some(EnvelopeView { wall_unix_ms: v, ..acc }),
            _ => None,
        }
    } else if is_payload_number(f.number) {
        match f.value {
            WireValue::Bytes(b) => match payload_with_field(acc.payload, f.number, b) {
                Some(p) => Some(EnvelopeView { payload: Some(p), ..acc }),
                None => None,
            },
            _ => None,
        }
    } else {
        None
    }
}

/// The message `acc` after the fields `fs` were read into it, in order.
pub open spec fn envelope_with_fields(acc: EnvelopeView, fs: Seq<WireField>) -> Option<EnvelopeView>
    decreases fs.len(),
{
    if fs.len() == 0 {
        Some(acc)
    } else {
        match envelope_with_field(acc, fs.first()) {
            Some(next) => envelope_with_fields(next, fs.drop_first()),
            None => None,
        }
    }
}

/// The message `acc` after the encoded fields in `b` were read into it.
pub open spec fn envelope_merged(acc: EnvelopeView, b: Seq<u8>) -> Option<EnvelopeView> {
    match parse_fields(b) {
        Some(fs) => envelope_with_fields(acc, fs),
        None => None,
    }
}

/// The `Envelope` that the bytes `b` encode, if they encode one.
pub open spec fn envelope_of_bytes(b: Seq<u8>) -> Option<EnvelopeView> {
    envelope_merged(envelope_zero(), b)
}

/// A `Envelope` with every field at its default.
pub fn new_envelope() -> (m: Envelope)
    ensures
        m@ == envelope_zero(),
{
    let m = Envelope {
        protocol_version: 0,
        session_id: String::new(),
        seq: 0,
        ack: 0,
        mono_ms: 0,
        wall_unix_ms: 0,
        payload: None,
    };
    proof {
        assert(m.session_id@ =~= Seq::<char>::empty());
    }
    m
}

/// Appends the encoding of `m` to `out`.
pub fn encode_envelope(out: &mut Vec<u8>, m: &Envelope)
    ensures
        final(out)@ == old(out)@ + fields_bytes(envelope_fields(m@)),
{
    put_uint(out, 1, m.protocol_version as u64);
    let ghost mut done = uint_piece(1, m@.protocol_version as u64);
    let ghost before = out@;
    put_text(out, 2, m.session_id.as_str());
    proof {
        let more = text_piece(2, m@.session_id);
        lemma_fields_appended(old(out)@, done, more, before, out@);
        done = done + more;
    }
    let ghost before = out@;
    put_uint(out, 3, m.seq);
    proof {
        let more = uint_piece(3, m@.seq);
        lemma_fields_appended(old(out)@, done, more, before, out@);
        done = done + more;
    }
    let ghost before = out@;
    put_uint(out, 4, m.ack);
    proof {
        let more = uint_piece(4, m@.ack);
        lemma_fields_appended(old(out)@, done, more, before, out@);
        done = done + more;
    }
    let ghost before = out@;
    put_uint(out, 5, m.mono_ms);
    proof {
        let more = uint_piece(5, m@.mono_ms);
        lemma_fields_appended(old(out)@, done, more, before, out@);
        done = done + more;
    }
    let ghost before = out@;
    put_uint(out, 6, m.wall_unix_ms);
    proof {
        let more = uint_piece(6, m@.wall_unix_ms);
        lemma_fields_appended(old(out)@, done, more, before, out@);
        done = done + more;
    }
    let ghost before = out@;
    encode_payload(out, &m.payload);
    proof {
        let more = payload_piece(m@.payload);
        lemma_fields_appended(old(out)@, done, more, before, out@);
        done = done + more;
    }
}

/// Reads the field `f` into `acc`. Gives `false`, with `acc` in an unspecified state,
/// where the field is malformed.
pub fn merge_envelope_field(acc: &mut Envelope, f: &Field) -> (ok: bool)
    ensures
        match envelope_with_field(old(acc)@, f@) {
            Some(v) => ok && final(acc)@ == v,
            None => !ok,
        },
{
    if f.number == 1 {
        match &f.value {
            Value::Varint(v) => {
                acc.protocol_version = wire_to_u32(*v);
                true
            },
            _ => false,
        }
    } else if f.number == 2 {
        match &f.value {
            Value::Bytes(b) => match utf8_to_string(b) {
                Some(s) => {
                    acc.session_id = s;
                    true
                },
                None => false,
            },
            _ => false,
        }
    } else if f.number == 3 {
        match &f.value {
            Value::Varint(v) => {
                acc.seq = *v;
                true
            },
            _ => false,
        }
    } else if f.number == 4 {
        match &f.value {
            Value::Varint(v) => {
                acc.ack = *v;
                true
            },
            _ => false,
        }
    } else if f.number == 5 {
        match &f.value {
            Value::Varint(v) => {
                acc.mono_ms = *v;
                true
            },
            _ => false,
        }
    } else if f.number == 6 {
        match &f.value {
            Value::Varint(v) => {
                acc.wall_unix_ms = *v;
                true
            },
            _ => false,
        }
    } else if number_is_payload(f.number) {
        match &f.value {
            Value::Bytes(b) => merge_payload_field(&mut acc.payload, f.number, b),
            _ => false,
        }
    } else {
        false
    }
}

/// Reads the encoded fields in `bytes` into `acc`. Gives `false`, with `acc` in an
/// unspecified state, where the bytes are malformed.
pub fn merge_envelope(acc: &mut Envelope, bytes: &[u8]) -> (ok: bool)
    ensures
        match envelope_merged(old(acc)@, bytes@) {
            Some(v) => ok && final(acc)@ == v,
            None => !ok,
        },
{
    let fields = match read_fields(bytes) {
        Some(fs) => fs,
        None => {
            return false;
        },
    };
    let n: usize = fields.len();
    let mut i: usize = 0;
    proof {
        assert(field_views(fields@).skip(0) =~= field_views(fields@));
    }
    while i < n
        invariant
            n == fields@.len(),
            i <= n,
            parse_fields(bytes@) == Some(field_views(fields@)),
            envelope_with_fields(old(acc)@, field_views(fields@)) == envelope_with_fields(
                acc@,
                field_views(fields@).skip(i as int),
            ),
        decreases n - i,
    {
        proof {
            let rest = field_views(fields@).skip(i as int);
            assert(rest.first() == fields@[i as int]@);
            assert(rest.drop_first() =~= field_views(fields@).skip(i as int + 1));
        }
        if !merge_envelope_field(acc, &fields[i]) {
            return false;
        }
        i += 1;
    }
    true
}

/// Decodes a `Envelope`.
pub fn decode_envelope(bytes: &[u8]) -> (r: Option<Envelope>)
    ensures
        match envelope_of_bytes(bytes@) {
            Some(v) => r is Some && r->0@ == v,
            None => r is None,
        },
{
    let mut m = new_envelope();
    if merge_envelope(&mut m, bytes) {
        Some(m)
    } else {
        None
    }
}

} // verus!
