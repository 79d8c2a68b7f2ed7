//! The orchestrator's end of a session with the bridge: the frames it sends and what
//! it makes of the messages it receives.
//!
//! Nothing here touches the network. The caller receives one message after the other
//! and hands each to the step function of the phase it is in.

use crate::ids::{fresh_uuid, is_uuid_text};
use crate::proto::{
    ActionAck, ActionAckView, ActionRequest, ActionResult, ActionResultView, Capability, Envelope, EnvelopeView,
    Heartbeat, HeartbeatView, Hello, HelloView, Payload, PayloadView, PeerRole, TelemetryFrame, TelemetryFrameView,
    PROTOCOL_VERSION,
};
use crate::wire::frame::{
    decode_frame, encode_frame, frame_bytes, frame_decoded, InboundMessage, InboundMessageView,
};
use vstd::prelude::*;
use vstd::string::*;

verus! {

/// How long the orchestrator waits for the bridge's answer to its `Hello`, in
/// milliseconds.
pub const HANDSHAKE_TIMEOUT_MS: u64 = 5000;

/// Something the bridge told the orchestrator.
#[derive(Debug)]
pub enum BridgeEvent {
    Telemetry(TelemetryFrame),
    ActionAck(ActionAck),
    ActionResult(ActionResult),
    Heartbeat(Heartbeat),
    Closed,
}

/// The mathematical value of a `BridgeEvent`.
pub enum BridgeEventView {
    Telemetry(TelemetryFrameView),
    ActionAck(ActionAckView),
    ActionResult(ActionResultView),
    Heartbeat(HeartbeatView),
    Closed,
}

impl View for BridgeEvent {
    type V = BridgeEventView;

    open spec fn view(&self) -> BridgeEventView {
        match self {
            BridgeEvent::Telemetry(t) => BridgeEventView::Telemetry(t@),
            BridgeEvent::ActionAck(a) => BridgeEventView::ActionAck(a@),
            BridgeEvent::ActionResult(r) => BridgeEventView::ActionResult(r@),
            BridgeEvent::Heartbeat(h) => BridgeEventView::Heartbeat(h@),
            BridgeEvent::Closed => BridgeEventView::Closed,
        }
    }
}

/// Why the session with the bridge cannot go on.
#[derive(Debug)]
pub enum ClientError {
    /// A frame from the bridge did not decode.
    Decode,
    /// A frame from the bridge was of another protocol version.
    VersionMismatch,
    /// The bridge refused the handshake for the reason given.
    Rejected { reason: String },
    /// The bridge took its acceptance back on an open session, for the reason given.
    HelloRejected { reason: String },
    /// The bridge answered the `Hello` with an error frame.
    BridgeError { message: String, correlation_id: String },
    /// The connection ended before the handshake did.
    ClosedBeforeHandshake,
    /// The bridge did not answer the `Hello` in time.
    HandshakeTimeout,
    /// The sequence numbers of the session are used up.
    SequenceExhausted,
}

/// The mathematical value of a `ClientError`.
pub enum ClientErrorView {
    Decode,
    VersionMismatch,
    Rejected { reason: Seq<char> },
    HelloRejected { reason: Seq<char> },
    BridgeError { message: Seq<char>, correlation_id: Seq<char> },
    ClosedBeforeHandshake,
    HandshakeTimeout,
    SequenceExhausted,
}

impl View for ClientError {
    type V = ClientErrorView;

    open spec fn view(&self) -> ClientErrorView {
        match self {
            ClientError::Decode => ClientErrorView::Decode,
            ClientError::VersionMismatch => ClientErrorView::VersionMismatch,
            ClientError::Rejected { reason } => ClientErrorView::Rejected { reason: reason@ },
            ClientError::HelloRejected { reason } => ClientErrorView::HelloRejected { reason: reason@ },
            ClientError::BridgeError { message, correlation_id } => ClientErrorView::BridgeError {
                message: message@,
                correlation_id: correlation_id@,
            },
            ClientError::ClosedBeforeHandshake => ClientErrorView::ClosedBeforeHandshake,
            ClientError::HandshakeTimeout => ClientErrorView::HandshakeTimeout,
            ClientError::SequenceExhausted => ClientErrorView::SequenceExhausted,
        }
    }
}

impl ClientErrorView {
    /// The text that explains the error.
    pub open spec fn message(self) -> Seq<char> {
        match self {
            ClientErrorView::Decode => "decode envelope"@,
            ClientErrorView::VersionMismatch => "protocol_version mismatch"@,
            ClientErrorView::Rejected { reason } => "bridge rejected handshake: "@ + reason,
            ClientErrorView::HelloRejected { reason } => "bridge rejected hello: "@ + reason,
            ClientErrorView::BridgeError { message, correlation_id } => "bridge error during handshake: "@ + message
                + " ("@ + correlation_id + ")"@,
            ClientErrorView::ClosedBeforeHandshake => "bridge closed before handshake"@,
            ClientErrorView::HandshakeTimeout => "bridge hello handshake timeout"@,
            ClientErrorView::SequenceExhausted => "sequence numbers exhausted"@,
        }
    }
}

impl ClientError {
    /// The text that explains the error.
    pub fn message(&self) -> (r: String)
        ensures
            r@ == self@.message(),
    {
        match self {
            ClientError::Decode => String::from_str("decode envelope"),
            ClientError::VersionMismatch => String::from_str("protocol_version mismatch"),
            ClientError::Rejected { reason } => {
                let mut s = String::from_str("bridge rejected handshake: ");
                s.append(reason.as_str());
                s
            },
            ClientError::HelloRejected { reason } => {
                let mut s = String::from_str("bridge rejected hello: ");
                s.append(reason.as_str());
                s
            },
            ClientError::BridgeError { message, correlation_id } => {
                let mut s = String::from_str("bridge error during handshake: ");
                s.append(message.as_str());
                s.append(" (");
                s.append(correlation_id.as_str());
                s.append(")");
                s
            },
            ClientError::ClosedBeforeHandshake => String::from_str("bridge closed before handshake"),
            ClientError::HandshakeTimeout => String::from_str("bridge hello handshake timeout"),
            ClientError::SequenceExhausted => String::from_str("sequence numbers exhausted"),
        }
    }
}

/// The capabilities the orchestrator advertises.
pub open spec fn client_capabilities() -> Seq<i32> {
    seq![
        Capability::CapTelemetryV1.spec_to_i32(),
        Capability::CapTimesyncV1.spec_to_i32(),
        Capability::CapHelloAckV1.spec_to_i32(),
    ]
}

/// The `Hello` by which an orchestrator introduces itself.
pub open spec fn client_hello(agent_id: Seq<char>, client_version: Seq<char>, handshake_id: Seq<char>) -> PayloadView {
    PayloadView::Hello(
        HelloView {
            agent_id,
            role: PeerRole::PeerRoleOrchestrator.spec_to_i32(),
            capabilities: client_capabilities(),
            client_version,
            handshake_id,
        },
    )
}

/// What a frame from the bridge decodes to on the orchestrator's side: an envelope of
/// the protocol's version, or an error.
pub open spec fn client_decoded(bytes: Seq<u8>) -> Result<EnvelopeView, ClientErrorView> {
    match frame_decoded(bytes, usize::MAX) {
        Ok(env) => if env.protocol_version != PROTOCOL_VERSION {
            Err(ClientErrorView::VersionMismatch)
        } else {
            Ok(env)
        },
        Err(_) => Err(ClientErrorView::Decode),
    }
}

/// Decodes a frame from the bridge.
pub fn decode_envelope(bytes: &[u8]) -> (r: Result<Envelope, ClientError>)
    ensures
        match client_decoded(bytes@) {
            Ok(env) => r is Ok && r->Ok_0@ == env,
            Err(e) => r is Err && r->Err_0@ == e,
        },
{
    match decode_frame(bytes, usize::MAX) {
        Ok(env) => {
            if env.protocol_version != PROTOCOL_VERSION {
                Err(ClientError::VersionMismatch)
            } else {
                Ok(env)
            }
        },
        Err(_) => Err(ClientError::Decode),
    }
}

/// Where the orchestrator stands after a message during the handshake.
#[derive(Debug)]
pub enum HandshakeProgress {
    /// The message settled nothing: wait for the next.
    Waiting,
    /// The bridge accepted the session.
    Accepted,
}

/// Where the orchestrator stands after a message on an open session.
#[derive(Debug)]
pub enum EventProgress {
    /// The message carried nothing for the orchestrator: wait for the next.
    Waiting,
    /// The message carried this event.
    Event(BridgeEvent),
}

/// Where a reader of telemetry stands after a message.
#[derive(Debug)]
pub enum TelemetryProgress {
    /// The message carried no telemetry: wait for the next.
    Waiting,
    /// The message carried this frame.
    Frame(TelemetryFrame),
    /// The bridge closed the session.
    Closed,
}

/// What a message during the handshake settles. A binary frame that decodes is
/// acted on by its payload: a `HelloAck` accepts or refuses, a `Hello` of the
/// bridge's own accepts, an error frame refuses. Everything else settles nothing.
pub open spec fn handshake_verdict(msg: InboundMessageView) -> Result<bool, ClientErrorView> {
    match msg {
        InboundMessageView::Binary(bytes) => match client_decoded(bytes) {
            Err(e) => Err(e),
            Ok(env) => match env.payload {
                Some(PayloadView::HelloAck(ack)) => if ack.accepted {
                    Ok(true)
                } else {
                    Err(ClientErrorView::Rejected { reason: ack.reason })
                },
                Some(PayloadView::Hello(_)) => Ok(true),
                Some(PayloadView::Error(err)) => Err(
                    ClientErrorView::BridgeError { message: err.message, correlation_id: err.correlation_id },
                ),
                _ => Ok(false),
            },
        },
        _ => Ok(false),
    }
}

/// The event a message on an open session carries, if it carries one.
pub open spec fn event_verdict(msg: InboundMessageView) -> Result<Option<BridgeEventView>, ClientErrorView> {
    match msg {
        InboundMessageView::Close => Ok(Some(BridgeEventView::Closed)),
        InboundMessageView::Binary(bytes) => match client_decoded(bytes) {
            Err(e) => Err(e),
            Ok(env) => match env.payload {
                Some(PayloadView::Telemetry(t)) => Ok(Some(BridgeEventView::Telemetry(t))),
                Some(PayloadView::ActionAck(a)) => Ok(Some(BridgeEventView::ActionAck(a))),
                Some(PayloadView::ActionRes(r)) => Ok(Some(BridgeEventView::ActionResult(r))),
                Some(PayloadView::Heartbeat(h)) => Ok(Some(BridgeEventView::Heartbeat(h))),
                Some(PayloadView::HelloAck(ack)) => if ack.accepted {
                    Ok(None)
                } else {
                    Err(ClientErrorView::HelloRejected { reason: ack.reason })
                },
                _ => Ok(None),
            },
        },
        _ => Ok(None),
    }
}

/// The sequence number last seen from the bridge after `msg`, having been `before`:
/// that of the frame, where the message is a frame that decodes.
pub open spec fn peer_seq_after(before: u64, msg: InboundMessageView) -> u64 {
    match msg {
        InboundMessageView::Binary(bytes) => match client_decoded(bytes) {
            Ok(env) => env.seq,
            Err(_) => before,
        },
        _ => before,
    }
}

/// The orchestrator's protocol state in its session with the bridge.
#[derive(Debug)]
pub struct BridgeClient {
    session_id: String,
    seq: u64,
    last_peer_seq: u64,
}

/// The mathematical value of a `BridgeClient`.
pub struct BridgeClientView {
    pub session_id: Seq<char>,
    pub seq: u64,
    pub last_peer_seq: u64,
}

impl View for BridgeClient {
    type V = BridgeClientView;

    closed spec fn view(&self) -> BridgeClientView {
        BridgeClientView { session_id: self.session_id@, seq: self.seq, last_peer_seq: self.last_peer_seq }
    }
}

impl BridgeClientView {
    /// The envelope that carries `payload` as the next frame of this session.
    pub open spec fn envelope_for(self, payload: PayloadView, mono_ms: u64, wall_unix_ms: u64) -> EnvelopeView {
        EnvelopeView {
            protocol_version: PROTOCOL_VERSION,
            session_id: self.session_id,
            seq: (self.seq + 1) as u64,
            ack: self.last_peer_seq,
            mono_ms,
            wall_unix_ms,
            payload: Some(payload),
        }
    }
}

impl BridgeClient {
    /// The state of a session that has just been connected, under a fresh random
    /// session id.
    pub fn new() -> (c: Self)
        ensures
            is_uuid_text(c@.session_id),
            c@.seq == 0,
            c@.last_peer_seq == 0,
    {
        Self::with_session_id(fresh_uuid())
    }

    /// The state of a session that has just been connected, under the given session
    /// id.
    pub fn with_session_id(session_id: String) -> (c: Self)
        ensures
            c@ == (BridgeClientView { session_id: session_id@, seq: 0, last_peer_seq: 0 }),
    {
        Self { session_id, seq: 0, last_peer_seq: 0 }
    }

    /// Builds the `Hello` of an orchestrator, proposing `handshake_id`.
    pub fn hello_with_id(agent_id: &str, client_version: &str, handshake_id: String) -> (p: Payload)
        ensures
            p@ == client_hello(agent_id@, client_version@, handshake_id@),
    {
        let mut capabilities: Vec<i32> = Vec::new();
        capabilities.push(Capability::CapTelemetryV1.to_i32());
        capabilities.push(Capability::CapTimesyncV1.to_i32());
        capabilities.push(Capability::CapHelloAckV1.to_i32());
        proof {
            assert(capabilities@ =~= client_capabilities());
        }
        Payload::Hello(
            Hello {
                agent_id: String::from_str(agent_id),
                role: PeerRole::PeerRoleOrchestrator.to_i32(),
                capabilities,
                client_version: String::from_str(client_version),
                handshake_id,
            },
        )
    }

    /// Builds the `Hello` of an orchestrator, proposing a fresh random handshake id.
    pub fn hello(agent_id: &str, client_version: &str) -> (p: Payload)
        ensures
            exists|id: Seq<char>| is_uuid_text(id) && p@ == #[trigger] client_hello(agent_id@, client_version@, id),
    {
        let id = fresh_uuid();
        let p = Self::hello_with_id(agent_id, client_version, id);
        proof {
            assert(p@ == client_hello(agent_id@, client_version@, id@));
        }
        p
    }

    /// Encodes `payload` as the session's next frame: it takes the next sequence
    /// number and acknowledges the last frame seen from the bridge. Fails, and
    /// leaves the session as it was, once the sequence numbers are used up.
    pub fn next_frame(&mut self, payload: Payload, mono_ms: u64, wall_unix_ms: u64) -> (r: Result<Vec<u8>, ClientError>)
        ensures
            old(self)@.seq == u64::MAX ==> r is Err && r->Err_0@ == ClientErrorView::SequenceExhausted && final(self)@ == old(self)@,
            old(self)@.seq < u64::MAX ==> r is Ok && r->Ok_0@ == frame_bytes(
                old(self)@.envelope_for(payload@, mono_ms, wall_unix_ms),
            ) && final(self)@ == (BridgeClientView { seq: (old(self)@.seq + 1) as u64, ..old(self)@ }),
    {
        if self.seq == u64::MAX {
            return Err(ClientError::SequenceExhausted);
        }
        self.seq = self.seq + 1;
        let env = Envelope {
            protocol_version: PROTOCOL_VERSION,
            session_id: self.session_id.clone(),
            seq: self.seq,
            ack: self.last_peer_seq,
            mono_ms,
            wall_unix_ms,
            payload: Some(payload),
        };
        Ok(encode_frame(&env))
    }

    /// Encodes an action request as the session's next frame.
    pub fn action_request_frame(&mut self, req: ActionRequest, mono_ms: u64, wall_unix_ms: u64) -> (r: Result<
        Vec<u8>,
        ClientError,
    >)
        ensures
            old(self)@.seq == u64::MAX ==> r is Err && r->Err_0@ == ClientErrorView::SequenceExhausted && final(self)@ == old(self)@,
            old(self)@.seq < u64::MAX ==> r is Ok && r->Ok_0@ == frame_bytes(
                old(self)@.envelope_for(PayloadView::ActionReq(req@), mono_ms, wall_unix_ms),
            ) && final(self)@ == (BridgeClientView { seq: (old(self)@.seq + 1) as u64, ..old(self)@ }),
    {
        self.next_frame(Payload::ActionReq(req), mono_ms, wall_unix_ms)
    }

    fn read(&mut self, msg: InboundMessage) -> (r: Result<Option<Envelope>, ClientError>)
        ensures
            final(self)@ == (BridgeClientView {
                last_peer_seq: peer_seq_after(old(self)@.last_peer_seq, msg@),
                ..old(self)@
            }),
            match msg@ {
                InboundMessageView::Binary(bytes) => match client_decoded(bytes) {
                    Ok(env) => r is Ok && r->Ok_0 is Some && r->Ok_0->0@ == env,
                    Err(e) => r is Err && r->Err_0@ == e,
                },
                _ => r is Ok && r->Ok_0 is None,
            },
    {
        match msg {
            InboundMessage::Binary(bytes) => {
                match decode_envelope(bytes.as_slice()) {
                    Ok(env) => {
                        self.last_peer_seq = env.seq;
                        Ok(Some(env))
                    },
                    Err(e) => Err(e),
                }
            },
            _ => Ok(None),
        }
    }

    /// Acts on a message received while the answer to the `Hello` is awaited.
    pub fn wait_for_handshake(&mut self, msg: InboundMessage) -> (r: Result<HandshakeProgress, ClientError>)
        ensures
            final(self)@ == (BridgeClientView {
                last_peer_seq: peer_seq_after(old(self)@.last_peer_seq, msg@),
                ..old(self)@
            }),
            match handshake_verdict(msg@) {
                Ok(done) => r is Ok && (r->Ok_0 is Accepted) == done,
                Err(e) => r is Err && r->Err_0@ == e,
            },
    {
        let env = match self.read(msg) {
            Ok(Some(env)) => env,
            Ok(None) => {
                return Ok(HandshakeProgress::Waiting);
            },
            Err(e) => {
                return Err(e);
            },
        };
        match env.payload {
            Some(Payload::HelloAck(ack)) => {
                if ack.accepted {
                    Ok(HandshakeProgress::Accepted)
                } else {
                    Err(ClientError::Rejected { reason: ack.reason })
                }
            },
            Some(Payload::Hello(_)) => Ok(HandshakeProgress::Accepted),
            Some(Payload::Error(err)) => Err(
                ClientError::BridgeError { message: err.message, correlation_id: err.correlation_id },
            ),
            _ => Ok(HandshakeProgress::Waiting),
        }
    }

    /// Acts on a message received on an open session and says which event, if any, it
    /// carries.
    pub fn next_event(&mut self, msg: InboundMessage) -> (r: Result<EventProgress, ClientError>)
        ensures
            final(self)@ == (BridgeClientView {
                last_peer_seq: peer_seq_after(old(self)@.last_peer_seq, msg@),
                ..old(self)@
            }),
            match event_verdict(msg@) {
                Ok(Some(ev)) => r is Ok && r->Ok_0 is Event && r->Ok_0->Event_0@ == ev,
                Ok(None) => r is Ok && r->Ok_0 is Waiting,
                Err(e) => r is Err && r->Err_0@ == e,
            },
    {
        if let InboundMessage::Close = msg {
            return Ok(EventProgress::Event(BridgeEvent::Closed));
        }
        let env = match self.read(msg) {
            Ok(Some(env)) => env,
            Ok(None) => {
                return Ok(EventProgress::Waiting);
            },
            Err(e) => {
                return Err(e);
            },
        };
        match env.payload {
            Some(Payload::Telemetry(t)) => Ok(EventProgress::Event(BridgeEvent::Telemetry(t))),
            Some(Payload::ActionAck(a)) => Ok(EventProgress::Event(BridgeEvent::ActionAck(a))),
            Some(Payload::ActionRes(r)) => Ok(EventProgress::Event(BridgeEvent::ActionResult(r))),
            Some(Payload::Heartbeat(h)) => Ok(EventProgress::Event(BridgeEvent::Heartbeat(h))),
            Some(Payload::HelloAck(ack)) => {
                if ack.accepted {
                    Ok(EventProgress::Waiting)
                } else {
                    Err(ClientError::HelloRejected { reason: ack.reason })
                }
            },
            _ => Ok(EventProgress::Waiting),
        }
    }

    /// Acts on a message received on an open session as a reader that cares for
    /// telemetry alone.
    pub fn next_telemetry(&mut self, msg: InboundMessage) -> (r: Result<TelemetryProgress, ClientError>)
        ensures
            final(self)@ == (BridgeClientView {
                last_peer_seq: peer_seq_after(old(self)@.last_peer_seq, msg@),
                ..old(self)@
            }),
            match event_verdict(msg@) {
                Ok(Some(BridgeEventView::Telemetry(t))) => r is Ok && r->Ok_0 is Frame && r->Ok_0->Frame_0@ == t,
                Ok(Some(BridgeEventView::Closed)) => r is Ok && r->Ok_0 is Closed,
                Ok(_) => r is Ok && r->Ok_0 is Waiting,
                Err(e) => r is Err && r->Err_0@ == e,
            },
    {
        match self.next_event(msg) {
            Ok(EventProgress::Event(BridgeEvent::Telemetry(t))) => Ok(TelemetryProgress::Frame(t)),
            Ok(EventProgress::Event(BridgeEvent::Closed)) => Ok(TelemetryProgress::Closed),
            Ok(_) => Ok(TelemetryProgress::Waiting),
            Err(e) => Err(e),
        }
    }
}

} // verus!
