//! One session of the bridge: its state, the handshake that opens it and what it does
//! with each message it receives.
//!
//! Nothing here touches the network. The functions decide; the caller receives,
//! sends what they hand back, and reports how the sending went.

use crate::bridge::relay::{
    ActionRelayFrame, ActionRelayFrameView, EnqueueErrorView, OrchestratorAcquireError, OrchestratorSlot,
    PrimaryDispatch, PrimaryDispatchView, RelayHub, RelayHubView, ReplyDelivery, ReplyDeliveryView, SendFailure,
};
use crate::ids::{fresh_uuid, is_uuid_text};
use crate::proto::{
    ActionAck, ActionAckView, Capability, Envelope, EnvelopeView, ErrorCode, ErrorFrame, ErrorFrameView, Hello,
    HelloAck, HelloAckView, HelloView, Payload, PayloadView, PeerRole, TimeSyncResponse, TimeSyncResponseView,
    PROTOCOL_VERSION,
};
use crate::wire::frame::{
    decode_frame, encode_frame, frame_bytes, frame_decoded, InboundMessage, InboundMessageView,
};
use vstd::prelude::*;
use vstd::string::*;

verus! {

/// The version the bridge announces in its handshake replies.
pub open spec fn server_version() -> Seq<char> {
    "miqbot-bridge-server/0.3.0"@
}

/// The capabilities the bridge is willing to negotiate, in the order in which it
/// lists them.
pub open spec fn server_negotiable() -> Seq<i32> {
    seq![
        Capability::CapTelemetryV1.spec_to_i32(),
        Capability::CapTimesyncV1.spec_to_i32(),
        Capability::CapActionsV1.spec_to_i32(),
        Capability::CapHelloAckV1.spec_to_i32(),
    ]
}

/// The capabilities the bridge announces to a peer that does not understand
/// `HelloAck`.
pub open spec fn legacy_capabilities() -> Seq<i32> {
    seq![
        Capability::CapTelemetryV1.spec_to_i32(),
        Capability::CapTimesyncV1.spec_to_i32(),
        Capability::CapActionsV1.spec_to_i32(),
    ]
}

/// The capabilities of `offered` that the peer, having `peer_caps`, shares.
pub open spec fn shared_capabilities(offered: Seq<i32>, peer_caps: Seq<i32>) -> Seq<i32>
    decreases offered.len(),
{
    if offered.len() == 0 {
        Seq::empty()
    } else if peer_caps.contains(offered.last()) {
        shared_capabilities(offered.drop_last(), peer_caps).push(offered.last())
    } else {
        shared_capabilities(offered.drop_last(), peer_caps)
    }
}

/// What the bridge and a peer with capabilities `peer_caps` agree on: the bridge's
/// negotiable capabilities that the peer has too, in the bridge's order.
pub open spec fn negotiated(peer_caps: Seq<i32>) -> Seq<i32> {
    shared_capabilities(server_negotiable(), peer_caps)
}

/// Whether `caps` holds `cap`.
pub fn has_capability(caps: &[i32], cap: i32) -> (r: bool)
    ensures
        r == caps@.contains(cap),
{
    let mut i: usize = 0;
    while i < caps.len()
        invariant
            i <= caps@.len(),
            forall|j: int| 0 <= j < i ==> caps@[j] != cap,
        decreases caps@.len() - i,
    {
        if caps[i] == cap {
            return true;
        }
        i += 1;
    }
    false
}

/// The capabilities the bridge and the peer agree on.
pub fn negotiated_capabilities(peer_caps: &[i32]) -> (r: Vec<i32>)
    ensures
        r@ == negotiated(peer_caps@),
{
    let offered: [i32; 4] = [
        Capability::CapTelemetryV1.to_i32(),
        Capability::CapTimesyncV1.to_i32(),
        Capability::CapActionsV1.to_i32(),
        Capability::CapHelloAckV1.to_i32(),
    ];
    let mut out: Vec<i32> = Vec::new();
    let mut i: usize = 0;
    proof {
        assert(offered@ =~= server_negotiable());
        assert(offered@.subrange(0, 0) =~= Seq::<i32>::empty());
    }
    while i < 4
        invariant
            i <= 4,
            offered@ == server_negotiable(),
            out@ == shared_capabilities(offered@.subrange(0, i as int), peer_caps@),
        decreases 4 - i,
    {
        proof {
            let next = offered@.subrange(0, i as int + 1);
            assert(next.drop_last() =~= offered@.subrange(0, i as int));
            assert(next.last() == offered@[i as int]);
        }
        if has_capability(peer_caps, offered[i]) {
            out.push(offered[i]);
        }
        i += 1;
    }
    proof {
        assert(offered@.subrange(0, 4) =~= offered@);
    }
    out
}

/// What the bridge knows of one session.
#[derive(Debug)]
pub struct SessionState {
    pub session_id: String,
    pub server_seq: u64,
    pub last_peer_seq: u64,
    pub agent_id: Option<String>,
    pub peer_role: PeerRole,
    pub peer_caps: Vec<i32>,
    pub send_timeout_ms: u64,
    pub is_primary_game: bool,
}

/// The mathematical value of a `SessionState`.
pub struct SessionStateView {
    pub session_id: Seq<char>,
    pub server_seq: u64,
    pub last_peer_seq: u64,
    pub agent_id: Option<Seq<char>>,
    pub peer_role: PeerRole,
    pub peer_caps: Seq<i32>,
    pub send_timeout_ms: u64,
    pub is_primary_game: bool,
}

impl View for SessionState {
    type V = SessionStateView;

    open spec fn view(&self) -> SessionStateView {
        SessionStateView {
            session_id: self.session_id@,
            server_seq: self.server_seq,
            last_peer_seq: self.last_peer_seq,
            agent_id: match self.agent_id {
                Some(a) => Some(a@),
                None => None,
            },
            peer_role: self.peer_role,
            peer_caps: self.peer_caps@,
            send_timeout_ms: self.send_timeout_ms,
            is_primary_game: self.is_primary_game,
        }
    }
}

impl SessionStateView {
    /// The state of a session that has just been accepted.
    pub open spec fn fresh(session_id: Seq<char>, send_timeout_ms: u64) -> SessionStateView {
        SessionStateView {
            session_id,
            server_seq: 0,
            last_peer_seq: 0,
            agent_id: None,
            peer_role: PeerRole::PeerRoleUnspecified,
            peer_caps: Seq::empty(),
            send_timeout_ms,
            is_primary_game: false,
        }
    }

    /// Whether the peer understands `HelloAck`.
    pub open spec fn supports_hello_ack(self) -> bool {
        self.peer_caps.contains(Capability::CapHelloAckV1.spec_to_i32())
    }

    /// Whether this is the session of the primary game client.
    pub open spec fn speaks_for_primary(self) -> bool {
        self.peer_role == PeerRole::PeerRoleGameClient && self.is_primary_game
    }

    /// The envelope that carries `payload` as the next frame of this session.
    pub open spec fn envelope_for(self, payload: PayloadView, mono_ms: u64, wall_unix_ms: u64) -> EnvelopeView {
        EnvelopeView {
            protocol_version: PROTOCOL_VERSION,
            session_id: self.session_id,
            seq: (self.server_seq + 1) as u64,
            ack: self.last_peer_seq,
            mono_ms,
            wall_unix_ms,
            payload: Some(payload),
        }
    }

    /// The state after one more frame was sent.
    pub open spec fn after_send(self) -> SessionStateView {
        SessionStateView { server_seq: (self.server_seq + 1) as u64, ..self }
    }
}

impl SessionState {
    /// The state of a session that has just been accepted, under a fresh random
    /// session id.
    pub fn new(send_timeout_ms: u64) -> (st: Self)
        ensures
            is_uuid_text(st@.session_id),
            st@ == SessionStateView::fresh(st@.session_id, send_timeout_ms),
    {
        Self::with_session_id(fresh_uuid(), send_timeout_ms)
    }

    /// The state of a session that has just been accepted, under the given session
    /// id.
    pub fn with_session_id(session_id: String, send_timeout_ms: u64) -> (st: Self)
        ensures
            st@ == SessionStateView::fresh(session_id@, send_timeout_ms),
    {
        Self {
            session_id,
            server_seq: 0,
            last_peer_seq: 0,
            agent_id: None,
            peer_role: PeerRole::PeerRoleUnspecified,
            peer_caps: Vec::new(),
            send_timeout_ms,
            is_primary_game: false,
        }
    }

    /// Whether the peer understands `HelloAck`.
    pub fn supports_hello_ack(&self) -> (r: bool)
        ensures
            r == self@.supports_hello_ack(),
    {
        has_capability(self.peer_caps.as_slice(), Capability::CapHelloAckV1.to_i32())
    }

    /// Wraps `payload` in the envelope of the session's next frame: it takes the next
    /// sequence number, which is one more than that of the frame before and never
    /// zero, and acknowledges the last frame seen from the peer.
    pub fn next_envelope(&mut self, payload: Payload, mono_ms: u64, wall_unix_ms: u64) -> (env: Envelope)
        requires
            old(self)@.server_seq < u64::MAX,
        ensures
            env@ == old(self)@.envelope_for(payload@, mono_ms, wall_unix_ms),
            final(self)@ == old(self)@.after_send(),
            env@.seq == old(self)@.server_seq + 1,
            env@.seq > 0,
            final(self)@.server_seq == env@.seq,
    {
        self.server_seq = self.server_seq + 1;
        Envelope {
            protocol_version: PROTOCOL_VERSION,
            session_id: self.session_id.clone(),
            seq: self.server_seq,
            ack: self.last_peer_seq,
            mono_ms,
            wall_unix_ms,
            payload: Some(payload),
        }
    }

    /// Encodes `payload` as the session's next frame. Gives `None`, and leaves the
    /// session as it was, once the sequence numbers are used up.
    pub fn next_frame(&mut self, payload: Payload, mono_ms: u64, wall_unix_ms: u64) -> (frame: Option<Vec<u8>>)
        ensures
            old(self)@.server_seq == u64::MAX ==> frame is None && final(self)@ == old(self)@,
            old(self)@.server_seq < u64::MAX ==> frame is Some && frame->0@ == frame_bytes(
                old(self)@.envelope_for(payload@, mono_ms, wall_unix_ms),
            ) && final(self)@ == old(self)@.after_send(),
    {
        if self.server_seq == u64::MAX {
            return None;
        }
        let env = self.next_envelope(payload, mono_ms, wall_unix_ms);
        Some(encode_frame(&env))
    }
}

/// Of two frames sent one after the other on a session, the second carries the
/// sequence number that follows the first's, and no frame carries zero.
pub proof fn lemma_sequence_numbers(
    st: SessionStateView,
    p1: PayloadView,
    p2: PayloadView,
    mono1: u64,
    wall1: u64,
    mono2: u64,
    wall2: u64,
)
    requires
        st.server_seq < u64::MAX - 1,
    ensures
        st.envelope_for(p1, mono1, wall1).seq > 0,
        st.after_send().envelope_for(p2, mono2, wall2).seq == st.envelope_for(p1, mono1, wall1).seq + 1,
{
}

/// What the wait for a session's first frame gave.
#[derive(Debug)]
pub enum HelloArrival {
    /// Nothing arrived within the time allowed.
    TimedOut,
    /// The connection ended first.
    Closed,
    /// A frame with these bytes arrived.
    Frame(Vec<u8>),
}

/// The mathematical value of a `HelloArrival`.
pub enum HelloArrivalView {
    TimedOut,
    Closed,
    Frame(Seq<u8>),
}

impl View for HelloArrival {
    type V = HelloArrivalView;

    open spec fn view(&self) -> HelloArrivalView {
        match self {
            HelloArrival::TimedOut => HelloArrivalView::TimedOut,
            HelloArrival::Closed => HelloArrivalView::Closed,
            HelloArrival::Frame(b) => HelloArrivalView::Frame(b@),
        }
    }
}

/// Why a handshake did not lead to a session.
#[derive(Clone, Copy, Debug, PartialEq, Eq, Structural)]
pub enum HandshakeFailure {
    HelloTimeout,
    ClosedBeforeHello,
    DecodeFailed,
    VersionMismatch,
    ExpectedHello,
    PrimaryUnavailable,
    OrchestratorsDisabled,
    OrchestratorLimitReached,
    UnsupportedRole,
}

impl HandshakeFailure {
    /// The text that explains the failure. For a refusal that follows a well-formed
    /// `Hello` it is also the reason the peer is given.
    pub open spec fn spec_message(self) -> Seq<char> {
        match self {
            HandshakeFailure::HelloTimeout => "hello timeout"@,
            HandshakeFailure::ClosedBeforeHello => "ws closed before hello"@,
            HandshakeFailure::DecodeFailed => "invalid hello envelope"@,
            HandshakeFailure::VersionMismatch => "protocol_version mismatch"@,
            HandshakeFailure::ExpectedHello => "expected hello"@,
            HandshakeFailure::PrimaryUnavailable => "primary game sender is unavailable"@,
            HandshakeFailure::OrchestratorsDisabled => "orchestrator subscriptions are disabled"@,
            HandshakeFailure::OrchestratorLimitReached => "orchestrator subscription limit reached"@,
            HandshakeFailure::UnsupportedRole => "unsupported peer role"@,
        }
    }

    pub fn message(self) -> (r: &'static str)
        ensures
            r@ == self.spec_message(),
    {
        match self {
            HandshakeFailure::HelloTimeout => "hello timeout",
            HandshakeFailure::ClosedBeforeHello => "ws closed before hello",
            HandshakeFailure::DecodeFailed => "invalid hello envelope",
            HandshakeFailure::VersionMismatch => "protocol_version mismatch",
            HandshakeFailure::ExpectedHello => "expected hello",
            HandshakeFailure::PrimaryUnavailable => "primary game sender is unavailable",
            HandshakeFailure::OrchestratorsDisabled => "orchestrator subscriptions are disabled",
            HandshakeFailure::OrchestratorLimitReached => "orchestrator subscription limit reached",
            HandshakeFailure::UnsupportedRole => "unsupported peer role",
        }
    }

    /// The error code sent to a peer whose handshake failed before its `Hello` was
    /// understood, and to a peer without `HelloAck` that was refused after.
    pub open spec fn spec_error_code(self) -> ErrorCode {
        match self {
            HandshakeFailure::HelloTimeout => ErrorCode::ErrorCodeTimeout,
            HandshakeFailure::DecodeFailed => ErrorCode::ErrorCodeDecodeFailed,
            HandshakeFailure::VersionMismatch => ErrorCode::ErrorCodeProtocolViolation,
            HandshakeFailure::ExpectedHello => ErrorCode::ErrorCodeProtocolViolation,
            _ => ErrorCode::ErrorCodeUnauthorized,
        }
    }

    pub fn error_code(self) -> (r: ErrorCode)
        ensures
            r == self.spec_error_code(),
    {
        match self {
            HandshakeFailure::HelloTimeout => ErrorCode::ErrorCodeTimeout,
            HandshakeFailure::DecodeFailed => ErrorCode::ErrorCodeDecodeFailed,
            HandshakeFailure::VersionMismatch => ErrorCode::ErrorCodeProtocolViolation,
            HandshakeFailure::ExpectedHello => ErrorCode::ErrorCodeProtocolViolation,
            _ => ErrorCode::ErrorCodeUnauthorized,
        }
    }

    /// The stage named in the correlation id of the error frame.
    pub open spec fn spec_stage(self) -> Seq<char> {
        match self {
            HandshakeFailure::HelloTimeout => "hello-timeout"@,
            HandshakeFailure::DecodeFailed => "hello-decode"@,
            HandshakeFailure::VersionMismatch => "hello-proto"@,
            HandshakeFailure::ExpectedHello => "hello-shape"@,
            _ => "hello-reject"@,
        }
    }

    pub fn stage(self) -> (r: &'static str)
        ensures
            r@ == self.spec_stage(),
    {
        match self {
            HandshakeFailure::HelloTimeout => "hello-timeout",
            HandshakeFailure::DecodeFailed => "hello-decode",
            HandshakeFailure::VersionMismatch => "hello-proto",
            HandshakeFailure::ExpectedHello => "hello-shape",
            _ => "hello-reject",
        }
    }

    /// Whether the failure came after a well-formed `Hello`, so that the peer is
    /// answered in the way its capabilities call for.
    pub open spec fn is_refusal(self) -> bool {
        match self {
            HandshakeFailure::PrimaryUnavailable => true,
            HandshakeFailure::OrchestratorsDisabled => true,
            HandshakeFailure::OrchestratorLimitReached => true,
            HandshakeFailure::UnsupportedRole => true,
            _ => false,
        }
    }
}

/// What an accepted session is to the hub.
#[derive(Clone, Copy, Debug, PartialEq, Eq, Structural)]
pub enum SessionRole {
    /// The primary game client: its telemetry is broadcast and actions are routed to
    /// it.
    PrimaryGame,
    /// A game client that is not the primary: it is listened to and nothing more.
    ObserverGame,
    /// An orchestrator: it receives telemetry and issues actions.
    Orchestrator,
}

/// How a handshake ended.
#[derive(Debug)]
pub enum Handshake {
    /// The session is open. `reply` is to be sent; an orchestrator's `slot` is to be
    /// given back to the hub when the session ends.
    Accepted { role: SessionRole, slot: Option<OrchestratorSlot>, reply: Payload },
    /// The session is to be closed, after `reply` is sent where there is one.
    Refused { failure: HandshakeFailure, reply: Option<Payload> },
}

/// The mathematical value of a `Handshake`.
pub enum HandshakeView {
    Accepted { role: SessionRole, reply: PayloadView },
    Refused { failure: HandshakeFailure, reply: Option<PayloadView> },
}

impl View for Handshake {
    type V = HandshakeView;

    open spec fn view(&self) -> HandshakeView {
        match self {
            Handshake::Accepted { role, slot, reply } => HandshakeView::Accepted { role: *role, reply: reply@ },
            Handshake::Refused { failure, reply } => HandshakeView::Refused {
                failure: *failure,
                reply: match reply {
                    Some(p) => Some(p@),
                    None => None,
                },
            },
        }
    }
}

/// The payload that reports an error. Its correlation id is made of the stage at
/// which the error arose and a unique part.
pub open spec fn error_payload(code: ErrorCode, message: Seq<char>, stage: Seq<char>, unique: Seq<char>) -> PayloadView {
    PayloadView::Error(
        ErrorFrameView { code: code.spec_to_i32(), message, correlation_id: stage + "-"@ + unique },
    )
}

/// The reply that opens a session: a `HelloAck` for a peer that understands it, a
/// `Hello` of the bridge's own for one that does not. Either carries the session id
/// as the handshake id.
pub open spec fn accept_reply(st: SessionStateView) -> PayloadView {
    if st.supports_hello_ack() {
        PayloadView::HelloAck(
            HelloAckView {
                handshake_id: st.session_id,
                accepted: true,
                reason: "ok"@,
                negotiated_capabilities: negotiated(st.peer_caps),
                server_version: server_version(),
            },
        )
    } else {
        PayloadView::Hello(
            HelloView {
                agent_id: "bridge"@,
                role: PeerRole::PeerRoleBridgeServer.spec_to_i32(),
                capabilities: legacy_capabilities(),
                client_version: server_version(),
                handshake_id: st.session_id,
            },
        )
    }
}

/// The reply that refuses a session for `reason`: a `HelloAck` for a peer that
/// understands it, an error frame for one that does not.
pub open spec fn reject_reply(st: SessionStateView, reason: Seq<char>, unique: Seq<char>) -> PayloadView {
    if st.supports_hello_ack() {
        PayloadView::HelloAck(
            HelloAckView {
                handshake_id: st.session_id,
                accepted: false,
                reason,
                negotiated_capabilities: Seq::empty(),
                server_version: server_version(),
            },
        )
    } else {
        error_payload(ErrorCode::ErrorCodeUnauthorized, reason, "hello-reject"@, unique)
    }
}

/// The reply to a handshake that failed with `failure`, if the peer is sent one.
pub open spec fn failure_reply(st: SessionStateView, failure: HandshakeFailure, unique: Seq<char>) -> Option<
    PayloadView,
> {
    if failure == HandshakeFailure::ClosedBeforeHello {
        None
    } else if failure.is_refusal() {
        Some(reject_reply(st, failure.spec_message(), unique))
    } else {
        Some(error_payload(failure.spec_error_code(), failure.spec_message(), failure.spec_stage(), unique))
    }
}

/// Session, hub and outcome after a handshake.
pub struct HandshakeStep {
    pub st: SessionStateView,
    pub hub: RelayHubView,
    pub outcome: HandshakeView,
}

/// The session after the peer's `Hello` was taken down. The handshake id the peer
/// proposes is not recorded.
pub open spec fn after_hello(st: SessionStateView, hello: HelloView) -> SessionStateView {
    SessionStateView {
        agent_id: Some(hello.agent_id),
        peer_caps: hello.capabilities,
        peer_role: match PeerRole::spec_from_i32(hello.role) {
            Some(r) => r,
            None => PeerRole::PeerRoleUnspecified,
        },
        ..st
    }
}

/// The hub's decision on a peer whose `Hello` is recorded in `st`: the role it gets,
/// or why it gets none.
pub open spec fn admission(st: SessionStateView, hub: RelayHubView) -> Result<SessionRole, HandshakeFailure> {
    match st.peer_role {
        PeerRole::PeerRoleGameClient => if st.agent_id == Some(hub.cfg.primary_game_agent_id) {
            if hub.primary is Some {
                Err(HandshakeFailure::PrimaryUnavailable)
            } else {
                Ok(SessionRole::PrimaryGame)
            }
        } else {
            Ok(SessionRole::ObserverGame)
        },
        PeerRole::PeerRoleOrchestrator => match hub.acquire_refusal() {
            Some(OrchestratorAcquireError::NotAllowed) => Err(HandshakeFailure::OrchestratorsDisabled),
            Some(OrchestratorAcquireError::LimitReached) => Err(HandshakeFailure::OrchestratorLimitReached),
            None => Ok(SessionRole::Orchestrator),
        },
        _ => Err(HandshakeFailure::UnsupportedRole),
    }
}

/// The handshake on a decoded first frame.
pub open spec fn handshake_on_envelope(
    st: SessionStateView,
    hub: RelayHubView,
    env: EnvelopeView,
    sender: u64,
    unique: Seq<char>,
) -> HandshakeStep {
    let seen = SessionStateView { last_peer_seq: env.seq, ..st };
    if env.protocol_version != PROTOCOL_VERSION {
        HandshakeStep {
            st: seen,
            hub,
            outcome: HandshakeView::Refused {
                failure: HandshakeFailure::VersionMismatch,
                reply: failure_reply(seen, HandshakeFailure::VersionMismatch, unique),
            },
        }
    } else {
        match env.payload {
            Some(PayloadView::Hello(hello)) => {
                let known = after_hello(seen, hello);
                match admission(known, hub) {
                    Ok(SessionRole::PrimaryGame) => HandshakeStep {
                        st: SessionStateView { is_primary_game: true, ..known },
                        hub: RelayHubView { primary: Some(sender), ..hub },
                        outcome: HandshakeView::Accepted { role: SessionRole::PrimaryGame, reply: accept_reply(known) },
                    },
                    Ok(SessionRole::Orchestrator) => HandshakeStep {
                        st: known,
                        hub: hub.after_acquire(),
                        outcome: HandshakeView::Accepted { role: SessionRole::Orchestrator, reply: accept_reply(known) },
                    },
                    Ok(role) => HandshakeStep {
                        st: known,
                        hub,
                        outcome: HandshakeView::Accepted { role, reply: accept_reply(known) },
                    },
                    Err(failure) => HandshakeStep {
                        st: known,
                        hub,
                        outcome: HandshakeView::Refused { failure, reply: failure_reply(known, failure, unique) },
                    },
                }
            },
            _ => HandshakeStep {
                st: seen,
                hub,
                outcome: HandshakeView::Refused {
                    failure: HandshakeFailure::ExpectedHello,
                    reply: failure_reply(seen, HandshakeFailure::ExpectedHello, unique),
                },
            },
        }
    }
}

/// The handshake: what becomes of session and hub, and how it ends, given what the
/// wait for the first frame gave.
pub open spec fn handshake_step(
    st: SessionStateView,
    hub: RelayHubView,
    arrival: HelloArrivalView,
    max_len: usize,
    sender: u64,
    unique: Seq<char>,
) -> HandshakeStep {
    match arrival {
        HelloArrivalView::TimedOut => HandshakeStep {
            st,
            hub,
            outcome: HandshakeView::Refused {
                failure: HandshakeFailure::HelloTimeout,
                reply: failure_reply(st, HandshakeFailure::HelloTimeout, unique),
            },
        },
        HelloArrivalView::Closed => HandshakeStep {
            st,
            hub,
            outcome: HandshakeView::Refused { failure: HandshakeFailure::ClosedBeforeHello, reply: None },
        },
        HelloArrivalView::Frame(bytes) => match frame_decoded(bytes, max_len) {
            Ok(env) => handshake_on_envelope(st, hub, env, sender, unique),
            Err(_) => HandshakeStep {
                st,
                hub,
                outcome: HandshakeView::Refused {
                    failure: HandshakeFailure::DecodeFailed,
                    reply: failure_reply(st, HandshakeFailure::DecodeFailed, unique),
                },
            },
        },
    }
}

/// Builds the payload that reports an error.
pub fn error_frame(code: ErrorCode, message: &str, stage: &str, unique: &str) -> (p: Payload)
    ensures
        p@ == error_payload(code, message@, stage@, unique@),
{
    let mut correlation_id = String::from_str(stage);
    correlation_id.append("-");
    correlation_id.append(unique);
    Payload::Error(ErrorFrame { code: code.to_i32(), message: String::from_str(message), correlation_id })
}

/// Builds the reply that opens a session.
pub fn handshake_ok_reply(st: &SessionState) -> (p: Payload)
    ensures
        p@ == accept_reply(st@),
{
    if st.supports_hello_ack() {
        Payload::HelloAck(
            HelloAck {
                handshake_id: st.session_id.clone(),
                accepted: true,
                reason: String::from_str("ok"),
                negotiated_capabilities: negotiated_capabilities(st.peer_caps.as_slice()),
                server_version: String::from_str("miqbot-bridge-server/0.3.0"),
            },
        )
    } else {
        let mut capabilities: Vec<i32> = Vec::new();
        capabilities.push(Capability::CapTelemetryV1.to_i32());
        capabilities.push(Capability::CapTimesyncV1.to_i32());
        capabilities.push(Capability::CapActionsV1.to_i32());
        proof {
            assert(capabilities@ =~= legacy_capabilities());
        }
        Payload::Hello(
            Hello {
                agent_id: String::from_str("bridge"),
                role: PeerRole::PeerRoleBridgeServer.to_i32(),
                capabilities,
                client_version: String::from_str("miqbot-bridge-server/0.3.0"),
                handshake_id: st.session_id.clone(),
            },
        )
    }
}

/// Builds the reply that refuses a session for `reason`.
pub fn handshake_reject_reply(st: &SessionState, reason: &str, unique: &str) -> (p: Payload)
    ensures
        p@ == reject_reply(st@, reason@, unique@),
{
    if st.supports_hello_ack() {
        let none: Vec<i32> = Vec::new();
        proof {
            assert(none@ =~= Seq::<i32>::empty());
        }
        Payload::HelloAck(
            HelloAck {
                handshake_id: st.session_id.clone(),
                accepted: false,
                reason: String::from_str(reason),
                negotiated_capabilities: none,
                server_version: String::from_str("miqbot-bridge-server/0.3.0"),
            },
        )
    } else {
        error_frame(ErrorCode::ErrorCodeUnauthorized, reason, "hello-reject", unique)
    }
}

fn refuse(st: &SessionState, failure: HandshakeFailure, unique: &str) -> (h: Handshake)
    ensures
        h@ == (HandshakeView::Refused { failure, reply: failure_reply(st@, failure, unique@) }),
{
    let reply = match failure {
        HandshakeFailure::ClosedBeforeHello => None,
        HandshakeFailure::PrimaryUnavailable => Some(handshake_reject_reply(st, failure.message(), unique)),
        HandshakeFailure::OrchestratorsDisabled => Some(handshake_reject_reply(st, failure.message(), unique)),
        HandshakeFailure::OrchestratorLimitReached => Some(handshake_reject_reply(st, failure.message(), unique)),
        HandshakeFailure::UnsupportedRole => Some(handshake_reject_reply(st, failure.message(), unique)),
        _ => Some(error_frame(failure.error_code(), failure.message(), failure.stage(), unique)),
    };
    Handshake::Refused { failure, reply }
}

/// Runs the handshake of a new session on what the wait for its first frame gave.
/// `sender` names the channel on which the hub is to hand the session its actions,
/// should it become the primary game client's; `unique` is the unique part of the
/// correlation id of an error frame, should one be sent.
pub fn handshake_with(
    st: &mut SessionState,
    hub: &mut RelayHub,
    arrival: HelloArrival,
    max_len: usize,
    sender: u64,
    unique: &str,
) -> (h: Handshake)
    ensures
        final(st)@ == handshake_step(old(st)@, old(hub)@, arrival@, max_len, sender, unique@).st,
        final(hub)@ == handshake_step(old(st)@, old(hub)@, arrival@, max_len, sender, unique@).hub,
        h@ == handshake_step(old(st)@, old(hub)@, arrival@, max_len, sender, unique@).outcome,
        match h {
            Handshake::Accepted { role, slot, reply } => (slot is Some) == (role == SessionRole::Orchestrator),
            Handshake::Refused { failure, reply } => true,
        },
        old(hub)@.wf() ==> final(hub)@.wf(),
{
    let bytes = match arrival {
        HelloArrival::TimedOut => {
            return refuse(st, HandshakeFailure::HelloTimeout, unique);
        },
        HelloArrival::Closed => {
            return refuse(st, HandshakeFailure::ClosedBeforeHello, unique);
        },
        HelloArrival::Frame(bytes) => bytes,
    };
    let env = match decode_frame(bytes.as_slice(), max_len) {
        Ok(env) => env,
        Err(_) => {
            return refuse(st, HandshakeFailure::DecodeFailed, unique);
        },
    };
    st.last_peer_seq = env.seq;
    if env.protocol_version != PROTOCOL_VERSION {
        return refuse(st, HandshakeFailure::VersionMismatch, unique);
    }
    let hello = match env.payload {
        Some(Payload::Hello(h)) => h,
        _ => {
            return refuse(st, HandshakeFailure::ExpectedHello, unique);
        },
    };
    st.agent_id = Some(hello.agent_id.clone());
    st.peer_caps = hello.capabilities.clone();
    st.peer_role = match PeerRole::from_i32(hello.role) {
        Some(r) => r,
        None => PeerRole::PeerRoleUnspecified,
    };
    let ghost known = st@;
    match st.peer_role {
        PeerRole::PeerRoleGameClient => {
            if hub.is_primary_game_agent(hello.agent_id.as_str()) {
                match hub.attach_primary_game_sender(sender, hello.agent_id.as_str()) {
                    Ok(()) => {
                        let reply = handshake_ok_reply(st);
                        st.is_primary_game = true;
                        Handshake::Accepted { role: SessionRole::PrimaryGame, slot: None, reply }
                    },
                    Err(_) => refuse(st, HandshakeFailure::PrimaryUnavailable, unique),
                }
            } else {
                let reply = handshake_ok_reply(st);
                Handshake::Accepted { role: SessionRole::ObserverGame, slot: None, reply }
            }
        },
        PeerRole::PeerRoleOrchestrator => {
            match hub.acquire_orchestrator_slot() {
                Ok(slot) => {
                    let reply = handshake_ok_reply(st);
                    Handshake::Accepted { role: SessionRole::Orchestrator, slot: Some(slot), reply }
                },
                Err(OrchestratorAcquireError::NotAllowed) => refuse(
                    st,
                    HandshakeFailure::OrchestratorsDisabled,
                    unique,
                ),
                Err(OrchestratorAcquireError::LimitReached) => refuse(
                    st,
                    HandshakeFailure::OrchestratorLimitReached,
                    unique,
                ),
            }
        },
        _ => refuse(st, HandshakeFailure::UnsupportedRole, unique),
    }
}

/// Runs the handshake of a new session, drawing a fresh random identifier for the
/// correlation id of an error frame.
pub fn handshake(st: &mut SessionState, hub: &mut RelayHub, arrival: HelloArrival, max_len: usize, sender: u64) -> (h:
    Handshake)
    ensures
        exists|unique: Seq<char>|
            is_uuid_text(unique) && #[trigger] handshake_step(
                old(st)@,
                old(hub)@,
                arrival@,
                max_len,
                sender,
                unique,
            ) == (HandshakeStep { st: final(st)@, hub: final(hub)@, outcome: h@ }),
        match h {
            Handshake::Accepted { role, slot, reply } => (slot is Some) == (role == SessionRole::Orchestrator),
            Handshake::Refused { failure, reply } => true,
        },
        old(hub)@.wf() ==> final(hub)@.wf(),
{
    let unique = fresh_uuid();
    let h = handshake_with(st, hub, arrival, max_len, sender, unique.as_str());
    proof {
        let step = handshake_step(old(st)@, old(hub)@, arrival@, max_len, sender, unique@);
        assert(step == (HandshakeStep { st: st@, hub: hub@, outcome: h@ }));
    }
    h
}

/// The handshake id a peer proposes in its `Hello` has no bearing on the handshake:
/// two first frames that differ in nothing else lead to the same session, the same
/// hub and the same reply, whose handshake id is the session's own.
pub proof fn lemma_client_handshake_id_ignored(
    st: SessionStateView,
    hub: RelayHubView,
    env: EnvelopeView,
    hello: HelloView,
    proposed: Seq<char>,
    sender: u64,
    unique: Seq<char>,
)
    requires
        env.payload == Some(PayloadView::Hello(hello)),
    ensures
        handshake_on_envelope(
            st,
            hub,
            EnvelopeView { payload: Some(PayloadView::Hello(HelloView { handshake_id: proposed, ..hello })), ..env },
            sender,
            unique,
        ) == handshake_on_envelope(st, hub, env, sender, unique),
        match handshake_on_envelope(st, hub, env, sender, unique).outcome {
            HandshakeView::Accepted { role, reply } => match reply {
                PayloadView::HelloAck(ack) => ack.handshake_id == st.session_id,
                PayloadView::Hello(h) => h.handshake_id == st.session_id,
                _ => false,
            },
            HandshakeView::Refused { failure, reply } => match reply {
                Some(PayloadView::HelloAck(ack)) => ack.handshake_id == st.session_id,
                Some(PayloadView::Error(_)) => true,
                Some(_) => false,
                None => true,
            },
        },
{
}

/// What a session wants done after it has looked at a message.
#[derive(Debug)]
pub enum SessionAction {
    /// Send this payload to the session's own peer.
    Reply(Payload),
    /// Send this frame on the reply channel of an orchestrator's session. Should the
    /// channel be closed, tell the hub with `RelayHub::reply_channel_closed` if the
    /// frame is an acknowledgement.
    Deliver(ReplyDelivery),
    /// Send this request on to the primary game client. Should that fail, call
    /// `forward_failed` and send what it gives.
    Forward(PrimaryDispatch),
}

/// The mathematical value of a `SessionAction`.
pub enum SessionActionView {
    Reply(PayloadView),
    Deliver(ReplyDeliveryView),
    Forward(PrimaryDispatchView),
}

impl View for SessionAction {
    type V = SessionActionView;

    open spec fn view(&self) -> SessionActionView {
        match self {
            SessionAction::Reply(p) => SessionActionView::Reply(p@),
            SessionAction::Deliver(d) => SessionActionView::Deliver(d@),
            SessionAction::Forward(d) => SessionActionView::Forward(d@),
        }
    }
}

/// What came of a message: whether the session goes on, and what is to be done.
#[derive(Debug)]
pub struct Handled {
    pub keep_open: bool,
    pub action: Option<SessionAction>,
}

/// Session, hub and what is to be done after a message.
pub struct MessageStep {
    pub st: SessionStateView,
    pub hub: RelayHubView,
    pub keep_open: bool,
    pub action: Option<SessionActionView>,
}

/// The rejection sent to an orchestrator whose request `request_id` did not reach the
/// primary game client.
pub open spec fn enqueue_nack(request_id: Seq<char>, error: EnqueueErrorView) -> PayloadView {
    PayloadView::ActionAck(ActionAckView { request_id, accepted: false, reason: error.message() })
}

/// What a session does with a decoded envelope of the right protocol version.
pub open spec fn envelope_step(
    st: SessionStateView,
    hub: RelayHubView,
    env: EnvelopeView,
    reply_to: Option<u64>,
    now_mono_ms: u64,
) -> MessageStep {
    let seen = SessionStateView { last_peer_seq: env.seq, ..st };
    let idle = MessageStep { st: seen, hub, keep_open: true, action: None };
    match env.payload {
        Some(PayloadView::Telemetry(t)) => if st.speaks_for_primary() {
            MessageStep { hub: hub.after_publish(now_mono_ms, t), ..idle }
        } else {
            idle
        },
        Some(PayloadView::TimeSyncReq(req)) => MessageStep {
            action: Some(
                SessionActionView::Reply(
                    PayloadView::TimeSyncRes(
                        TimeSyncResponseView {
                            t0_mono_ms: req.t0_mono_ms,
                            t1_mono_ms: now_mono_ms,
                            t2_mono_ms: now_mono_ms,
                        },
                    ),
                ),
            ),
            ..idle
        },
        Some(PayloadView::ActionReq(req)) => if st.peer_role != PeerRole::PeerRoleOrchestrator || reply_to is None {
            idle
        } else {
            match hub.enqueue_refusal(req) {
                Some(e) => MessageStep {
                    action: Some(SessionActionView::Reply(enqueue_nack(req.request_id, e))),
                    ..idle
                },
                None => MessageStep {
                    hub: hub.after_enqueue(req, reply_to->0),
                    action: Some(
                        SessionActionView::Forward(
                            PrimaryDispatchView {
                                sender: hub.primary->0,
                                request: req,
                                timeout_ms: hub.cfg.action_send_timeout_ms,
                            },
                        ),
                    ),
                    ..idle
                },
            }
        },
        Some(PayloadView::ActionAck(ack)) => if st.speaks_for_primary() {
            MessageStep {
                hub: hub.after_ack(ack),
                action: match hub.ack_delivery(ack) {
                    Some(d) => Some(SessionActionView::Deliver(d)),
                    None => None,
                },
                ..idle
            }
        } else {
            idle
        },
        Some(PayloadView::ActionRes(res)) => if st.speaks_for_primary() {
            MessageStep {
                hub: hub.after_forget(res.request_id),
                action: match hub.result_delivery(res) {
                    Some(d) => Some(SessionActionView::Deliver(d)),
                    None => None,
                },
                ..idle
            }
        } else {
            idle
        },
        _ => idle,
    }
}

/// What a session does with a message: a close ends it; anything but a binary frame
/// is ignored; a binary frame that does not decode, or is of another protocol
/// version, is answered with an error frame and the session goes on; any other
/// frame is acted on according to its payload.
pub open spec fn message_step(
    st: SessionStateView,
    hub: RelayHubView,
    msg: InboundMessageView,
    reply_to: Option<u64>,
    max_len: usize,
    now_mono_ms: u64,
    unique: Seq<char>,
) -> MessageStep {
    match msg {
        InboundMessageView::Close => MessageStep { st, hub, keep_open: false, action: None },
        InboundMessageView::Binary(bytes) => match frame_decoded(bytes, max_len) {
            Err(_) => MessageStep {
                st,
                hub,
                keep_open: true,
                action: Some(
                    SessionActionView::Reply(
                        error_payload(ErrorCode::ErrorCodeDecodeFailed, "decode failed"@, "msg-decode"@, unique),
                    ),
                ),
            },
            Ok(env) => if env.protocol_version != PROTOCOL_VERSION {
                MessageStep {
                    st,
                    hub,
                    keep_open: true,
                    action: Some(
                        SessionActionView::Reply(
                            error_payload(
                                ErrorCode::ErrorCodeProtocolViolation,
                                "protocol_version mismatch"@,
                                "msg-proto"@,
                                unique,
                            ),
                        ),
                    ),
                }
            } else {
                envelope_step(st, hub, env, reply_to, now_mono_ms)
            },
        },
        _ => MessageStep { st, hub, keep_open: true, action: None },
    }
}

/// Acts on a message received on an open session. `reply_to` names the session's
/// reply channel, if it is an orchestrator's; `unique` is the unique part of the
/// correlation id of an error frame, should one be sent.
pub fn handle_message_with(
    st: &mut SessionState,
    hub: &mut RelayHub,
    msg: InboundMessage,
    reply_to: Option<u64>,
    max_len: usize,
    now_mono_ms: u64,
    unique: &str,
) -> (r: Handled)
    ensures
        final(st)@ == message_step(old(st)@, old(hub)@, msg@, reply_to, max_len, now_mono_ms, unique@).st,
        final(hub)@ == message_step(old(st)@, old(hub)@, msg@, reply_to, max_len, now_mono_ms, unique@).hub,
        r.keep_open == message_step(old(st)@, old(hub)@, msg@, reply_to, max_len, now_mono_ms, unique@).keep_open,
        match message_step(old(st)@, old(hub)@, msg@, reply_to, max_len, now_mono_ms, unique@).action {
            Some(a) => r.action is Some && r.action->0@ == a,
            None => r.action is None,
        },
        old(hub)@.wf() ==> final(hub)@.wf(),
{
    let bytes = match msg {
        InboundMessage::Close => {
            return Handled { keep_open: false, action: None };
        },
        InboundMessage::Binary(bytes) => bytes,
        _ => {
            return Handled { keep_open: true, action: None };
        },
    };
    let env = match decode_frame(bytes.as_slice(), max_len) {
        Ok(env) => env,
        Err(_) => {
            let reply = error_frame(ErrorCode::ErrorCodeDecodeFailed, "decode failed", "msg-decode", unique);
            return Handled { keep_open: true, action: Some(SessionAction::Reply(reply)) };
        },
    };
    if env.protocol_version != PROTOCOL_VERSION {
        let reply = error_frame(
            ErrorCode::ErrorCodeProtocolViolation,
            "protocol_version mismatch",
            "msg-proto",
            unique,
        );
        return Handled { keep_open: true, action: Some(SessionAction::Reply(reply)) };
    }
    st.last_peer_seq = env.seq;
    let primary = st.peer_role == PeerRole::PeerRoleGameClient && st.is_primary_game;
    let action = match env.payload {
        Some(Payload::Telemetry(t)) => {
            if primary {
                let _ = hub.publish_telemetry(now_mono_ms, &t);
            }
            None
        },
        Some(Payload::TimeSyncReq(req)) => Some(
            SessionAction::Reply(
                Payload::TimeSyncRes(
                    TimeSyncResponse {
                        t0_mono_ms: req.t0_mono_ms,
                        t1_mono_ms: now_mono_ms,
                        t2_mono_ms: now_mono_ms,
                    },
                ),
            ),
        ),
        Some(Payload::ActionReq(req)) => {
            match reply_to {
                Some(channel) => {
                    if st.peer_role == PeerRole::PeerRoleOrchestrator {
                        let request_id = req.request_id.clone();
                        match hub.enqueue_action(req, channel) {
                            Ok(dispatch) => Some(SessionAction::Forward(dispatch)),
                            Err(e) => Some(
                                SessionAction::Reply(
                                    Payload::ActionAck(ActionAck { request_id, accepted: false, reason: e.message() }),
                                ),
                            ),
                        }
                    } else {
                        None
                    }
                },
                None => None,
            }
        },
        Some(Payload::ActionAck(ack)) => {
            if primary {
                match hub.route_action_ack(&ack) {
                    Some(d) => Some(SessionAction::Deliver(d)),
                    None => None,
                }
            } else {
                None
            }
        },
        Some(Payload::ActionRes(res)) => {
            if primary {
                match hub.route_action_result(&res) {
                    Some(d) => Some(SessionAction::Deliver(d)),
                    None => None,
                }
            } else {
                None
            }
        },
        _ => None,
    };
    Handled { keep_open: true, action }
}

/// Acts on a message received on an open session, drawing a fresh random identifier
/// for the correlation id of an error frame.
pub fn handle_message(
    st: &mut SessionState,
    hub: &mut RelayHub,
    msg: InboundMessage,
    reply_to: Option<u64>,
    max_len: usize,
    now_mono_ms: u64,
) -> (r: Handled)
    ensures
        exists|unique: Seq<char>|
            is_uuid_text(unique) && #[trigger] message_step(
                old(st)@,
                old(hub)@,
                msg@,
                reply_to,
                max_len,
                now_mono_ms,
                unique,
            ) == (MessageStep {
                st: final(st)@,
                hub: final(hub)@,
                keep_open: r.keep_open,
                action: match r.action {
                    Some(a) => Some(a@),
                    None => None,
                },
            }),
        old(hub)@.wf() ==> final(hub)@.wf(),
{
    let unique = fresh_uuid();
    let r = handle_message_with(st, hub, msg, reply_to, max_len, now_mono_ms, unique.as_str());
    proof {
        let step = message_step(old(st)@, old(hub)@, msg@, reply_to, max_len, now_mono_ms, unique@);
        assert(step == (MessageStep {
            st: st@,
            hub: hub@,
            keep_open: r.keep_open,
            action: match r.action {
                Some(a) => Some(a@),
                None => None,
            },
        }));
    }
    r
}

/// Takes back the registration of a request that could not be handed to the primary
/// game client, and builds the rejection to send to the orchestrator that issued it.
pub fn forward_failed(hub: &mut RelayHub, request_id: &str, failure: SendFailure) -> (p: Payload)
    ensures
        final(hub)@ == old(hub)@.after_forget(request_id@),
        p@ == enqueue_nack(
            request_id@,
            match failure {
                SendFailure::Closed => EnqueueErrorView::QueueClosed,
                SendFailure::TimedOut => EnqueueErrorView::SendTimeout {
                    after_ms: old(hub)@.cfg.action_send_timeout_ms,
                },
            },
        ),
        old(hub)@.wf() ==> final(hub)@.wf(),
{
    let e = hub.enqueue_failed(request_id, failure);
    Payload::ActionAck(ActionAck { request_id: String::from_str(request_id), accepted: false, reason: e.message() })
}

/// The payload by which an orchestrator's session passes a reply on to its peer.
pub fn relay_reply(frame: ActionRelayFrame) -> (p: Payload)
    ensures
        p@ == match frame@ {
            ActionRelayFrameView::Ack(a) => PayloadView::ActionAck(a),
            ActionRelayFrameView::Result(r) => PayloadView::ActionRes(r),
        },
{
    match frame {
        ActionRelayFrame::Ack(a) => Payload::ActionAck(a),
        ActionRelayFrame::Result(r) => Payload::ActionRes(r),
    }
}

} // verus!
