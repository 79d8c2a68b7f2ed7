//! The messages of the wire protocol and the enumerations they carry.
//!
//! Enumerated fields are stored as the raw `i32` that travels on the wire, so that a
//! value this build does not know survives a relay unchanged; `from_i32` gives the
//! typed reading.

use vstd::prelude::*;

verus! {

/// The only protocol version this implementation speaks.
pub const PROTOCOL_VERSION: u32 = 1;

/// The class a peer announces in its `Hello`.
#[derive(Clone, Copy, Debug, PartialEq, Eq, Structural)]
pub enum PeerRole {
    PeerRoleUnspecified,
    PeerRoleGameClient,
    PeerRoleOrchestrator,
    PeerRoleBridgeServer,
}

impl PeerRole {
    /// The number that stands for this value on the wire.
    pub open spec fn spec_to_i32(self) -> i32 {
        match self {
            PeerRole::PeerRoleUnspecified => 0i32,
            PeerRole::PeerRoleGameClient => 1i32,
            PeerRole::PeerRoleOrchestrator => 2i32,
            PeerRole::PeerRoleBridgeServer => 3i32,
        }
    }

    /// The value a wire number stands for, if this build knows it.
    pub open spec fn spec_from_i32(v: i32) -> Option<PeerRole> {
        if v == 0 {
            Some(PeerRole::PeerRoleUnspecified)
        } else if v == 1 {
            Some(PeerRole::PeerRoleGameClient)
        } else if v == 2 {
            Some(PeerRole::PeerRoleOrchestrator)
        } else if v == 3 {
            Some(PeerRole::PeerRoleBridgeServer)
        } else {
            None
        }
    }

    pub fn to_i32(self) -> (r: i32)
        ensures
            r == self.spec_to_i32(),
    {
        match self {
            PeerRole::PeerRoleUnspecified => 0,
            PeerRole::PeerRoleGameClient => 1,
            PeerRole::PeerRoleOrchestrator => 2,
            PeerRole::PeerRoleBridgeServer => 3,
        }
    }

    pub fn from_i32(v: i32) -> (r: Option<PeerRole>)
        ensures
            r == Self::spec_from_i32(v),
    {
        if v == 0 {
            Some(PeerRole::PeerRoleUnspecified)
        } else if v == 1 {
            Some(PeerRole::PeerRoleGameClient)
        } else if v == 2 {
            Some(PeerRole::PeerRoleOrchestrator)
        } else if v == 3 {
            Some(PeerRole::PeerRoleBridgeServer)
        } else {
            None
        }
    }

    /// Reading back the number of a value gives that value.
    pub proof fn lemma_from_to_i32(self)
        ensures
            Self::spec_from_i32(self.spec_to_i32()) == Some(self),
    {
    }
}

/// A protocol feature that a peer may advertise.
#[derive(Clone, Copy, Debug, PartialEq, Eq, Structural)]
pub enum Capability {
    CapUnspecified,
    CapTelemetryV1,
    CapTimesyncV1,
    CapActionsV1,
    CapHelloAckV1,
}

impl Capability {
    /// The number that stands for this value on the wire.
    pub open spec fn spec_to_i32(self) -> i32 {
        match self {
            Capability::CapUnspecified => 0i32,
            Capability::CapTelemetryV1 => 1i32,
            Capability::CapTimesyncV1 => 2i32,
            Capability::CapActionsV1 => 3i32,
            Capability::CapHelloAckV1 => 4i32,
        }
    }

    /// The value a wire number stands for, if this build knows it.
    pub open spec fn spec_from_i32(v: i32) -> Option<Capability> {
        if v == 0 {
            Some(Capability::CapUnspecified)
        } else if v == 1 {
            Some(Capability::CapTelemetryV1)
        } else if v == 2 {
            Some(Capability::CapTimesyncV1)
        } else if v == 3 {
            Some(Capability::CapActionsV1)
        } else if v == 4 {
            Some(Capability::CapHelloAckV1)
        } else {
            None
        }
    }

    pub fn to_i32(self) -> (r: i32)
        ensures
            r == self.spec_to_i32(),
    {
        match self {
            Capability::CapUnspecified => 0,
            Capability::CapTelemetryV1 => 1,
            Capability::CapTimesyncV1 => 2,
            Capability::CapActionsV1 => 3,
            Capability::CapHelloAckV1 => 4,
        }
    }

    pub fn from_i32(v: i32) -> (r: Option<Capability>)
        ensures
            r == Self::spec_from_i32(v),
    {
        if v == 0 {
            Some(Capability::CapUnspecified)
        } else if v == 1 {
            Some(Capability::CapTelemetryV1)
        } else if v == 2 {
            Some(Capability::CapTimesyncV1)
        } else if v == 3 {
            Some(Capability::CapActionsV1)
        } else if v == 4 {
            Some(Capability::CapHelloAckV1)
        } else {
            None
        }
    }

    /// Reading back the number of a value gives that value.
    pub proof fn lemma_from_to_i32(self)
        ensures
            Self::spec_from_i32(self.spec_to_i32()) == Some(self),
    {
    }
}

/// The game dimension a telemetry snapshot was taken in.
#[derive(Clone, Copy, Debug, PartialEq, Eq, Structural)]
pub enum Dimension {
    DimensionUnspecified,
    DimensionOverworld,
    DimensionNether,
    DimensionEnd,
    DimensionOther,
}

impl Dimension {
    /// The number that stands for this value on the wire.
    pub open spec fn spec_to_i32(self) -> i32 {
        match self {
            Dimension::DimensionUnspecified => 0i32,
            Dimension::DimensionOverworld => 1i32,
            Dimension::DimensionNether => 2i32,
            Dimension::DimensionEnd => 3i32,
            Dimension::DimensionOther => 4i32,
        }
    }

    /// The value a wire number stands for, if this build knows it.
    pub open spec fn spec_from_i32(v: i32) -> Option<Dimension> {
        if v == 0 {
            Some(Dimension::DimensionUnspecified)
        } else if v == 1 {
            Some(Dimension::DimensionOverworld)
        } else if v == 2 {
            Some(Dimension::DimensionNether)
        } else if v == 3 {
            Some(Dimension::DimensionEnd)
        } else if v == 4 {
            Some(Dimension::DimensionOther)
        } else {
            None
        }
    }

    pub fn to_i32(self) -> (r: i32)
        ensures
            r == self.spec_to_i32(),
    {
        match self {
            Dimension::DimensionUnspecified => 0,
            Dimension::DimensionOverworld => 1,
            Dimension::DimensionNether => 2,
            Dimension::DimensionEnd => 3,
            Dimension::DimensionOther => 4,
        }
    }

    pub fn from_i32(v: i32) -> (r: Option<Dimension>)
        ensures
            r == Self::spec_from_i32(v),
    {
        if v == 0 {
            Some(Dimension::DimensionUnspecified)
        } else if v == 1 {
            Some(Dimension::DimensionOverworld)
        } else if v == 2 {
            Some(Dimension::DimensionNether)
        } else if v == 3 {
            Some(Dimension::DimensionEnd)
        } else if v == 4 {
            Some(Dimension::DimensionOther)
        } else {
            None
        }
    }

    /// Reading back the number of a value gives that value.
    pub proof fn lemma_from_to_i32(self)
        ensures
            Self::spec_from_i32(self.spec_to_i32()) == Some(self),
    {
    }
}

/// The kind of action an orchestrator asks the game client to perform.
#[derive(Clone, Copy, Debug, PartialEq, Eq, Structural)]
pub enum ActionType {
    ActionTypeUnspecified,
    ActionTypeStopAll,
    ActionTypeBaritoneGoto,
}

impl ActionType {
    /// The number that stands for this value on the wire.
    pub open spec fn spec_to_i32(self) -> i32 {
        match self {
            ActionType::ActionTypeUnspecified => 0i32,
            ActionType::ActionTypeStopAll => 1i32,
            ActionType::ActionTypeBaritoneGoto => 2i32,
        }
    }

    /// The value a wire number stands for, if this build knows it.
    pub open spec fn spec_from_i32(v: i32) -> Option<ActionType> {
        if v == 0 {
            Some(ActionType::ActionTypeUnspecified)
        } else if v == 1 {
            Some(ActionType::ActionTypeStopAll)
        } else if v == 2 {
            Some(ActionType::ActionTypeBaritoneGoto)
        } else {
            None
        }
    }

    pub fn to_i32(self) -> (r: i32)
        ensures
            r == self.spec_to_i32(),
    {
        match self {
            ActionType::ActionTypeUnspecified => 0,
            ActionType::ActionTypeStopAll => 1,
            ActionType::ActionTypeBaritoneGoto => 2,
        }
    }

    pub fn from_i32(v: i32) -> (r: Option<ActionType>)
        ensures
            r == Self::spec_from_i32(v),
    {
        if v == 0 {
            Some(ActionType::ActionTypeUnspecified)
        } else if v == 1 {
            Some(ActionType::ActionTypeStopAll)
        } else if v == 2 {
            Some(ActionType::ActionTypeBaritoneGoto)
        } else {
            None
        }
    }

    /// Reading back the number of a value gives that value.
    pub proof fn lemma_from_to_i32(self)
        ensures
            Self::spec_from_i32(self.spec_to_i32()) == Some(self),
    {
    }
}

/// The terminal status of an action.
#[derive(Clone, Copy, Debug, PartialEq, Eq, Structural)]
pub enum ActionStatus {
    ActionStatusUnspecified,
    ActionStatusOk,
    ActionStatusTimeout,
    ActionStatusRejected,
}

impl ActionStatus {
    /// The number that stands for this value on the wire.
    pub open spec fn spec_to_i32(self) -> i32 {
        match self {
            ActionStatus::ActionStatusUnspecified => 0i32,
            ActionStatus::ActionStatusOk => 1i32,
            ActionStatus::ActionStatusTimeout => 2i32,
            ActionStatus::ActionStatusRejected => 3i32,
        }
    }

    /// The value a wire number stands for, if this build knows it.
    pub open spec fn spec_from_i32(v: i32) -> Option<ActionStatus> {
        if v == 0 {
            Some(ActionStatus::ActionStatusUnspecified)
        } else if v == 1 {
            Some(ActionStatus::ActionStatusOk)
        } else if v == 2 {
            Some(ActionStatus::ActionStatusTimeout)
        } else if v == 3 {
            Some(ActionStatus::ActionStatusRejected)
        } else {
            None
        }
    }

    pub fn to_i32(self) -> (r: i32)
        ensures
            r == self.spec_to_i32(),
    {
        match self {
            ActionStatus::ActionStatusUnspecified => 0,
            ActionStatus::ActionStatusOk => 1,
            ActionStatus::ActionStatusTimeout => 2,
            ActionStatus::ActionStatusRejected => 3,
        }
    }

    pub fn from_i32(v: i32) -> (r: Option<ActionStatus>)
        ensures
            r == Self::spec_from_i32(v),
    {
        if v == 0 {
            Some(ActionStatus::ActionStatusUnspecified)
        } else if v == 1 {
            Some(ActionStatus::ActionStatusOk)
        } else if v == 2 {
            Some(ActionStatus::ActionStatusTimeout)
        } else if v == 3 {
            Some(ActionStatus::ActionStatusRejected)
        } else {
            None
        }
    }

    /// Reading back the number of a value gives that value.
    pub proof fn lemma_from_to_i32(self)
        ensures
            Self::spec_from_i32(self.spec_to_i32()) == Some(self),
    {
    }
}

/// The reason carried by an `ErrorFrame`.
#[derive(Clone, Copy, Debug, PartialEq, Eq, Structural)]
pub enum ErrorCode {
    ErrorCodeUnspecified,
    ErrorCodeDecodeFailed,
    ErrorCodeProtocolViolation,
    ErrorCodeUnauthorized,
    ErrorCodeTimeout,
    ErrorCodePrimaryUnavailable,
    ErrorCodeQueueOverflow,
    ErrorCodeDeadlineExpired,
    ErrorCodeTransportClosed,
    ErrorCodeIoError,
}

impl ErrorCode {
    /// The number that stands for this value on the wire.
    pub open spec fn spec_to_i32(self) -> i32 {
        match self {
            ErrorCode::ErrorCodeUnspecified => 0i32,
            ErrorCode::ErrorCodeDecodeFailed => 1i32,
            ErrorCode::ErrorCodeProtocolViolation => 2i32,
            ErrorCode::ErrorCodeUnauthorized => 3i32,
            ErrorCode::ErrorCodeTimeout => 4i32,
            ErrorCode::ErrorCodePrimaryUnavailable => 5i32,
            ErrorCode::ErrorCodeQueueOverflow => 6i32,
            ErrorCode::ErrorCodeDeadlineExpired => 7i32,
            ErrorCode::ErrorCodeTransportClosed => 8i32,
            ErrorCode::ErrorCodeIoError => 9i32,
        }
    }

    /// The value a wire number stands for, if this build knows it.
    pub open spec fn spec_from_i32(v: i32) -> Option<ErrorCode> {
        if v == 0 {
            Some(ErrorCode::ErrorCodeUnspecified)
        } else if v == 1 {
            Some(ErrorCode::ErrorCodeDecodeFailed)
        } else if v == 2 {
            Some(ErrorCode::ErrorCodeProtocolViolation)
        } else if v == 3 {
            Some(ErrorCode::ErrorCodeUnauthorized)
        } else if v == 4 {
            Some(ErrorCode::ErrorCodeTimeout)
        } else if v == 5 {
            Some(ErrorCode::ErrorCodePrimaryUnavailable)
        } else if v == 6 {
            Some(ErrorCode::ErrorCodeQueueOverflow)
        } else if v == 7 {
            Some(ErrorCode::ErrorCodeDeadlineExpired)
        } else if v == 8 {
            Some(ErrorCode::ErrorCodeTransportClosed)
        } else if v == 9 {
            Some(ErrorCode::ErrorCodeIoError)
        } else {
            None
        }
    }

    pub fn to_i32(self) -> (r: i32)
        ensures
            r == self.spec_to_i32(),
    {
        match self {
            ErrorCode::ErrorCodeUnspecified => 0,
            ErrorCode::ErrorCodeDecodeFailed => 1,
            ErrorCode::ErrorCodeProtocolViolation => 2,
            ErrorCode::ErrorCodeUnauthorized => 3,
            ErrorCode::ErrorCodeTimeout => 4,
            ErrorCode::ErrorCodePrimaryUnavailable => 5,
            ErrorCode::ErrorCodeQueueOverflow => 6,
            ErrorCode::ErrorCodeDeadlineExpired => 7,
            ErrorCode::ErrorCodeTransportClosed => 8,
            ErrorCode::ErrorCodeIoError => 9,
        }
    }

    pub fn from_i32(v: i32) -> (r: Option<ErrorCode>)
        ensures
            r == Self::spec_from_i32(v),
    {
        if v == 0 {
            Some(ErrorCode::ErrorCodeUnspecified)
        } else if v == 1 {
            Some(ErrorCode::ErrorCodeDecodeFailed)
        } else if v == 2 {
            Some(ErrorCode::ErrorCodeProtocolViolation)
        } else if v == 3 {
            Some(ErrorCode::ErrorCodeUnauthorized)
        } else if v == 4 {
            Some(ErrorCode::ErrorCodeTimeout)
        } else if v == 5 {
            Some(ErrorCode::ErrorCodePrimaryUnavailable)
        } else if v == 6 {
            Some(ErrorCode::ErrorCodeQueueOverflow)
        } else if v == 7 {
            Some(ErrorCode::ErrorCodeDeadlineExpired)
        } else if v == 8 {
            Some(ErrorCode::ErrorCodeTransportClosed)
        } else if v == 9 {
            Some(ErrorCode::ErrorCodeIoError)
        } else {
            None
        }
    }

    /// Reading back the number of a value gives that value.
    pub proof fn lemma_from_to_i32(self)
        ensures
            Self::spec_from_i32(self.spec_to_i32()) == Some(self),
    {
    }
}

/// The first frame of a session: who the peer is and what it can do.
#[derive(Debug)]
pub struct Hello {
    pub agent_id: String,
    pub role: i32,
    pub capabilities: Vec<i32>,
    pub client_version: String,
    pub handshake_id: String,
}

/// The mathematical value of a `Hello`.
pub struct HelloView {
    pub agent_id: Seq<char>,
    pub role: i32,
    pub capabilities: Seq<i32>,
    pub client_version: Seq<char>,
    pub handshake_id: Seq<char>,
}

impl View for Hello {
    type V = HelloView;

    open spec fn view(&self) -> HelloView {
        HelloView {
            agent_id: self.agent_id@,
            role: self.role,
            capabilities: self.capabilities@,
            client_version: self.client_version@,
            handshake_id: self.handshake_id@,
        }
    }
}

impl Clone for Hello {
    fn clone(&self) -> (r: Self)
        ensures
            r@ == self@,
    {
        Hello {
            agent_id: self.agent_id.clone(),
            role: self.role,
            capabilities: self.capabilities.clone(),
            client_version: self.client_version.clone(),
            handshake_id: self.handshake_id.clone(),
        }
    }
}

/// The bridge's answer to a `Hello` from a peer that understands it.
#[derive(Debug)]
pub struct HelloAck {
    pub handshake_id: String,
    pub accepted: bool,
    pub reason: String,
    pub negotiated_capabilities: Vec<i32>,
    pub server_version: String,
}

/// The mathematical value of a `HelloAck`.
pub struct HelloAckView {
    pub handshake_id: Seq<char>,
    pub accepted: bool,
    pub reason: Seq<char>,
    pub negotiated_capabilities: Seq<i32>,
    pub server_version: Seq<char>,
}

impl View for HelloAck {
    type V = HelloAckView;

    open spec fn view(&self) -> HelloAckView {
        HelloAckView {
            handshake_id: self.handshake_id@,
            accepted: self.accepted,
            reason: self.reason@,
            negotiated_capabilities: self.negotiated_capabilities@,
            server_version: self.server_version@,
        }
    }
}

impl Clone for HelloAck {
    fn clone(&self) -> (r: Self)
        ensures
            r@ == self@,
    {
        HelloAck {
            handshake_id: self.handshake_id.clone(),
            accepted: self.accepted,
            reason: self.reason.clone(),
            negotiated_capabilities: self.negotiated_capabilities.clone(),
            server_version: self.server_version.clone(),
        }
    }
}

/// A snapshot of the game state.
#[derive(Debug)]
pub struct TelemetryFrame {
    pub state_version: u64,
    pub dimension: i32,
    pub hp: u32,
    pub hunger: u32,
}

/// The mathematical value of a `TelemetryFrame`.
pub struct TelemetryFrameView {
    pub state_version: u64,
    pub dimension: i32,
    pub hp: u32,
    pub hunger: u32,
}

impl View for TelemetryFrame {
    type V = TelemetryFrameView;

    open spec fn view(&self) -> TelemetryFrameView {
        TelemetryFrameView {
            state_version: self.state_version,
            dimension: self.dimension,
            hp: self.hp,
            hunger: self.hunger,
        }
    }
}

impl Clone for TelemetryFrame {
    fn clone(&self) -> (r: Self)
        ensures
            r@ == self@,
    {
        TelemetryFrame {
            state_version: self.state_version,
            dimension: self.dimension,
            hp: self.hp,
            hunger: self.hunger,
        }
    }
}

/// Queue statistics a peer reports periodically.
#[derive(Debug)]
pub struct Heartbeat {
    pub rx_queue_len: u32,
    pub tx_queue_len: u32,
    pub dropped_frames: u64,
}

/// The mathematical value of a `Heartbeat`.
pub struct HeartbeatView {
    pub rx_queue_len: u32,
    pub tx_queue_len: u32,
    pub dropped_frames: u64,
}

impl View for Heartbeat {
    type V = HeartbeatView;

    open spec fn view(&self) -> HeartbeatView {
        HeartbeatView {
            rx_queue_len: self.rx_queue_len,
            tx_queue_len: self.tx_queue_len,
            dropped_frames: self.dropped_frames,
        }
    }
}

impl Clone for Heartbeat {
    fn clone(&self) -> (r: Self)
        ensures
            r@ == self@,
    {
        Heartbeat {
            rx_queue_len: self.rx_queue_len,
            tx_queue_len: self.tx_queue_len,
            dropped_frames: self.dropped_frames,
        }
    }
}

/// A clock probe carrying the sender's monotonic time.
#[derive(Debug)]
pub struct TimeSyncRequest {
    pub t0_mono_ms: u64,
}

/// The mathematical value of a `TimeSyncRequest`.
pub struct TimeSyncRequestView {
    pub t0_mono_ms: u64,
}

impl View for TimeSyncRequest {
    type V = TimeSyncRequestView;

    open spec fn view(&self) -> TimeSyncRequestView {
        TimeSyncRequestView {
            t0_mono_ms: self.t0_mono_ms,
        }
    }
}

impl Clone for TimeSyncRequest {
    fn clone(&self) -> (r: Self)
        ensures
            r@ == self@,
    {
        TimeSyncRequest {
            t0_mono_ms: self.t0_mono_ms,
        }
    }
}

/// The answer to a clock probe.
#[derive(Debug)]
pub struct TimeSyncResponse {
    pub t0_mono_ms: u64,
    pub t1_mono_ms: u64,
    pub t2_mono_ms: u64,
}

/// The mathematical value of a `TimeSyncResponse`.
pub struct TimeSyncResponseView {
    pub t0_mono_ms: u64,
    pub t1_mono_ms: u64,
    pub t2_mono_ms: u64,
}

impl View for TimeSyncResponse {
    type V = TimeSyncResponseView;

    open spec fn view(&self) -> TimeSyncResponseView {
        TimeSyncResponseView {
            t0_mono_ms: self.t0_mono_ms,
            t1_mono_ms: self.t1_mono_ms,
            t2_mono_ms: self.t2_mono_ms,
        }
    }
}

impl Clone for TimeSyncResponse {
    fn clone(&self) -> (r: Self)
        ensures
            r@ == self@,
    {
        TimeSyncResponse {
            t0_mono_ms: self.t0_mono_ms,
            t1_mono_ms: self.t1_mono_ms,
            t2_mono_ms: self.t2_mono_ms,
        }
    }
}

/// The target of a path-finding action; coordinates are IEEE-754 double bit patterns.
#[derive(Debug)]
pub struct BaritoneGoto {
    pub x_bits: u64,
    pub y_bits: u64,
    pub z_bits: u64,
    pub max_distance: u32,
    pub timeout_ms: u64,
    pub stuck_timeout_ms: u64,
}

/// The mathematical value of a `BaritoneGoto`.
pub struct BaritoneGotoView {
    pub x_bits: u64,
    pub y_bits: u64,
    pub z_bits: u64,
    pub max_distance: u32,
    pub timeout_ms: u64,
    pub stuck_timeout_ms: u64,
}

impl View for BaritoneGoto {
    type V = BaritoneGotoView;

    open spec fn view(&self) -> BaritoneGotoView {
        BaritoneGotoView {
            x_bits: self.x_bits,
            y_bits: self.y_bits,
            z_bits: self.z_bits,
            max_distance: self.max_distance,
            timeout_ms: self.timeout_ms,
            stuck_timeout_ms: self.stuck_timeout_ms,
        }
    }
}

impl Clone for BaritoneGoto {
    fn clone(&self) -> (r: Self)
        ensures
            r@ == self@,
    {
        BaritoneGoto {
            x_bits: self.x_bits,
            y_bits: self.y_bits,
            z_bits: self.z_bits,
            max_distance: self.max_distance,
            timeout_ms: self.timeout_ms,
            stuck_timeout_ms: self.stuck_timeout_ms,
        }
    }
}

/// A request that the primary game client perform an action.
#[derive(Debug)]
pub struct ActionRequest {
    pub request_id: String,
    pub expected_state_version: u64,
    pub action_type: i32,
    pub expires_at_unix_ms: u64,
    pub idempotency_key: String,
    pub target_agent_id: String,
    pub baritone_goto: Option<BaritoneGoto>,
}

/// The mathematical value of a `ActionRequest`.
pub struct ActionRequestView {
    pub request_id: Seq<char>,
    pub expected_state_version: u64,
    pub action_type: i32,
    pub expires_at_unix_ms: u64,
    pub idempotency_key: Seq<char>,
    pub target_agent_id: Seq<char>,
    pub baritone_goto: Option<BaritoneGotoView>,
}

impl View for ActionRequest {
    type V = ActionRequestView;

    open spec fn view(&self) -> ActionRequestView {
        ActionRequestView {
            request_id: self.request_id@,
            expected_state_version: self.expected_state_version,
            action_type: self.action_type,
            expires_at_unix_ms: self.expires_at_unix_ms,
            idempotency_key: self.idempotency_key@,
            target_agent_id: self.target_agent_id@,
            baritone_goto: match self.baritone_goto { Some(m) => Some(m@), None => None },
        }
    }
}

impl Clone for ActionRequest {
    fn clone(&self) -> (r: Self)
        ensures
            r@ == self@,
    {
        ActionRequest {
            request_id: self.request_id.clone(),
            expected_state_version: self.expected_state_version,
            action_type: self.action_type,
            expires_at_unix_ms: self.expires_at_unix_ms,
            idempotency_key: self.idempotency_key.clone(),
            target_agent_id: self.target_agent_id.clone(),
            baritone_goto: match &self.baritone_goto {
                Some(m) => Some(m.clone()),
                None => None,
            },
        }
    }
}

/// The game client's non-terminal answer to an action request.
#[derive(Debug)]
pub struct ActionAck {
    pub request_id: String,
    pub accepted: bool,
    pub reason: String,
}

/// The mathematical value of a `ActionAck`.
pub struct ActionAckView {
    pub request_id: Seq<char>,
    pub accepted: bool,
    pub reason: Seq<char>,
}

impl View for ActionAck {
    type V = ActionAckView;

    open spec fn view(&self) -> ActionAckView {
        ActionAckView {
            request_id: self.request_id@,
            accepted: self.accepted,
            reason: self.reason@,
        }
    }
}

impl Clone for ActionAck {
    fn clone(&self) -> (r: Self)
        ensures
            r@ == self@,
    {
        ActionAck {
            request_id: self.request_id.clone(),
            accepted: self.accepted,
            reason: self.reason.clone(),
        }
    }
}

/// The terminal outcome of an action.
#[derive(Debug)]
pub struct ActionResult {
    pub request_id: String,
    pub status: i32,
    pub detail: String,
    pub final_state_version: u64,
}

/// The mathematical value of a `ActionResult`.
pub struct ActionResultView {
    pub request_id: Seq<char>,
    pub status: i32,
    pub detail: Seq<char>,
    pub final_state_version: u64,
}

impl View for ActionResult {
    type V = ActionResultView;

    open spec fn view(&self) -> ActionResultView {
        ActionResultView {
            request_id: self.request_id@,
            status: self.status,
            detail: self.detail@,
            final_state_version: self.final_state_version,
        }
    }
}

impl Clone for ActionResult {
    fn clone(&self) -> (r: Self)
        ensures
            r@ == self@,
    {
        ActionResult {
            request_id: self.request_id.clone(),
            status: self.status,
            detail: self.detail.clone(),
            final_state_version: self.final_state_version,
        }
    }
}

/// An error reported to the peer.
#[derive(Debug)]
pub struct ErrorFrame {
    pub code: i32,
    pub message: String,
    pub correlation_id: String,
}

/// The mathematical value of a `ErrorFrame`.
pub struct ErrorFrameView {
    pub code: i32,
    pub message: Seq<char>,
    pub correlation_id: Seq<char>,
}

impl View for ErrorFrame {
    type V = ErrorFrameView;

    open spec fn view(&self) -> ErrorFrameView {
        ErrorFrameView {
            code: self.code,
            message: self.message@,
            correlation_id: self.correlation_id@,
        }
    }
}

impl Clone for ErrorFrame {
    fn clone(&self) -> (r: Self)
        ensures
            r@ == self@,
    {
        ErrorFrame {
            code: self.code,
            message: self.message.clone(),
            correlation_id: self.correlation_id.clone(),
        }
    }
}

/// The one payload an envelope carries.
#[derive(Debug)]
pub enum Payload {
    Hello(Hello),
    HelloAck(HelloAck),
    Telemetry(TelemetryFrame),
    Heartbeat(Heartbeat),
    TimeSyncReq(TimeSyncRequest),
    TimeSyncRes(TimeSyncResponse),
    ActionReq(ActionRequest),
    ActionAck(ActionAck),
    ActionRes(ActionResult),
    Error(ErrorFrame),
}

/// The mathematical value of a `Payload`.
pub enum PayloadView {
    Hello(HelloView),
    HelloAck(HelloAckView),
    Telemetry(TelemetryFrameView),
    Heartbeat(HeartbeatView),
    TimeSyncReq(TimeSyncRequestView),
    TimeSyncRes(TimeSyncResponseView),
    ActionReq(ActionRequestView),
    ActionAck(ActionAckView),
    ActionRes(ActionResultView),
    Error(ErrorFrameView),
}

impl View for Payload {
    type V = PayloadView;

    open spec fn view(&self) -> PayloadView {
        match self {
            Payload::Hello(m) => PayloadView::Hello(m@),
            Payload::HelloAck(m) => PayloadView::HelloAck(m@),
            Payload::Telemetry(m) => PayloadView::Telemetry(m@),
            Payload::Heartbeat(m) => PayloadView::Heartbeat(m@),
            Payload::TimeSyncReq(m) => PayloadView::TimeSyncReq(m@),
            Payload::TimeSyncRes(m) => PayloadView::TimeSyncRes(m@),
            Payload::ActionReq(m) => PayloadView::ActionReq(m@),
            Payload::ActionAck(m) => PayloadView::ActionAck(m@),
            Payload::ActionRes(m) => PayloadView::ActionRes(m@),
            Payload::Error(m) => PayloadView::Error(m@),
        }
    }
}

impl Clone for Payload {
    fn clone(&self) -> (r: Self)
        ensures
            r@ == self@,
    {
        match self {
            Payload::Hello(m) => Payload::Hello(m.clone()),
            Payload::HelloAck(m) => Payload::HelloAck(m.clone()),
            Payload::Telemetry(m) => Payload::Telemetry(m.clone()),
            Payload::Heartbeat(m) => Payload::Heartbeat(m.clone()),
            Payload::TimeSyncReq(m) => Payload::TimeSyncReq(m.clone()),
            Payload::TimeSyncRes(m) => Payload::TimeSyncRes(m.clone()),
            Payload::ActionReq(m) => Payload::ActionReq(m.clone()),
            Payload::ActionAck(m) => Payload::ActionAck(m.clone()),
            Payload::ActionRes(m) => Payload::ActionRes(m.clone()),
            Payload::Error(m) => Payload::Error(m.clone()),
        }
    }
}

/// The framed unit of the wire protocol.
#[derive(Debug)]
pub struct Envelope {
    pub protocol_version: u32,
    pub session_id: String,
    pub seq: u64,
    pub ack: u64,
    pub mono_ms: u64,
    pub wall_unix_ms: u64,
    pub payload: Option<Payload>,
}

/// The mathematical value of a `Envelope`.
pub struct EnvelopeView {
    pub protocol_version: u32,
    pub session_id: Seq<char>,
    pub seq: u64,
    pub ack: u64,
    pub mono_ms: u64,
    pub wall_unix_ms: u64,
    pub payload: Option<PayloadView>,
}

impl View for Envelope {
    type V = EnvelopeView;

    open spec fn view(&self) -> EnvelopeView {
        EnvelopeView {
            protocol_version: self.protocol_version,
            session_id: self.session_id@,
            seq: self.seq,
            ack: self.ack,
            mono_ms: self.mono_ms,
            wall_unix_ms: self.wall_unix_ms,
            payload: match self.payload { Some(p) => Some(p@), None => None },
        }
    }
}

impl Clone for Envelope {
    fn clone(&self) -> (r: Self)
        ensures
            r@ == self@,
    {
        Envelope {
            protocol_version: self.protocol_version,
            session_id: self.session_id.clone(),
            seq: self.seq,
            ack: self.ack,
            mono_ms: self.mono_ms,
            wall_unix_ms: self.wall_unix_ms,
            payload: match &self.payload {
                Some(p) => Some(p.clone()),
                None => None,
            },
        }
    }
}

} // verus!
