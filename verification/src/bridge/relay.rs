//! The relay hub: the one place where sessions meet. It holds the primary game
//! client's attachment, the latest telemetry, the count of orchestrators and the
//! actions that await a reply.
//!
//! The hub is a plain state machine. Channels are named by numbers that the caller
//! chooses; what the hub wants sent is handed back for the caller to send.

use crate::bridge::config::{RelayConfig, RelayConfigView};
use crate::proto::{
    ActionAck, ActionAckView, ActionRequest, ActionRequestView, ActionResult, ActionResultView, ActionStatus,
    TelemetryFrame, TelemetryFrameView,
};
use crate::text::{decimal, is_blank, str_eq, str_is_blank, u64_to_decimal};
use crate::time::saturating_diff;
use vstd::prelude::*;
use vstd::string::*;

verus! {

/// Why an orchestrator was refused a subscription.
#[derive(Clone, Copy, Debug, PartialEq, Eq, Structural)]
pub enum OrchestratorAcquireError {
    NotAllowed,
    LimitReached,
}

/// A reply that travels from the primary game client back to the orchestrator that
/// issued the action.
#[derive(Debug)]
pub enum ActionRelayFrame {
    Ack(ActionAck),
    Result(ActionResult),
}

/// The mathematical value of an `ActionRelayFrame`.
pub enum ActionRelayFrameView {
    Ack(ActionAckView),
    Result(ActionResultView),
}

impl View for ActionRelayFrame {
    type V = ActionRelayFrameView;

    open spec fn view(&self) -> ActionRelayFrameView {
        match self {
            ActionRelayFrame::Ack(a) => ActionRelayFrameView::Ack(a@),
            ActionRelayFrame::Result(r) => ActionRelayFrameView::Result(r@),
        }
    }
}

impl Clone for ActionRelayFrame {
    fn clone(&self) -> (r: Self)
        ensures
            r@ == self@,
    {
        match self {
            ActionRelayFrame::Ack(a) => ActionRelayFrame::Ack(a.clone()),
            ActionRelayFrame::Result(r) => ActionRelayFrame::Result(r.clone()),
        }
    }
}

impl ActionRelayFrameView {
    /// The request this frame answers.
    pub open spec fn request_id(self) -> Seq<char> {
        match self {
            ActionRelayFrameView::Ack(a) => a.request_id,
            ActionRelayFrameView::Result(r) => r.request_id,
        }
    }

    /// Whether this frame ends the action: a rejection or a result.
    pub open spec fn is_terminal(self) -> bool {
        match self {
            ActionRelayFrameView::Ack(a) => !a.accepted,
            ActionRelayFrameView::Result(_) => true,
        }
    }
}

/// A frame together with the reply channel it is to be sent on.
#[derive(Debug)]
pub struct ReplyDelivery {
    pub reply_to: u64,
    pub frame: ActionRelayFrame,
}

/// The mathematical value of a `ReplyDelivery`.
pub struct ReplyDeliveryView {
    pub reply_to: u64,
    pub frame: ActionRelayFrameView,
}

impl View for ReplyDelivery {
    type V = ReplyDeliveryView;

    open spec fn view(&self) -> ReplyDeliveryView {
        ReplyDeliveryView { reply_to: self.reply_to, frame: self.frame@ }
    }
}

/// The views of the given deliveries.
pub open spec fn delivery_views(d: Seq<ReplyDelivery>) -> Seq<ReplyDeliveryView> {
    d.map_values(|x: ReplyDelivery| x@)
}

/// An action that awaits its reply, and the channel the reply goes to.
pub struct Pending {
    pub request_id: Seq<char>,
    pub reply_to: u64,
}

struct PendingAction {
    request_id: String,
    reply_to: u64,
}

impl View for PendingAction {
    type V = Pending;

    closed spec fn view(&self) -> Pending {
        Pending { request_id: self.request_id@, reply_to: self.reply_to }
    }
}

/// The index of the pending entry for `id`, or the number of entries when there is
/// none.
pub open spec fn pending_index(pending: Seq<Pending>, id: Seq<char>) -> int
    decreases pending.len(),
{
    if pending.len() == 0 || pending.first().request_id == id {
        0
    } else {
        1 + pending_index(pending.drop_first(), id)
    }
}

/// Whether a reply for `id` is awaited.
pub open spec fn awaits(pending: Seq<Pending>, id: Seq<char>) -> bool {
    pending_index(pending, id) < pending.len()
}

/// No two pending entries share a request id.
pub open spec fn distinct_requests(pending: Seq<Pending>) -> bool {
    forall|i: int, j: int|
        0 <= i < j < pending.len() ==> (#[trigger] pending[i]).request_id != (#[trigger] pending[j]).request_id
}

/// The pending entries without the one for `id`.
pub open spec fn forget(pending: Seq<Pending>, id: Seq<char>) -> Seq<Pending> {
    if awaits(pending, id) {
        pending.remove(pending_index(pending, id))
    } else {
        pending
    }
}

/// The pending entries after `id` is registered with reply channel `reply_to`: an
/// earlier entry for the same id is overwritten.
pub open spec fn register(pending: Seq<Pending>, id: Seq<char>, reply_to: u64) -> Seq<Pending> {
    let entry = Pending { request_id: id, reply_to };
    if awaits(pending, id) {
        pending.update(pending_index(pending, id), entry)
    } else {
        pending.push(entry)
    }
}

/// `pending_index` finds the first entry for `id`.
pub proof fn lemma_pending_index(pending: Seq<Pending>, id: Seq<char>)
    ensures
        0 <= pending_index(pending, id) <= pending.len(),
        awaits(pending, id) ==> pending[pending_index(pending, id)].request_id == id,
        forall|j: int| 0 <= j < pending_index(pending, id) ==> (#[trigger] pending[j]).request_id != id,
    decreases pending.len(),
{
    if pending.len() > 0 && pending.first().request_id != id {
        let rest = pending.drop_first();
        lemma_pending_index(rest, id);
        assert forall|j: int| 0 <= j < pending_index(pending, id) implies (#[trigger] pending[j]).request_id != id by {
            if j > 0 {
                assert(rest[j - 1] == pending[j]);
            }
        }
    }
}

/// The first index that holds `id`, with none before it, is its index.
pub proof fn lemma_pending_index_is(pending: Seq<Pending>, id: Seq<char>, at: int)
    requires
        0 <= at <= pending.len(),
        forall|j: int| 0 <= j < at ==> (#[trigger] pending[j]).request_id != id,
        at < pending.len() ==> pending[at].request_id == id,
    ensures
        pending_index(pending, id) == at,
    decreases pending.len(),
{
    if pending.len() > 0 && at > 0 {
        assert(pending[0].request_id != id);
        let rest = pending.drop_first();
        assert forall|j: int| 0 <= j < at - 1 implies (#[trigger] rest[j]).request_id != id by {
            assert(rest[j] == pending[j + 1]);
        }
        lemma_pending_index_is(rest, id, at - 1);
    }
}

/// Once an entry of a table with distinct ids is forgotten, no reply for its id is
/// awaited.
pub proof fn lemma_forget_forgets(pending: Seq<Pending>, id: Seq<char>)
    requires
        distinct_requests(pending),
    ensures
        !awaits(forget(pending, id), id),
        distinct_requests(forget(pending, id)),
        forall|other: Seq<char>| other != id ==> awaits(forget(pending, id), other) == awaits(pending, other),
{
    lemma_pending_index(pending, id);
    let after = forget(pending, id);
    let p = pending_index(pending, id);
    assert forall|j: int| 0 <= j < after.len() implies (#[trigger] after[j]).request_id != id by {
        if awaits(pending, id) {
            if j < p {
                assert(after[j] == pending[j]);
            } else {
                assert(after[j] == pending[j + 1]);
            }
        } else {
            assert(after[j] == pending[j]);
        }
    }
    lemma_pending_index_is(after, id, after.len() as int);
    assert forall|other: Seq<char>| other != id implies awaits(after, other) == awaits(pending, other) by {
        lemma_pending_index(pending, other);
        lemma_pending_index(after, other);
        let q = pending_index(pending, other);
        if awaits(pending, id) {
            if q < pending.len() {
                let q2 = if q < p { q } else { q - 1 };
                assert(after[q2] == pending[q]);
                if !awaits(after, other) {
                    assert(after[q2].request_id != other);
                }
            } else {
                if awaits(after, other) {
                    let r = pending_index(after, other);
                    let r2 = if r < p { r } else { r + 1 };
                    assert(pending[r2] == after[r]);
                }
            }
        }
    }
}

/// Why the hub refused to attach a session as the primary game client.
#[derive(Clone, Copy, Debug, PartialEq, Eq, Structural)]
pub enum AttachError {
    NotPrimaryAgent,
    AlreadyAttached,
}

impl AttachError {
    pub open spec fn spec_message(self) -> Seq<char> {
        match self {
            AttachError::NotPrimaryAgent => "non-primary game agent cannot attach action sender"@,
            AttachError::AlreadyAttached => "primary game sender already attached"@,
        }
    }

    /// The text that explains the refusal.
    pub fn message(self) -> (r: &'static str)
        ensures
            r@ == self.spec_message(),
    {
        match self {
            AttachError::NotPrimaryAgent => "non-primary game agent cannot attach action sender",
            AttachError::AlreadyAttached => "primary game sender already attached",
        }
    }
}

/// How handing a request to the primary game client's queue failed.
#[derive(Clone, Copy, Debug, PartialEq, Eq, Structural)]
pub enum SendFailure {
    Closed,
    TimedOut,
}

/// Why an action request did not reach the primary game client.
#[derive(Debug)]
pub enum EnqueueError {
    EmptyRequestId,
    TargetMismatch { target: String, primary: String },
    PrimaryNotConnected,
    QueueClosed,
    SendTimeout { after_ms: u64 },
}

/// The mathematical value of an `EnqueueError`.
pub enum EnqueueErrorView {
    EmptyRequestId,
    TargetMismatch { target: Seq<char>, primary: Seq<char> },
    PrimaryNotConnected,
    QueueClosed,
    SendTimeout { after_ms: u64 },
}

impl View for EnqueueError {
    type V = EnqueueErrorView;

    open spec fn view(&self) -> EnqueueErrorView {
        match self {
            EnqueueError::EmptyRequestId => EnqueueErrorView::EmptyRequestId,
            EnqueueError::TargetMismatch { target, primary } => EnqueueErrorView::TargetMismatch {
                target: target@,
                primary: primary@,
            },
            EnqueueError::PrimaryNotConnected => EnqueueErrorView::PrimaryNotConnected,
            EnqueueError::QueueClosed => EnqueueErrorView::QueueClosed,
            EnqueueError::SendTimeout { after_ms } => EnqueueErrorView::SendTimeout { after_ms: *after_ms },
        }
    }
}

impl EnqueueErrorView {
    /// The text that explains the error; it becomes the reason of the rejection sent
    /// to the orchestrator.
    pub open spec fn message(self) -> Seq<char> {
        match self {
            EnqueueErrorView::EmptyRequestId => "request_id must not be empty"@,
            EnqueueErrorView::TargetMismatch { target, primary } => "target_agent_id="@ + target
                + " does not match primary_game_agent_id="@ + primary,
            EnqueueErrorView::PrimaryNotConnected => "primary game client is not connected"@,
            EnqueueErrorView::QueueClosed => "primary game action queue closed"@,
            EnqueueErrorView::SendTimeout { after_ms } => "action enqueue timeout after "@ + decimal(after_ms as nat)
                + "ms"@,
        }
    }
}

impl EnqueueError {
    /// The text that explains the error.
    pub fn message(&self) -> (r: String)
        ensures
            r@ == self@.message(),
    {
        match self {
            EnqueueError::EmptyRequestId => String::from_str("request_id must not be empty"),
            EnqueueError::TargetMismatch { target, primary } => {
                let mut s = String::from_str("target_agent_id=");
                s.append(target.as_str());
                s.append(" does not match primary_game_agent_id=");
                s.append(primary.as_str());
                s
            },
            EnqueueError::PrimaryNotConnected => String::from_str("primary game client is not connected"),
            EnqueueError::QueueClosed => String::from_str("primary game action queue closed"),
            EnqueueError::SendTimeout { after_ms } => {
                let mut s = String::from_str("action enqueue timeout after ");
                s.append(u64_to_decimal(*after_ms).as_str());
                s.append("ms");
                s
            },
        }
    }
}

/// An accepted request on its way to the primary game client: the caller sends
/// `request` on the channel `sender` and gives up after `timeout_ms`.
#[derive(Debug)]
pub struct PrimaryDispatch {
    pub sender: u64,
    pub request: ActionRequest,
    pub timeout_ms: u64,
}

/// The mathematical value of a `PrimaryDispatch`.
pub struct PrimaryDispatchView {
    pub sender: u64,
    pub request: ActionRequestView,
    pub timeout_ms: u64,
}

impl View for PrimaryDispatch {
    type V = PrimaryDispatchView;

    open spec fn view(&self) -> PrimaryDispatchView {
        PrimaryDispatchView { sender: self.sender, request: self.request@, timeout_ms: self.timeout_ms }
    }
}

/// The reason given to orchestrators whose actions were in flight when the primary
/// game client went away.
pub open spec fn disconnect_reason() -> Seq<char> {
    "primary game client disconnected"@
}

/// The rejection synthesised for a pending action that is given up for `reason`.
pub open spec fn failure_ack(p: Pending, reason: Seq<char>) -> ReplyDeliveryView {
    ReplyDeliveryView {
        reply_to: p.reply_to,
        frame: ActionRelayFrameView::Ack(ActionAckView { request_id: p.request_id, accepted: false, reason }),
    }
}

/// The result synthesised for a pending action that is given up for `reason`.
pub open spec fn failure_result(p: Pending, reason: Seq<char>) -> ReplyDeliveryView {
    ReplyDeliveryView {
        reply_to: p.reply_to,
        frame: ActionRelayFrameView::Result(
            ActionResultView {
                request_id: p.request_id,
                status: ActionStatus::ActionStatusTimeout.spec_to_i32(),
                detail: reason,
                final_state_version: 0,
            },
        ),
    }
}

/// What is sent when every pending action is given up for `reason`: for each entry,
/// in order, a rejection followed by a timeout result.
pub open spec fn failure_deliveries(pending: Seq<Pending>, reason: Seq<char>) -> Seq<ReplyDeliveryView>
    decreases pending.len(),
{
    if pending.len() == 0 {
        Seq::empty()
    } else {
        failure_deliveries(pending.drop_last(), reason).push(failure_ack(pending.last(), reason)).push(
            failure_result(pending.last(), reason),
        )
    }
}

/// The update counter that follows `n`.
pub open spec fn next_update(n: u64) -> u64 {
    if n == u64::MAX {
        0
    } else {
        (n + 1) as u64
    }
}

/// The mathematical value of a `RelayHub`.
pub struct RelayHubView {
    pub cfg: RelayConfigView,
    pub orchestrator_count: usize,
    pub last_relay_mono_ms: Option<u64>,
    pub primary: Option<u64>,
    pub pending: Seq<Pending>,
    pub telemetry: Option<TelemetryFrameView>,
    pub telemetry_updates: u64,
}

impl RelayHubView {
    /// The hub's invariant: orchestrators never outnumber their limit, and no request
    /// id is pending twice.
    pub open spec fn wf(self) -> bool {
        &&& self.orchestrator_count <= self.cfg.max_orchestrator_subscribers
        &&& distinct_requests(self.pending)
    }

    /// A hub that nothing has happened to.
    pub open spec fn initial(cfg: RelayConfigView) -> RelayHubView {
        RelayHubView {
            cfg,
            orchestrator_count: 0,
            last_relay_mono_ms: None,
            primary: None,
            pending: Seq::empty(),
            telemetry: None,
            telemetry_updates: 0,
        }
    }

    /// Whether telemetry published at `now_mono_ms` comes too soon after the last
    /// relayed frame. Until a frame has been relayed nothing comes too soon.
    pub open spec fn rate_limited(self, now_mono_ms: u64) -> bool {
        &&& self.cfg.min_relay_interval_ms > 0
        &&& self.last_relay_mono_ms is Some
        &&& saturating_diff(now_mono_ms, self.last_relay_mono_ms->0) < self.cfg.min_relay_interval_ms
    }

    /// The hub after telemetry `t` is published at `now_mono_ms`.
    pub open spec fn after_publish(self, now_mono_ms: u64, t: TelemetryFrameView) -> RelayHubView {
        if self.rate_limited(now_mono_ms) {
            self
        } else {
            RelayHubView {
                last_relay_mono_ms: if self.cfg.min_relay_interval_ms > 0 {
                    Some(now_mono_ms)
                } else {
                    self.last_relay_mono_ms
                },
                telemetry: Some(t),
                telemetry_updates: next_update(self.telemetry_updates),
                ..self
            }
        }
    }

    /// Why an orchestrator asking for a slot now would be refused, if it would.
    pub open spec fn acquire_refusal(self) -> Option<OrchestratorAcquireError> {
        if !self.cfg.allow_orchestrator_subscribe {
            Some(OrchestratorAcquireError::NotAllowed)
        } else if self.orchestrator_count >= self.cfg.max_orchestrator_subscribers {
            Some(OrchestratorAcquireError::LimitReached)
        } else {
            None
        }
    }

    /// The hub after an orchestrator asked for a slot.
    pub open spec fn after_acquire(self) -> RelayHubView {
        if self.acquire_refusal() is Some {
            self
        } else {
            RelayHubView { orchestrator_count: (self.orchestrator_count + 1) as usize, ..self }
        }
    }

    /// The hub after an orchestrator gave its slot back.
    pub open spec fn after_release(self) -> RelayHubView {
        if self.orchestrator_count > 0 {
            RelayHubView { orchestrator_count: (self.orchestrator_count - 1) as usize, ..self }
        } else {
            self
        }
    }

    /// Why attaching a session of agent `agent_id` as the primary would be refused, if
    /// it would.
    pub open spec fn attach_refusal(self, agent_id: Seq<char>) -> Option<AttachError> {
        if agent_id != self.cfg.primary_game_agent_id {
            Some(AttachError::NotPrimaryAgent)
        } else if self.primary is Some {
            Some(AttachError::AlreadyAttached)
        } else {
            None
        }
    }

    /// Why the hub would refuse to enqueue `req`, if it would.
    pub open spec fn enqueue_refusal(self, req: ActionRequestView) -> Option<EnqueueErrorView> {
        if is_blank(req.request_id) {
            Some(EnqueueErrorView::EmptyRequestId)
        } else if !is_blank(req.target_agent_id) && req.target_agent_id != self.cfg.primary_game_agent_id {
            Some(
                EnqueueErrorView::TargetMismatch {
                    target: req.target_agent_id,
                    primary: self.cfg.primary_game_agent_id,
                },
            )
        } else if self.primary is None {
            Some(EnqueueErrorView::PrimaryNotConnected)
        } else {
            None
        }
    }

    /// The hub after `req`, with replies going to `reply_to`, was offered for
    /// enqueueing: an accepted request is registered as pending.
    pub open spec fn after_enqueue(self, req: ActionRequestView, reply_to: u64) -> RelayHubView {
        if self.enqueue_refusal(req) is Some {
            self
        } else {
            RelayHubView { pending: register(self.pending, req.request_id, reply_to), ..self }
        }
    }

    /// The hub with the pending entry for `id` removed.
    pub open spec fn after_forget(self, id: Seq<char>) -> RelayHubView {
        RelayHubView { pending: forget(self.pending, id), ..self }
    }

    /// What the hub forwards for an acknowledgement from the primary.
    pub open spec fn ack_delivery(self, ack: ActionAckView) -> Option<ReplyDeliveryView> {
        if awaits(self.pending, ack.request_id) {
            Some(
                ReplyDeliveryView {
                    reply_to: self.pending[pending_index(self.pending, ack.request_id)].reply_to,
                    frame: ActionRelayFrameView::Ack(ack),
                },
            )
        } else {
            None
        }
    }

    /// The hub after an acknowledgement from the primary: an accepted action stays
    /// pending, a rejected one does not.
    pub open spec fn after_ack(self, ack: ActionAckView) -> RelayHubView {
        if ack.accepted {
            self
        } else {
            self.after_forget(ack.request_id)
        }
    }

    /// What the hub forwards for a result from the primary.
    pub open spec fn result_delivery(self, result: ActionResultView) -> Option<ReplyDeliveryView> {
        if awaits(self.pending, result.request_id) {
            Some(
                ReplyDeliveryView {
                    reply_to: self.pending[pending_index(self.pending, result.request_id)].reply_to,
                    frame: ActionRelayFrameView::Result(result),
                },
            )
        } else {
            None
        }
    }

    /// The hub after the primary game client went away.
    pub open spec fn after_detach(self) -> RelayHubView {
        RelayHubView { primary: None, pending: Seq::empty(), ..self }
    }
}

/// A held orchestrator subscription. It is obtained from
/// `RelayHub::acquire_orchestrator_slot` and handed back to
/// `RelayHub::release_orchestrator_slot` when the session ends.
#[derive(Debug)]
pub struct OrchestratorSlot {
    held: bool,
}

/// A reader's place in the stream of telemetry updates.
#[derive(Debug)]
pub struct TelemetrySubscription {
    seen: u64,
}

impl View for TelemetrySubscription {
    type V = u64;

    closed spec fn view(&self) -> u64 {
        self.seen
    }
}

/// The process-wide relay state.
pub struct RelayHub {
    relay_cfg: RelayConfig,
    orchestrator_count: usize,
    last_relay_mono_ms: Option<u64>,
    primary_game_sender: Option<u64>,
    pending_actions: Vec<PendingAction>,
    telemetry: Option<TelemetryFrame>,
    telemetry_updates: u64,
}

impl View for RelayHub {
    type V = RelayHubView;

    closed spec fn view(&self) -> RelayHubView {
        RelayHubView {
            cfg: self.relay_cfg@,
            orchestrator_count: self.orchestrator_count,
            last_relay_mono_ms: self.last_relay_mono_ms,
            primary: self.primary_game_sender,
            pending: self.pending_actions@.map_values(|p: PendingAction| p@),
            telemetry: match self.telemetry {
                Some(t) => Some(t@),
                None => None,
            },
            telemetry_updates: self.telemetry_updates,
        }
    }
}

impl RelayHub {
    /// A hub with no session attached and nothing relayed yet.
    pub fn new(relay_cfg: RelayConfig) -> (hub: Self)
        ensures
            hub@ == RelayHubView::initial(relay_cfg@),
            hub@.wf(),
    {
        let hub = Self {
            relay_cfg,
            orchestrator_count: 0,
            last_relay_mono_ms: None,
            primary_game_sender: None,
            pending_actions: Vec::new(),
            telemetry: None,
            telemetry_updates: 0,
        };
        proof {
            assert(hub@.pending =~= Seq::<Pending>::empty());
        }
        hub
    }

    /// The capacity to give the channels that carry actions and their replies.
    pub fn action_queue_size(&self) -> (n: usize)
        ensures
            n == self@.cfg.action_queue_size,
    {
        self.relay_cfg.action_queue_size
    }

    /// Whether `agent_id` names the primary game client.
    pub fn is_primary_game_agent(&self, agent_id: &str) -> (r: bool)
        ensures
            r == (agent_id@ == self@.cfg.primary_game_agent_id),
    {
        str_eq(agent_id, self.relay_cfg.primary_game_agent_id.as_str())
    }

    /// The agent id of the primary game client.
    pub fn primary_game_agent_id(&self) -> (id: &str)
        ensures
            id@ == self@.cfg.primary_game_agent_id,
    {
        self.relay_cfg.primary_game_agent_id.as_str()
    }

    /// How many orchestrators hold a slot.
    pub fn orchestrator_count(&self) -> (n: usize)
        ensures
            n == self@.orchestrator_count,
    {
        self.orchestrator_count
    }

    /// The channel of the attached primary game client, if one is attached.
    pub fn primary_game_sender(&self) -> (s: Option<u64>)
        ensures
            s == self@.primary,
    {
        self.primary_game_sender
    }

    /// How many times the broadcast slot has been written, counted modulo 2^64.
    pub fn telemetry_updates(&self) -> (n: u64)
        ensures
            n == self@.telemetry_updates,
    {
        self.telemetry_updates
    }

    /// How many actions await a reply.
    pub fn pending_len(&self) -> (n: usize)
        ensures
            n == self@.pending.len(),
    {
        self.pending_actions.len()
    }

    fn find_pending(&self, request_id: &str) -> (at: usize)
        ensures
            at == pending_index(self@.pending, request_id@),
            at <= self.pending_actions@.len(),
            self@.pending.len() == self.pending_actions@.len(),
    {
        let n: usize = self.pending_actions.len();
        let mut i: usize = 0;
        while i < n
            invariant
                n == self.pending_actions@.len(),
                i <= n,
                forall|j: int| 0 <= j < i ==> (#[trigger] self@.pending[j]).request_id != request_id@,
            decreases n - i,
        {
            if str_eq(self.pending_actions[i].request_id.as_str(), request_id) {
                proof {
                    lemma_pending_index_is(self@.pending, request_id@, i as int);
                }
                return i;
            }
            i += 1;
        }
        proof {
            lemma_pending_index_is(self@.pending, request_id@, n as int);
        }
        n
    }

    /// Whether a reply for `request_id` is awaited.
    pub fn is_pending(&self, request_id: &str) -> (r: bool)
        ensures
            r == awaits(self@.pending, request_id@),
    {
        self.find_pending(request_id) < self.pending_actions.len()
    }

    /// Starts reading telemetry. The frame latched at this moment counts as seen: it
    /// can be read with `latest_telemetry`, and `poll_telemetry` reports only what is
    /// published afterwards.
    pub fn subscribe_telemetry(&self) -> (sub: TelemetrySubscription)
        ensures
            sub@ == self@.telemetry_updates,
    {
        TelemetrySubscription { seen: self.telemetry_updates }
    }

    /// The telemetry frame published last, if any was.
    pub fn latest_telemetry(&self) -> (t: Option<TelemetryFrame>)
        ensures
            match t {
                Some(f) => self@.telemetry == Some(f@),
                None => self@.telemetry is None,
            },
    {
        match &self.telemetry {
            Some(f) => Some(f.clone()),
            None => None,
        }
    }

    /// Hands the latest frame to a reader that has not seen it yet. Frames published
    /// in between are skipped.
    pub fn poll_telemetry(&self, sub: &mut TelemetrySubscription) -> (t: Option<TelemetryFrame>)
        ensures
            final(sub)@ == self@.telemetry_updates,
            old(sub)@ == self@.telemetry_updates ==> t is None,
            old(sub)@ != self@.telemetry_updates ==> match t {
                Some(f) => self@.telemetry == Some(f@),
                None => self@.telemetry is None,
            },
    {
        if sub.seen == self.telemetry_updates {
            return None;
        }
        sub.seen = self.telemetry_updates;
        self.latest_telemetry()
    }

    /// Publishes a telemetry frame at time `now_mono_ms`, unless the last relayed
    /// frame is less than the configured interval old, in which case the frame is
    /// dropped. The first frame a hub is given is always published. Returns whether
    /// the frame was published.
    pub fn publish_telemetry(&mut self, now_mono_ms: u64, telemetry: &TelemetryFrame) -> (published: bool)
        ensures
            published == !old(self)@.rate_limited(now_mono_ms),
            final(self)@ == old(self)@.after_publish(now_mono_ms, telemetry@),
            old(self)@.wf() ==> final(self)@.wf(),
    {
        if self.relay_cfg.min_relay_interval_ms > 0 {
            if let Some(last) = self.last_relay_mono_ms {
                if now_mono_ms.saturating_sub(last) < self.relay_cfg.min_relay_interval_ms {
                    return false;
                }
            }
            self.last_relay_mono_ms = Some(now_mono_ms);
        }
        self.telemetry = Some(telemetry.clone());
        self.telemetry_updates = self.telemetry_updates.wrapping_add(1);
        true
    }

    /// Takes an orchestrator slot. Fails with `NotAllowed` where subscriptions are
    /// switched off and with `LimitReached` where every slot is taken.
    pub fn acquire_orchestrator_slot(&mut self) -> (r: Result<OrchestratorSlot, OrchestratorAcquireError>)
        ensures
            final(self)@ == old(self)@.after_acquire(),
            match old(self)@.acquire_refusal() {
                Some(e) => r is Err && r->Err_0 == e,
                None => r is Ok,
            },
            old(self)@.wf() ==> final(self)@.wf(),
    {
        if !self.relay_cfg.allow_orchestrator_subscribe {
            return Err(OrchestratorAcquireError::NotAllowed);
        }
        if self.orchestrator_count >= self.relay_cfg.max_orchestrator_subscribers {
            return Err(OrchestratorAcquireError::LimitReached);
        }
        self.orchestrator_count = self.orchestrator_count + 1;
        Ok(OrchestratorSlot { held: true })
    }

    /// Gives an orchestrator slot back.
    pub fn release_orchestrator_slot(&mut self, slot: OrchestratorSlot)
        ensures
            final(self)@ == old(self)@.after_release(),
            old(self)@.wf() ==> final(self)@.wf(),
    {
        if self.orchestrator_count > 0 {
            self.orchestrator_count = self.orchestrator_count - 1;
        }
    }

    /// Attaches the session whose action channel is `sender` as the primary game
    /// client. Fails where `agent_id` is not the primary's or a primary is attached.
    pub fn attach_primary_game_sender(&mut self, sender: u64, agent_id: &str) -> (r: Result<(), AttachError>)
        ensures
            match old(self)@.attach_refusal(agent_id@) {
                Some(e) => r == Err::<(), AttachError>(e) && final(self)@ == old(self)@,
                None => r is Ok && final(self)@ == (RelayHubView { primary: Some(sender), ..old(self)@ }),
            },
            old(self)@.wf() ==> final(self)@.wf(),
    {
        if !self.is_primary_game_agent(agent_id) {
            return Err(AttachError::NotPrimaryAgent);
        }
        if self.primary_game_sender.is_some() {
            return Err(AttachError::AlreadyAttached);
        }
        self.primary_game_sender = Some(sender);
        Ok(())
    }

    /// Detaches the primary game client and gives up every pending action: each
    /// issuer is to be sent a rejection and a timeout result.
    pub fn detach_primary_game_sender(&mut self) -> (out: Vec<ReplyDelivery>)
        ensures
            final(self)@ == old(self)@.after_detach(),
            delivery_views(out@) == failure_deliveries(old(self)@.pending, disconnect_reason()),
            old(self)@.wf() ==> final(self)@.wf(),
    {
        self.primary_game_sender = None;
        self.fail_all_pending("primary game client disconnected")
    }

    /// Empties the table of pending actions. For each entry the caller is to send a
    /// rejection and a timeout result, both carrying `reason`.
    pub fn fail_all_pending(&mut self, reason: &str) -> (out: Vec<ReplyDelivery>)
        ensures
            final(self)@ == (RelayHubView { pending: Seq::empty(), ..old(self)@ }),
            delivery_views(out@) == failure_deliveries(old(self)@.pending, reason@),
            old(self)@.wf() ==> final(self)@.wf(),
    {
        let mut out: Vec<ReplyDelivery> = Vec::new();
        let n: usize = self.pending_actions.len();
        let mut i: usize = 0;
        proof {
            assert(self@.pending.subrange(0, 0) =~= Seq::<Pending>::empty());
            assert(delivery_views(out@) =~= Seq::<ReplyDeliveryView>::empty());
        }
        while i < n
            invariant
                n == self.pending_actions@.len(),
                self@ == old(self)@,
                i <= n,
                delivery_views(out@) == failure_deliveries(self@.pending.subrange(0, i as int), reason@),
            decreases n - i,
        {
            let entry = &self.pending_actions[i];
            proof {
                let next = self@.pending.subrange(0, i as int + 1);
                assert(next.drop_last() =~= self@.pending.subrange(0, i as int));
                assert(next.last() == entry@);
            }
            let ghost before = out@;
            let ack = ActionAck {
                request_id: entry.request_id.clone(),
                accepted: false,
                reason: String::from_str(reason),
            };
            let result = ActionResult {
                request_id: entry.request_id.clone(),
                status: ActionStatus::ActionStatusTimeout.to_i32(),
                detail: String::from_str(reason),
                final_state_version: 0,
            };
            out.push(ReplyDelivery { reply_to: entry.reply_to, frame: ActionRelayFrame::Ack(ack) });
            out.push(ReplyDelivery { reply_to: entry.reply_to, frame: ActionRelayFrame::Result(result) });
            proof {
                assert(delivery_views(out@) =~= delivery_views(before).push(failure_ack(entry@, reason@)).push(
                    failure_result(entry@, reason@),
                ));
            }
            i += 1;
        }
        proof {
            assert(self@.pending.subrange(0, n as int) =~= self@.pending);
        }
        self.pending_actions = Vec::new();
        proof {
            assert(self@.pending =~= Seq::<Pending>::empty());
        }
        out
    }

    /// Checks an action request from an orchestrator and registers it as pending, with
    /// replies going to `reply_to`. On success the caller sends the request on to the
    /// primary game client as the returned dispatch says, and reports a failure of
    /// that send with `enqueue_failed`.
    pub fn enqueue_action(&mut self, req: ActionRequest, reply_to: u64) -> (r: Result<PrimaryDispatch, EnqueueError>)
        ensures
            final(self)@ == old(self)@.after_enqueue(req@, reply_to),
            match old(self)@.enqueue_refusal(req@) {
                Some(e) => r is Err && r->Err_0@ == e,
                None => r is Ok && r->Ok_0@ == (PrimaryDispatchView {
                    sender: old(self)@.primary->0,
                    request: req@,
                    timeout_ms: old(self)@.cfg.action_send_timeout_ms,
                }),
            },
            old(self)@.wf() ==> final(self)@.wf(),
    {
        if str_is_blank(req.request_id.as_str()) {
            return Err(EnqueueError::EmptyRequestId);
        }
        if !str_is_blank(req.target_agent_id.as_str()) && !str_eq(
            req.target_agent_id.as_str(),
            self.relay_cfg.primary_game_agent_id.as_str(),
        ) {
            return Err(
                EnqueueError::TargetMismatch {
                    target: req.target_agent_id.clone(),
                    primary: self.relay_cfg.primary_game_agent_id.clone(),
                },
            );
        }
        let sender = match self.primary_game_sender {
            Some(s) => s,
            None => {
                return Err(EnqueueError::PrimaryNotConnected);
            },
        };
        let at = self.find_pending(req.request_id.as_str());
        let entry = PendingAction { request_id: req.request_id.clone(), reply_to };
        proof {
            lemma_pending_index(old(self)@.pending, req@.request_id);
        }
        if at < self.pending_actions.len() {
            self.pending_actions.set(at, entry);
            proof {
                assert(self@.pending =~= old(self)@.pending.update(at as int, entry@));
            }
        } else {
            self.pending_actions.push(entry);
            proof {
                assert(self@.pending =~= old(self)@.pending.push(entry@));
            }
        }
        Ok(PrimaryDispatch { sender, request: req, timeout_ms: self.relay_cfg.action_send_timeout_ms })
    }

    /// Takes back the registration of `request_id` after the send to the primary game
    /// client failed, and says what to tell the orchestrator.
    pub fn enqueue_failed(&mut self, request_id: &str, failure: SendFailure) -> (e: EnqueueError)
        ensures
            final(self)@ == old(self)@.after_forget(request_id@),
            e@ == match failure {
                SendFailure::Closed => EnqueueErrorView::QueueClosed,
                SendFailure::TimedOut => EnqueueErrorView::SendTimeout {
                    after_ms: old(self)@.cfg.action_send_timeout_ms,
                },
            },
            old(self)@.wf() ==> final(self)@.wf(),
    {
        self.forget_pending(request_id);
        match failure {
            SendFailure::Closed => EnqueueError::QueueClosed,
            SendFailure::TimedOut => EnqueueError::SendTimeout { after_ms: self.relay_cfg.action_send_timeout_ms },
        }
    }

    fn forget_pending(&mut self, request_id: &str)
        ensures
            final(self)@ == old(self)@.after_forget(request_id@),
            old(self)@.wf() ==> final(self)@.wf(),
    {
        let at = self.find_pending(request_id);
        if at < self.pending_actions.len() {
            let _ = self.pending_actions.remove(at);
            proof {
                assert(self@.pending =~= old(self)@.pending.remove(at as int));
            }
        }
    }

    /// Routes an acknowledgement from the primary game client to the orchestrator
    /// that issued the action. An accepted action stays pending; a rejected one is
    /// forgotten. An acknowledgement nobody waits for is dropped.
    pub fn route_action_ack(&mut self, ack: &ActionAck) -> (r: Option<ReplyDelivery>)
        ensures
            final(self)@ == old(self)@.after_ack(ack@),
            match old(self)@.ack_delivery(ack@) {
                Some(d) => r is Some && r->0@ == d,
                None => r is None,
            },
            old(self)@.wf() ==> final(self)@.wf(),
    {
        let at = self.find_pending(ack.request_id.as_str());
        if at >= self.pending_actions.len() {
            proof {
                assert(forget(old(self)@.pending, ack@.request_id) == old(self)@.pending);
            }
            return None;
        }
        let reply_to = self.pending_actions[at].reply_to;
        if !ack.accepted {
            self.forget_pending(ack.request_id.as_str());
        }
        Some(ReplyDelivery { reply_to, frame: ActionRelayFrame::Ack(ack.clone()) })
    }

    /// Forgets the pending entry for `request_id` after its reply channel turned out
    /// to be closed.
    pub fn reply_channel_closed(&mut self, request_id: &str)
        ensures
            final(self)@ == old(self)@.after_forget(request_id@),
            old(self)@.wf() ==> final(self)@.wf(),
    {
        self.forget_pending(request_id);
    }

    /// Routes a result from the primary game client to the orchestrator that issued
    /// the action and forgets the action. A result nobody waits for is dropped.
    pub fn route_action_result(&mut self, result: &ActionResult) -> (r: Option<ReplyDelivery>)
        ensures
            final(self)@ == old(self)@.after_forget(result@.request_id),
            match old(self)@.result_delivery(result@) {
                Some(d) => r is Some && r->0@ == d,
                None => r is None,
            },
            old(self)@.wf() ==> final(self)@.wf(),
    {
        let at = self.find_pending(result.request_id.as_str());
        if at >= self.pending_actions.len() {
            return None;
        }
        let reply_to = self.pending_actions[at].reply_to;
        self.forget_pending(result.request_id.as_str());
        Some(ReplyDelivery { reply_to, frame: ActionRelayFrame::Result(result.clone()) })
    }
}

/// Taking an orchestrator slot and giving it back leaves the hub as it was, and while
/// the slot is held the count of orchestrators stays within its limit.
pub proof fn lemma_slot_acquire_release(h: RelayHubView)
    requires
        h.wf(),
        h.acquire_refusal() is None,
    ensures
        h.after_acquire().orchestrator_count == h.orchestrator_count + 1,
        h.after_acquire().orchestrator_count <= h.cfg.max_orchestrator_subscribers,
        h.after_acquire().wf(),
        h.after_acquire().after_release() == h,
{
}

/// Of two frames published one after the other, the second less than the relay
/// interval after the first, at most one updates the broadcast slot.
pub proof fn lemma_publish_twice_at_most_once(
    h: RelayHubView,
    first_ms: u64,
    second_ms: u64,
    f1: TelemetryFrameView,
    f2: TelemetryFrameView,
)
    requires
        first_ms <= second_ms,
        second_ms - first_ms < h.cfg.min_relay_interval_ms,
    ensures
        ({
            let after = h.after_publish(first_ms, f1).after_publish(second_ms, f2);
            after.telemetry_updates == h.telemetry_updates || after.telemetry_updates == next_update(
                h.telemetry_updates,
            )
        }),
{
}

/// Of two frames published one after the other, the second less than the relay
/// interval after the first, exactly the first updates the broadcast slot, provided
/// no frame was relayed before or the last one is at least the interval old: the
/// first frame is latched and its time recorded, the second is dropped silently.
pub proof fn lemma_publish_twice_exactly_once(
    h: RelayHubView,
    first_ms: u64,
    second_ms: u64,
    f1: TelemetryFrameView,
    f2: TelemetryFrameView,
)
    requires
        first_ms <= second_ms,
        second_ms - first_ms < h.cfg.min_relay_interval_ms,
        h.last_relay_mono_ms is None || saturating_diff(first_ms, h.last_relay_mono_ms->0)
            >= h.cfg.min_relay_interval_ms,
    ensures
        !h.rate_limited(first_ms),
        h.after_publish(first_ms, f1).rate_limited(second_ms),
        h.after_publish(first_ms, f1).after_publish(second_ms, f2) == h.after_publish(first_ms, f1),
        h.after_publish(first_ms, f1).telemetry_updates == next_update(h.telemetry_updates),
        h.after_publish(first_ms, f1).telemetry == Some(f1),
        h.after_publish(first_ms, f1).last_relay_mono_ms == Some(first_ms),
{
}

/// A hub that has relayed nothing publishes the first frame it is given, whenever
/// that frame comes; of two frames given to it less than the relay interval apart,
/// exactly the first updates the broadcast slot.
pub proof fn lemma_fresh_hub_publishes_first_frame(
    cfg: RelayConfigView,
    first_ms: u64,
    second_ms: u64,
    f1: TelemetryFrameView,
    f2: TelemetryFrameView,
)
    requires
        first_ms <= second_ms,
        second_ms - first_ms < cfg.min_relay_interval_ms,
    ensures
        !RelayHubView::initial(cfg).rate_limited(first_ms),
        RelayHubView::initial(cfg).after_publish(first_ms, f1).telemetry == Some(f1),
        RelayHubView::initial(cfg).after_publish(first_ms, f1).after_publish(second_ms, f2)
            == RelayHubView::initial(cfg).after_publish(first_ms, f1),
        RelayHubView::initial(cfg).after_publish(first_ms, f1).after_publish(second_ms, f2).telemetry_updates == 1,
{
    lemma_publish_twice_exactly_once(RelayHubView::initial(cfg), first_ms, second_ms, f1, f2);
}

/// A reply that arrives from the primary game client.
pub enum RouteEvent {
    Ack(ActionAckView),
    Result(ActionResultView),
}

impl RelayHubView {
    /// The hub after the reply `ev` was routed.
    pub open spec fn after_route(self, ev: RouteEvent) -> RelayHubView {
        match ev {
            RouteEvent::Ack(a) => self.after_ack(a),
            RouteEvent::Result(r) => self.after_forget(r.request_id),
        }
    }

    /// What the hub forwards for the reply `ev`.
    pub open spec fn route_delivery(self, ev: RouteEvent) -> Option<ReplyDeliveryView> {
        match ev {
            RouteEvent::Ack(a) => self.ack_delivery(a),
            RouteEvent::Result(r) => self.result_delivery(r),
        }
    }

    /// How many terminal frames for the request `id` the hub forwards while routing
    /// the replies `evs` in order.
    pub open spec fn terminal_frames(self, evs: Seq<RouteEvent>, id: Seq<char>) -> nat
        decreases evs.len(),
    {
        if evs.len() == 0 {
            0
        } else {
            let here: nat = match self.route_delivery(evs.first()) {
                Some(d) => if d.frame.is_terminal() && d.frame.request_id() == id {
                    1
                } else {
                    0
                },
                None => 0,
            };
            here + self.after_route(evs.first()).terminal_frames(evs.drop_first(), id)
        }
    }
}

/// However many replies the primary game client sends for a request, and in whatever
/// order, the hub forwards at most one terminal frame for it to the issuer, and none
/// once the request is no longer pending.
pub proof fn lemma_at_most_one_terminal_frame(h: RelayHubView, evs: Seq<RouteEvent>, id: Seq<char>)
    requires
        h.wf(),
    ensures
        h.terminal_frames(evs, id) <= 1,
        !awaits(h.pending, id) ==> h.terminal_frames(evs, id) == 0,
    decreases evs.len(),
{
    if evs.len() > 0 {
        let ev = evs.first();
        let next = h.after_route(ev);
        let ev_id = match ev {
            RouteEvent::Ack(a) => a.request_id,
            RouteEvent::Result(r) => r.request_id,
        };
        lemma_forget_forgets(h.pending, ev_id);
        lemma_pending_index(h.pending, ev_id);
        assert(next.wf());
        lemma_at_most_one_terminal_frame(next, evs.drop_first(), id);
    }
}

} // verus!
