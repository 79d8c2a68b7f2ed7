//! The state actor: the one place where bridge events, the speech queue and the action
//! ledger meet. It decides what is said and which emergency actions are sent.
//!
//! Nothing here waits or performs I/O. On every event and every tick the caller asks
//! the actor what to do, does it, and tells the actor how it went.

use crate::ids::{fresh_uuid, is_uuid_text};
use crate::orchestrator::action_client::{
    is_allowlisted, stop_all_request, stop_all_request_with_ids,
};
use crate::orchestrator::action_ledger::{
    after_ack, after_sent, surviving, timeouts, without, ActionLedger, Inflight, TimeoutEvent, TimeoutEventView,
    TimeoutKind,
};
use crate::orchestrator::bridge_client::{BridgeEvent, BridgeEventView};
use crate::orchestrator::config::{OrchestratorConfig, OrchestratorConfigView};
use crate::orchestrator::speech_queue::{
    drop_views, drops_of, reason_expired, DroppedSpeechJob, DroppedSpeechJobView, SpeechJob, SpeechJobView,
    SpeechPriority, SpeechQueue, SpeechQueueView, SpeechSource,
};
use crate::proto::{ActionRequest, ActionRequestView, ActionStatus, ActionType, Dimension, TelemetryFrame, TelemetryFrameView};
use crate::text::{decimal, strip_whitespace, str_eq, u64_to_decimal, without_whitespace};
use crate::time::{saturating_diff, saturating_sum};
use vstd::prelude::*;
use vstd::string::*;

verus! {

/// How long an emergency stop request stays valid, in milliseconds.
pub const STOP_ALL_TTL_MS: u64 = 1500;

/// How the actor names a dimension when it speaks.
pub open spec fn dimension_name(dimension: i32) -> Seq<char> {
    match Dimension::spec_from_i32(dimension) {
        Some(Dimension::DimensionOverworld) => "overworld"@,
        Some(Dimension::DimensionNether) => "nether"@,
        Some(Dimension::DimensionEnd) => "end"@,
        Some(Dimension::DimensionOther) => "other"@,
        _ => "unknown"@,
    }
}

/// How the actor names the status of an action when it speaks. A status this build
/// does not know counts as unspecified.
pub open spec fn status_name(status: i32) -> Seq<char> {
    match ActionStatus::spec_from_i32(status) {
        Some(ActionStatus::ActionStatusOk) => "ActionStatusOk"@,
        Some(ActionStatus::ActionStatusTimeout) => "ActionStatusTimeout"@,
        Some(ActionStatus::ActionStatusRejected) => "ActionStatusRejected"@,
        _ => "ActionStatusUnspecified"@,
    }
}

/// How the actor names a missed deadline when it speaks.
pub open spec fn timeout_label(kind: TimeoutKind) -> Seq<char> {
    match kind {
        TimeoutKind::Ack => "ack_timeout"@,
        TimeoutKind::Result => "result_timeout"@,
    }
}

/// The commentary on a telemetry frame.
pub open spec fn telemetry_line(t: TelemetryFrameView) -> Seq<char> {
    "Current dimension="@ + dimension_name(t.dimension) + ", hp="@ + decimal(t.hp as nat) + ", hunger="@ + decimal(
        t.hunger as nat,
    ) + ". moving with caution."@
}

/// The safety line for an action the game client rejected.
pub open spec fn rejected_line(reason: Seq<char>) -> Seq<char> {
    "Action was rejected. reason="@ + reason + ". switching to safe mode."@
}

/// The safety line for an action that ended with a status other than success.
pub open spec fn failed_line(status: i32) -> Seq<char> {
    "Action result status="@ + status_name(status) + ". prioritizing safe recovery."@
}

/// The safety line for an action that missed a deadline.
pub open spec fn timeout_line(request_id: Seq<char>, kind: TimeoutKind) -> Seq<char> {
    "Action "@ + request_id + " reached "@ + timeout_label(kind) + ". sending StopAll."@
}

/// The line spoken to break a long silence.
pub open spec fn filler_line() -> Seq<char> {
    "Planning the next safe move and checking surroundings."@
}

/// Whether the status `status` means success.
pub open spec fn is_ok_status(status: i32) -> bool {
    ActionStatus::spec_from_i32(status) == Some(ActionStatus::ActionStatusOk)
}

/// The job that speaks `text`, enqueued at `now_ms` and due `deadline_delta_ms`
/// later. Its dedupe key is the text without its whitespace.
pub open spec fn speech_job(
    job_id: Seq<char>,
    text: Seq<char>,
    priority: SpeechPriority,
    source: SpeechSource,
    deadline_delta_ms: u64,
    now_ms: u64,
) -> SpeechJobView {
    SpeechJobView {
        job_id,
        text,
        priority,
        source,
        enqueued_ms: now_ms,
        deadline_ms: saturating_sum(now_ms, deadline_delta_ms),
        dedupe_key: without_whitespace(text),
    }
}

/// The identifiers drawn for one missed deadline: for the job that speaks the safety
/// line, and for the emergency stop request and its idempotency key.
pub struct StopIds {
    pub job_id: Seq<char>,
    pub request_id: Seq<char>,
    pub idempotency_key: Seq<char>,
}

impl StopIds {
    /// Whether all three identifiers are in UUID form.
    pub open spec fn are_uuids(self) -> bool {
        is_uuid_text(self.job_id) && is_uuid_text(self.request_id) && is_uuid_text(self.idempotency_key)
    }
}

/// The mathematical value of a `StateActor`.
pub struct StateActorView {
    pub config: OrchestratorConfigView,
    pub queue: SpeechQueueView,
    pub ledger: Seq<Inflight>,
    pub last_spoken_ms: u64,
    pub last_line: Option<Seq<char>>,
    pub last_line_ms: u64,
}

/// The actor and what it wants written to the metrics after an attempt to enqueue a
/// line.
pub struct EnqueueStep {
    pub actor: StateActorView,
    pub dropped: Option<DroppedSpeechJobView>,
}

/// The actor and what it wants done after the first half of a tick.
pub struct TickStep {
    pub actor: StateActorView,
    pub dropped: Seq<DroppedSpeechJobView>,
    pub stop_requests: Seq<ActionRequestView>,
}

/// The actor and what it wants done after an event from the bridge.
pub struct EventStep {
    pub actor: StateActorView,
    pub keep_running: bool,
    pub dropped: Option<DroppedSpeechJobView>,
}

/// The actor and the job to speak after the second half of a tick.
pub struct SpeechStep {
    pub actor: StateActorView,
    pub dropped: Option<DroppedSpeechJobView>,
    pub job: Option<SpeechJobView>,
}

impl StateActorView {
    /// An actor that has seen nothing yet.
    pub open spec fn initial(config: OrchestratorConfigView) -> StateActorView {
        StateActorView {
            config,
            queue: SpeechQueueView::empty(config.queue_max_p0, config.queue_max_p1, config.queue_max_p2),
            ledger: Seq::empty(),
            last_spoken_ms: 0,
            last_line: None,
            last_line_ms: 0,
        }
    }

    /// Whether `text` at `now_ms` repeats the last enqueued line, whitespace aside,
    /// within the cooldown.
    pub open spec fn suppresses(self, text: Seq<char>, now_ms: u64) -> bool {
        self.last_line == Some(without_whitespace(text)) && saturating_diff(now_ms, self.last_line_ms)
            < self.config.duplicate_cooldown_ms
    }

    /// The actor after an attempt to enqueue `text`: a repeated line is dropped
    /// without a trace; any other line is remembered and pushed onto the queue, which
    /// may evict the oldest job of its tier.
    pub open spec fn enqueue(
        self,
        job_id: Seq<char>,
        text: Seq<char>,
        priority: SpeechPriority,
        source: SpeechSource,
        deadline_delta_ms: u64,
        now_ms: u64,
    ) -> EnqueueStep {
        if self.suppresses(text, now_ms) {
            EnqueueStep { actor: self, dropped: None }
        } else {
            EnqueueStep {
                actor: StateActorView {
                    last_line: Some(without_whitespace(text)),
                    last_line_ms: now_ms,
                    queue: self.queue.after_push(
                        speech_job(job_id, text, priority, source, deadline_delta_ms, now_ms),
                    ),
                    ..self
                },
                dropped: self.queue.push_drop(priority),
            }
        }
    }

    /// The actor after an event from the bridge: telemetry becomes commentary; a
    /// rejected or failed action leaves the ledger and becomes a safety line; a
    /// successful one just leaves the ledger; the end of the connection ends the
    /// actor's run.
    pub open spec fn on_event(self, ev: BridgeEventView, now_ms: u64, job_id: Seq<char>) -> EventStep {
        match ev {
            BridgeEventView::Telemetry(t) => {
                let e = self.enqueue(
                    job_id,
                    telemetry_line(t),
                    SpeechPriority::P2Commentary,
                    SpeechSource::Telemetry,
                    self.config.chat_deadline_ms,
                    now_ms,
                );
                EventStep { actor: e.actor, keep_running: true, dropped: e.dropped }
            },
            BridgeEventView::ActionAck(ack) => {
                let noted = StateActorView { ledger: after_ack(self.ledger, ack.request_id, ack.accepted), ..self };
                if ack.accepted {
                    EventStep { actor: noted, keep_running: true, dropped: None }
                } else {
                    let e = noted.enqueue(
                        job_id,
                        rejected_line(ack.reason),
                        SpeechPriority::P0Safety,
                        SpeechSource::ActionSafety,
                        self.config.chat_deadline_ms,
                        now_ms,
                    );
                    EventStep { actor: e.actor, keep_running: true, dropped: e.dropped }
                }
            },
            BridgeEventView::ActionResult(res) => {
                let noted = StateActorView { ledger: without(self.ledger, res.request_id), ..self };
                if is_ok_status(res.status) {
                    EventStep { actor: noted, keep_running: true, dropped: None }
                } else {
                    let e = noted.enqueue(
                        job_id,
                        failed_line(res.status),
                        SpeechPriority::P0Safety,
                        SpeechSource::ActionSafety,
                        self.config.chat_deadline_ms,
                        now_ms,
                    );
                    EventStep { actor: e.actor, keep_running: true, dropped: e.dropped }
                }
            },
            BridgeEventView::Heartbeat(_) => EventStep { actor: self, keep_running: true, dropped: None },
            BridgeEventView::Closed => EventStep { actor: self, keep_running: false, dropped: None },
        }
    }

    /// The emergency stop request for a missed deadline.
    pub open spec fn stop_request(self, ids: StopIds, wall_unix_ms: u64) -> ActionRequestView {
        stop_all_request(
            ids.request_id,
            ids.idempotency_key,
            self.config.primary_game_agent_id,
            wall_unix_ms,
            STOP_ALL_TTL_MS,
        )
    }

    /// The actor after one missed deadline: a safety line is enqueued.
    pub open spec fn on_timeout(self, t: TimeoutEventView, ids: StopIds, now_ms: u64) -> EnqueueStep {
        self.enqueue(
            ids.job_id,
            timeout_line(t.request_id, t.kind),
            SpeechPriority::P0Safety,
            SpeechSource::ActionSafety,
            self.config.chat_deadline_ms,
            now_ms,
        )
    }

    /// The actor after the missed deadlines `ts`, taken in order, each with its own
    /// identifiers: one safety line and one emergency stop request per deadline.
    pub open spec fn on_timeouts(
        self,
        ts: Seq<TimeoutEventView>,
        ids: Seq<StopIds>,
        now_ms: u64,
        wall_unix_ms: u64,
    ) -> TickStep
        decreases ts.len(),
    {
        if ts.len() == 0 || ids.len() != ts.len() {
            TickStep { actor: self, dropped: Seq::empty(), stop_requests: Seq::empty() }
        } else {
            let before = self.on_timeouts(ts.drop_last(), ids.drop_last(), now_ms, wall_unix_ms);
            let step = before.actor.on_timeout(ts.last(), ids.last(), now_ms);
            TickStep {
                actor: step.actor,
                dropped: match step.dropped {
                    Some(d) => before.dropped.push(d),
                    None => before.dropped,
                },
                stop_requests: before.stop_requests.push(self.stop_request(ids.last(), wall_unix_ms)),
            }
        }
    }

    /// The actor after the first half of a tick: expired jobs are swept from the
    /// queue, actions that missed a deadline leave the ledger, and each of them is
    /// answered with a safety line and an emergency stop request.
    pub open spec fn tick(self, ids: Seq<StopIds>, now_ms: u64, wall_unix_ms: u64) -> TickStep {
        let swept = StateActorView {
            queue: self.queue.after_drop_expired(now_ms),
            ledger: surviving(self.ledger, now_ms),
            ..self
        };
        let t = swept.on_timeouts(timeouts(self.ledger, now_ms), ids, now_ms, wall_unix_ms);
        TickStep {
            actor: t.actor,
            dropped: drops_of(self.queue.swept(now_ms), reason_expired()) + t.dropped,
            stop_requests: t.stop_requests,
        }
    }

    /// The actor after an emergency stop request was sent at `now_ms`: the request is
    /// entered in the ledger.
    pub open spec fn stop_sent(self, request_id: Seq<char>, now_ms: u64) -> StateActorView {
        StateActorView {
            ledger: after_sent(
                self.ledger,
                request_id,
                now_ms,
                self.config.action_ack_timeout_ms,
                self.config.action_result_timeout_ms,
            ),
            ..self
        }
    }

    /// Whether the silence at `now_ms` has lasted long enough for a filler.
    pub open spec fn wants_filler(self, now_ms: u64) -> bool {
        saturating_diff(now_ms, self.last_spoken_ms) >= self.config.silence_gap_ms
    }

    /// The actor after the second half of a tick: a filler is enqueued if the silence
    /// calls for one, and the next job is taken from the queue.
    pub open spec fn next_speech(self, job_id: Seq<char>, now_ms: u64) -> SpeechStep {
        let filled = if self.wants_filler(now_ms) {
            self.enqueue(
                job_id,
                filler_line(),
                SpeechPriority::P2Commentary,
                SpeechSource::Filler,
                self.config.filler_deadline_ms,
                now_ms,
            )
        } else {
            EnqueueStep { actor: self, dropped: None }
        };
        SpeechStep {
            actor: StateActorView { queue: filled.actor.queue.after_pop(now_ms), ..filled.actor },
            dropped: filled.dropped,
            job: filled.actor.queue.next_job(now_ms),
        }
    }
}

fn dimension_str(dimension: i32) -> (r: &'static str)
    ensures
        r@ == dimension_name(dimension),
{
    match Dimension::from_i32(dimension) {
        Some(Dimension::DimensionOverworld) => "overworld",
        Some(Dimension::DimensionNether) => "nether",
        Some(Dimension::DimensionEnd) => "end",
        Some(Dimension::DimensionOther) => "other",
        _ => "unknown",
    }
}

fn status_str(status: i32) -> (r: &'static str)
    ensures
        r@ == status_name(status),
{
    match ActionStatus::from_i32(status) {
        Some(ActionStatus::ActionStatusOk) => "ActionStatusOk",
        Some(ActionStatus::ActionStatusTimeout) => "ActionStatusTimeout",
        Some(ActionStatus::ActionStatusRejected) => "ActionStatusRejected",
        _ => "ActionStatusUnspecified",
    }
}

fn status_is_ok(status: i32) -> (r: bool)
    ensures
        r == is_ok_status(status),
{
    match ActionStatus::from_i32(status) {
        Some(ActionStatus::ActionStatusOk) => true,
        _ => false,
    }
}

/// The views of the given requests.
pub open spec fn request_views(rs: Seq<ActionRequest>) -> Seq<ActionRequestView> {
    rs.map_values(|r: ActionRequest| r@)
}

/// What the caller is to do after the first half of a tick: write a metric for each
/// dropped job, and send each stop request, telling the actor of every one that went
/// out with `on_stop_sent`.
#[derive(Debug)]
pub struct TickPlan {
    pub dropped: Vec<DroppedSpeechJob>,
    pub stop_requests: Vec<ActionRequest>,
}

/// What the caller is to do after an event: go on or stop, and write a metric for a
/// dropped job.
#[derive(Debug)]
pub struct EventOutcome {
    pub keep_running: bool,
    pub dropped: Option<DroppedSpeechJob>,
}

/// What the caller is to do after the second half of a tick: write a metric for a
/// dropped job, and speak `job` if there is one, telling the actor with `on_spoken`
/// when it is done. The two durations go into the metric of the spoken job.
#[derive(Debug)]
pub struct SpeechTurn {
    pub dropped: Option<DroppedSpeechJob>,
    pub job: Option<SpeechJob>,
    pub queue_wait_ms: u64,
    pub silence_gap_ms: u64,
}

/// The deciding half of the orchestrator.
pub struct StateActor {
    cfg: OrchestratorConfig,
    queue: SpeechQueue,
    ledger: ActionLedger,
    last_spoken_ms: u64,
    last_line: Option<String>,
    last_line_ms: u64,
}

impl View for StateActor {
    type V = StateActorView;

    closed spec fn view(&self) -> StateActorView {
        StateActorView {
            config: self.cfg@,
            queue: self.queue@,
            ledger: self.ledger@,
            last_spoken_ms: self.last_spoken_ms,
            last_line: match self.last_line {
                Some(s) => Some(s@),
                None => None,
            },
            last_line_ms: self.last_line_ms,
        }
    }
}

impl StateActor {
    /// An actor that has seen nothing yet.
    pub fn new(cfg: OrchestratorConfig) -> (actor: Self)
        ensures
            actor@ == StateActorView::initial(cfg@),
    {
        Self {
            queue: SpeechQueue::new(cfg.queue_max_p0, cfg.queue_max_p1, cfg.queue_max_p2),
            ledger: ActionLedger::new(),
            cfg,
            last_spoken_ms: 0,
            last_line: None,
            last_line_ms: 0,
        }
    }

    /// The configuration the actor was made with.
    pub fn config(&self) -> (cfg: &OrchestratorConfig)
        ensures
            cfg@ == self@.config,
    {
        &self.cfg
    }

    /// Composes the commentary on a telemetry frame.
    pub fn make_telemetry_line(&self, telemetry: &TelemetryFrame) -> (line: String)
        ensures
            line@ == telemetry_line(telemetry@),
    {
        let mut line = String::from_str("Current dimension=");
        line.append(dimension_str(telemetry.dimension));
        line.append(", hp=");
        line.append(u64_to_decimal(telemetry.hp as u64).as_str());
        line.append(", hunger=");
        line.append(u64_to_decimal(telemetry.hunger as u64).as_str());
        line.append(". moving with caution.");
        line
    }

    /// Enqueues `text` as a job under the identifier `job_id`, unless it repeats the
    /// last enqueued line within the cooldown. Returns the job that the queue evicted
    /// to make room, if it evicted one.
    pub fn enqueue_speech_with_id(
        &mut self,
        job_id: String,
        text: String,
        priority: SpeechPriority,
        source: SpeechSource,
        deadline_delta_ms: u64,
        now_ms: u64,
    ) -> (dropped: Option<DroppedSpeechJob>)
        ensures
            final(self)@ == old(self)@.enqueue(job_id@, text@, priority, source, deadline_delta_ms, now_ms).actor,
            match old(self)@.enqueue(job_id@, text@, priority, source, deadline_delta_ms, now_ms).dropped {
                Some(d) => dropped is Some && dropped->0@ == d,
                None => dropped is None,
            },
    {
        let dedupe_key = strip_whitespace(text.as_str());
        if let Some(last) = &self.last_line {
            if str_eq(last.as_str(), dedupe_key.as_str()) && now_ms.saturating_sub(self.last_line_ms)
                < self.cfg.duplicate_cooldown_ms {
                return None;
            }
        }
        self.last_line = Some(dedupe_key.clone());
        self.last_line_ms = now_ms;
        let job = SpeechJob {
            job_id,
            text,
            priority,
            source,
            enqueued_ms: now_ms,
            deadline_ms: now_ms.saturating_add(deadline_delta_ms),
            dedupe_key,
        };
        self.queue.push(job)
    }

    /// Enqueues `text` as a job under a fresh random identifier, unless it repeats
    /// the last enqueued line within the cooldown.
    pub fn enqueue_speech(
        &mut self,
        text: String,
        priority: SpeechPriority,
        source: SpeechSource,
        deadline_delta_ms: u64,
        now_ms: u64,
    ) -> (dropped: Option<DroppedSpeechJob>)
        ensures
            exists|job_id: Seq<char>|
                is_uuid_text(job_id) && #[trigger] old(self)@.enqueue(
                    job_id,
                    text@,
                    priority,
                    source,
                    deadline_delta_ms,
                    now_ms,
                ) == (EnqueueStep {
                    actor: final(self)@,
                    dropped: match dropped {
                        Some(d) => Some(d@),
                        None => None,
                    },
                }),
    {
        let job_id = fresh_uuid();
        let ghost id = job_id@;
        let dropped = self.enqueue_speech_with_id(job_id, text, priority, source, deadline_delta_ms, now_ms);
        proof {
            let step = old(self)@.enqueue(id, text@, priority, source, deadline_delta_ms, now_ms);
            assert(step == (EnqueueStep {
                actor: self@,
                dropped: match dropped {
                    Some(d) => Some(d@),
                    None => None,
                },
            }));
        }
        dropped
    }

    /// Acts on an event from the bridge; a line that the event calls for is enqueued
    /// under the identifier `job_id`.
    pub fn on_bridge_event_with_id(&mut self, event: BridgeEvent, now_ms: u64, job_id: String) -> (out: EventOutcome)
        ensures
            final(self)@ == old(self)@.on_event(event@, now_ms, job_id@).actor,
            out.keep_running == old(self)@.on_event(event@, now_ms, job_id@).keep_running,
            match old(self)@.on_event(event@, now_ms, job_id@).dropped {
                Some(d) => out.dropped is Some && out.dropped->0@ == d,
                None => out.dropped is None,
            },
    {
        match event {
            BridgeEvent::Telemetry(frame) => {
                let line = self.make_telemetry_line(&frame);
                let dropped = self.enqueue_speech_with_id(
                    job_id,
                    line,
                    SpeechPriority::P2Commentary,
                    SpeechSource::Telemetry,
                    self.cfg.chat_deadline_ms,
                    now_ms,
                );
                EventOutcome { keep_running: true, dropped }
            },
            BridgeEvent::ActionAck(ack) => {
                self.ledger.on_ack(ack.request_id.as_str(), ack.accepted);
                if ack.accepted {
                    EventOutcome { keep_running: true, dropped: None }
                } else {
                    let mut line = String::from_str("Action was rejected. reason=");
                    line.append(ack.reason.as_str());
                    line.append(". switching to safe mode.");
                    let dropped = self.enqueue_speech_with_id(
                        job_id,
                        line,
                        SpeechPriority::P0Safety,
                        SpeechSource::ActionSafety,
                        self.cfg.chat_deadline_ms,
                        now_ms,
                    );
                    EventOutcome { keep_running: true, dropped }
                }
            },
            BridgeEvent::ActionResult(result) => {
                self.ledger.on_result(result.request_id.as_str());
                if status_is_ok(result.status) {
                    EventOutcome { keep_running: true, dropped: None }
                } else {
                    let mut line = String::from_str("Action result status=");
                    line.append(status_str(result.status));
                    line.append(". prioritizing safe recovery.");
                    let dropped = self.enqueue_speech_with_id(
                        job_id,
                        line,
                        SpeechPriority::P0Safety,
                        SpeechSource::ActionSafety,
                        self.cfg.chat_deadline_ms,
                        now_ms,
                    );
                    EventOutcome { keep_running: true, dropped }
                }
            },
            BridgeEvent::Heartbeat(_) => EventOutcome { keep_running: true, dropped: None },
            BridgeEvent::Closed => EventOutcome { keep_running: false, dropped: None },
        }
    }

    /// Acts on an event from the bridge; a line that the event calls for is enqueued
    /// under a fresh random identifier.
    pub fn on_bridge_event(&mut self, event: BridgeEvent, now_ms: u64) -> (out: EventOutcome)
        ensures
            exists|job_id: Seq<char>|
                is_uuid_text(job_id) && #[trigger] old(self)@.on_event(event@, now_ms, job_id) == (EventStep {
                    actor: final(self)@,
                    keep_running: out.keep_running,
                    dropped: match out.dropped {
                        Some(d) => Some(d@),
                        None => None,
                    },
                }),
    {
        let job_id = fresh_uuid();
        let ghost id = job_id@;
        let out = self.on_bridge_event_with_id(event, now_ms, job_id);
        proof {
            let step = old(self)@.on_event(event@, now_ms, id);
            assert(step == (EventStep {
                actor: self@,
                keep_running: out.keep_running,
                dropped: match out.dropped {
                    Some(d) => Some(d@),
                    None => None,
                },
            }));
        }
        out
    }

    /// Answers one missed deadline under the given identifiers: enqueues a safety
    /// line and, stop requests being allowed, builds the emergency stop request that
    /// the caller is to send.
    pub fn on_timeout_with_ids(
        &mut self,
        timeout: &TimeoutEvent,
        now_ms: u64,
        wall_unix_ms: u64,
        job_id: String,
        request_id: String,
        idempotency_key: String,
    ) -> (r: (Option<DroppedSpeechJob>, Option<ActionRequest>))
        ensures
            final(self)@ == old(self)@.on_timeout(
                timeout@,
                StopIds { job_id: job_id@, request_id: request_id@, idempotency_key: idempotency_key@ },
                now_ms,
            ).actor,
            match old(self)@.on_timeout(
                timeout@,
                StopIds { job_id: job_id@, request_id: request_id@, idempotency_key: idempotency_key@ },
                now_ms,
            ).dropped {
                Some(d) => r.0 is Some && r.0->0@ == d,
                None => r.0 is None,
            },
            r.1 is Some,
            r.1->0@ == old(self)@.stop_request(
                StopIds { job_id: job_id@, request_id: request_id@, idempotency_key: idempotency_key@ },
                wall_unix_ms,
            ),
    {
        let label = match timeout.kind {
            TimeoutKind::Ack => "ack_timeout",
            TimeoutKind::Result => "result_timeout",
        };
        let mut line = String::from_str("Action ");
        line.append(timeout.request_id.as_str());
        line.append(" reached ");
        line.append(label);
        line.append(". sending StopAll.");
        let dropped = self.enqueue_speech_with_id(
            job_id,
            line,
            SpeechPriority::P0Safety,
            SpeechSource::ActionSafety,
            self.cfg.chat_deadline_ms,
            now_ms,
        );
        if !is_allowlisted(ActionType::ActionTypeStopAll) {
            return (dropped, None);
        }
        let stop = stop_all_request_with_ids(
            request_id,
            idempotency_key,
            self.cfg.primary_game_agent_id.as_str(),
            wall_unix_ms,
            STOP_ALL_TTL_MS,
        );
        (dropped, Some(stop))
    }

    /// Runs the first half of a tick at the monotonic time `now_ms` and the wall-clock
    /// time `wall_unix_ms`: sweeps expired jobs from the queue, polls the ledger, and
    /// answers every missed deadline with a safety line and an emergency stop request
    /// under fresh random identifiers.
    pub fn on_tick(&mut self, now_ms: u64, wall_unix_ms: u64) -> (plan: TickPlan)
        ensures
            exists|ids: Seq<StopIds>|
                ids.len() == timeouts(old(self)@.ledger, now_ms).len() && (forall|i: int|
                    0 <= i < ids.len() ==> (#[trigger] ids[i]).are_uuids()) && #[trigger] old(self)@.tick(
                    ids,
                    now_ms,
                    wall_unix_ms,
                ) == (TickStep {
                    actor: final(self)@,
                    dropped: drop_views(plan.dropped@),
                    stop_requests: request_views(plan.stop_requests@),
                }),
    {
        let mut dropped = self.queue.drop_expired(now_ms);
        let events = self.ledger.poll_timeouts(now_ms);
        let mut stop_requests: Vec<ActionRequest> = Vec::new();
        let ghost swept = self@;
        let ghost sweep_drops = drop_views(dropped@);
        let ghost all = timeouts(old(self)@.ledger, now_ms);
        let ghost mut ids: Seq<StopIds> = Seq::empty();
        let n: usize = events.len();
        let mut i: usize = 0;
        proof {
            assert(all.subrange(0, 0) =~= Seq::<TimeoutEventView>::empty());
            assert(request_views(stop_requests@) =~= Seq::<ActionRequestView>::empty());
            assert(sweep_drops + Seq::<DroppedSpeechJobView>::empty() =~= sweep_drops);
            assert(all.len() == events@.len());
        }
        while i < n
            invariant
                n == events@.len(),
                i <= n,
                all == events@.map_values(|e: TimeoutEvent| e@),
                ids.len() == i,
                forall|k: int| 0 <= k < ids.len() ==> (#[trigger] ids[k]).are_uuids(),
                self@.config == swept.config,
                swept.on_timeouts(all.subrange(0, i as int), ids, now_ms, wall_unix_ms).actor == self@,
                sweep_drops + swept.on_timeouts(all.subrange(0, i as int), ids, now_ms, wall_unix_ms).dropped
                    == drop_views(dropped@),
                swept.on_timeouts(all.subrange(0, i as int), ids, now_ms, wall_unix_ms).stop_requests
                    == request_views(stop_requests@),
            decreases n - i,
        {
            let job_id = fresh_uuid();
            let request_id = fresh_uuid();
            let idempotency_key = fresh_uuid();
            let ghost these = StopIds {
                job_id: job_id@,
                request_id: request_id@,
                idempotency_key: idempotency_key@,
            };
            let ghost before_actor = self@;
            let ghost before_drops = drop_views(dropped@);
            let ghost before_stops = request_views(stop_requests@);
            let ghost before_ids = ids;
            let (evicted, stop) = self.on_timeout_with_ids(
                &events[i],
                now_ms,
                wall_unix_ms,
                job_id,
                request_id,
                idempotency_key,
            );
            proof {
                ids = ids.push(these);
                let next = all.subrange(0, i as int + 1);
                assert(next.drop_last() =~= all.subrange(0, i as int));
                assert(next.last() == events@[i as int]@);
                assert(ids.drop_last() =~= before_ids);
                assert(ids.last() == these);
            }
            match evicted {
                Some(d) => {
                    dropped.push(d);
                    proof {
                        assert(drop_views(dropped@) =~= before_drops.push(d@));
                    }
                },
                None => {},
            }
            match stop {
                Some(req) => {
                    stop_requests.push(req);
                    proof {
                        assert(request_views(stop_requests@) =~= before_stops.push(req@));
                    }
                },
                None => {},
            }
            i += 1;
        }
        proof {
            assert(all.subrange(0, n as int) =~= all);
            let step = old(self)@.tick(ids, now_ms, wall_unix_ms);
            assert(step == (TickStep {
                actor: self@,
                dropped: drop_views(dropped@),
                stop_requests: request_views(stop_requests@),
            }));
        }
        TickPlan { dropped, stop_requests }
    }

    /// Takes note that the emergency stop request `request_id` went out at `now_ms`:
    /// it is entered in the ledger with the configured allowances.
    pub fn on_stop_sent(&mut self, request_id: String, now_ms: u64)
        ensures
            final(self)@ == old(self)@.stop_sent(request_id@, now_ms),
    {
        self.ledger.on_sent(
            request_id,
            now_ms,
            self.cfg.action_ack_timeout_ms,
            self.cfg.action_result_timeout_ms,
        );
    }

    /// Runs the second half of a tick: enqueues a filler under the identifier
    /// `job_id` if nothing was spoken for the configured silence gap, then takes the
    /// next job from the queue.
    pub fn next_speech_with_id(&mut self, now_ms: u64, job_id: String) -> (turn: SpeechTurn)
        ensures
            final(self)@ == old(self)@.next_speech(job_id@, now_ms).actor,
            match old(self)@.next_speech(job_id@, now_ms).dropped {
                Some(d) => turn.dropped is Some && turn.dropped->0@ == d,
                None => turn.dropped is None,
            },
            match old(self)@.next_speech(job_id@, now_ms).job {
                Some(j) => turn.job is Some && turn.job->0@ == j && turn.queue_wait_ms == saturating_diff(
                    now_ms,
                    j.enqueued_ms,
                ),
                None => turn.job is None && turn.queue_wait_ms == 0,
            },
            turn.silence_gap_ms == saturating_diff(now_ms, old(self)@.last_spoken_ms),
    {
        let silence_gap_ms = now_ms.saturating_sub(self.last_spoken_ms);
        let dropped = if silence_gap_ms >= self.cfg.silence_gap_ms {
            self.enqueue_speech_with_id(
                job_id,
                String::from_str("Planning the next safe move and checking surroundings."),
                SpeechPriority::P2Commentary,
                SpeechSource::Filler,
                self.cfg.filler_deadline_ms,
                now_ms,
            )
        } else {
            None
        };
        let job = self.queue.pop_next(now_ms);
        let queue_wait_ms = match &job {
            Some(j) => now_ms.saturating_sub(j.enqueued_ms),
            None => 0,
        };
        SpeechTurn { dropped, job, queue_wait_ms, silence_gap_ms }
    }

    /// Runs the second half of a tick, with a fresh random identifier for the filler.
    pub fn next_speech(&mut self, now_ms: u64) -> (turn: SpeechTurn)
        ensures
            exists|job_id: Seq<char>|
                is_uuid_text(job_id) && #[trigger] old(self)@.next_speech(job_id, now_ms) == (SpeechStep {
                    actor: final(self)@,
                    dropped: match turn.dropped {
                        Some(d) => Some(d@),
                        None => None,
                    },
                    job: match turn.job {
                        Some(j) => Some(j@),
                        None => None,
                    },
                }),
            turn.silence_gap_ms == saturating_diff(now_ms, old(self)@.last_spoken_ms),
            match turn.job {
                Some(j) => turn.queue_wait_ms == saturating_diff(now_ms, j@.enqueued_ms),
                None => turn.queue_wait_ms == 0,
            },
    {
        let job_id = fresh_uuid();
        let ghost id = job_id@;
        let turn = self.next_speech_with_id(now_ms, job_id);
        proof {
            let step = old(self)@.next_speech(id, now_ms);
            assert(step == (SpeechStep {
                actor: self@,
                dropped: match turn.dropped {
                    Some(d) => Some(d@),
                    None => None,
                },
                job: match turn.job {
                    Some(j) => Some(j@),
                    None => None,
                },
            }));
        }
        turn
    }

    /// Takes note that a job was spoken, the speaking having ended at `now_ms`.
    pub fn on_spoken(&mut self, now_ms: u64)
        ensures
            final(self)@ == (StateActorView { last_spoken_ms: now_ms, ..old(self)@ }),
    {
        self.last_spoken_ms = now_ms;
    }
}

} // verus!
