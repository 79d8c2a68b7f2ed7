//! A three-tier priority queue of speech jobs with per-tier capacity and deadlines.

use std::collections::VecDeque;
use vstd::prelude::*;

verus! {

/// How urgent a speech job is. Safety lines preempt everything and never expire.
#[derive(Clone, Copy, Debug, PartialEq, Eq, Structural)]
pub enum SpeechPriority {
    P0Safety,
    P1ChatReply,
    P2Commentary,
}

impl SpeechPriority {
    pub open spec fn spec_as_str(self) -> Seq<char> {
        match self {
            SpeechPriority::P0Safety => "p0_safety"@,
            SpeechPriority::P1ChatReply => "p1_chat_reply"@,
            SpeechPriority::P2Commentary => "p2_commentary"@,
        }
    }

    /// The name of the priority as it appears in metrics.
    pub fn as_str(self) -> (r: &'static str)
        ensures
            r@ == self.spec_as_str(),
    {
        match self {
            SpeechPriority::P0Safety => "p0_safety",
            SpeechPriority::P1ChatReply => "p1_chat_reply",
            SpeechPriority::P2Commentary => "p2_commentary",
        }
    }
}

/// What caused a line to be spoken.
#[derive(Clone, Copy, Debug, PartialEq, Eq, Structural)]
pub enum SpeechSource {
    Telemetry,
    Filler,
    ActionSafety,
}

impl SpeechSource {
    pub open spec fn spec_as_str(self) -> Seq<char> {
        match self {
            SpeechSource::Telemetry => "telemetry"@,
            SpeechSource::Filler => "filler"@,
            SpeechSource::ActionSafety => "action_safety"@,
        }
    }

    /// The name of the source as it appears in metrics.
    pub fn as_str(self) -> (r: &'static str)
        ensures
            r@ == self.spec_as_str(),
    {
        match self {
            SpeechSource::Telemetry => "telemetry",
            SpeechSource::Filler => "filler",
            SpeechSource::ActionSafety => "action_safety",
        }
    }
}

/// One line of text waiting to be spoken.
#[derive(Debug)]
pub struct SpeechJob {
    pub job_id: String,
    pub text: String,
    pub priority: SpeechPriority,
    pub source: SpeechSource,
    pub enqueued_ms: u64,
    pub deadline_ms: u64,
    pub dedupe_key: String,
}

/// The mathematical value of a `SpeechJob`.
pub struct SpeechJobView {
    pub job_id: Seq<char>,
    pub text: Seq<char>,
    pub priority: SpeechPriority,
    pub source: SpeechSource,
    pub enqueued_ms: u64,
    pub deadline_ms: u64,
    pub dedupe_key: Seq<char>,
}

impl View for SpeechJob {
    type V = SpeechJobView;

    open spec fn view(&self) -> SpeechJobView {
        SpeechJobView {
            job_id: self.job_id@,
            text: self.text@,
            priority: self.priority,
            source: self.source,
            enqueued_ms: self.enqueued_ms,
            deadline_ms: self.deadline_ms,
            dedupe_key: self.dedupe_key@,
        }
    }
}

impl Clone for SpeechJob {
    fn clone(&self) -> (r: Self)
        ensures
            r@ == self@,
    {
        SpeechJob {
            job_id: self.job_id.clone(),
            text: self.text.clone(),
            priority: self.priority,
            source: self.source,
            enqueued_ms: self.enqueued_ms,
            deadline_ms: self.deadline_ms,
            dedupe_key: self.dedupe_key.clone(),
        }
    }
}

impl SpeechJobView {
    /// Whether the job may be discarded at `now_ms` for having missed its deadline.
    /// Safety lines never qualify.
    pub open spec fn expired_at(self, now_ms: u64) -> bool {
        self.priority != SpeechPriority::P0Safety && self.deadline_ms < now_ms
    }
}

/// A job that left the queue without being spoken, and why.
#[derive(Debug)]
pub struct DroppedSpeechJob {
    pub job: SpeechJob,
    pub reason: &'static str,
}

/// The mathematical value of a `DroppedSpeechJob`.
pub struct DroppedSpeechJobView {
    pub job: SpeechJobView,
    pub reason: Seq<char>,
}

impl View for DroppedSpeechJob {
    type V = DroppedSpeechJobView;

    open spec fn view(&self) -> DroppedSpeechJobView {
        DroppedSpeechJobView { job: self.job@, reason: self.reason@ }
    }
}

impl Clone for DroppedSpeechJob {
    fn clone(&self) -> (r: Self)
        ensures
            r@ == self@,
    {
        DroppedSpeechJob { job: self.job.clone(), reason: self.reason }
    }
}

/// The reason recorded for a job evicted to make room for a newer one.
pub open spec fn reason_overflow() -> Seq<char> {
    "queue_overflow"@
}

/// The reason recorded for a job discarded after its deadline.
pub open spec fn reason_expired() -> Seq<char> {
    "deadline_expired"@
}

/// The views of the given jobs.
pub open spec fn job_views(q: Seq<SpeechJob>) -> Seq<SpeechJobView> {
    q.map_values(|j: SpeechJob| j@)
}

/// The views of the given records.
pub open spec fn drop_views(d: Seq<DroppedSpeechJob>) -> Seq<DroppedSpeechJobView> {
    d.map_values(|x: DroppedSpeechJob| x@)
}

/// The jobs of `q` that survive a sweep at `now_ms`, in order.
pub open spec fn kept_jobs(q: Seq<SpeechJobView>, now_ms: u64) -> Seq<SpeechJobView>
    decreases q.len(),
{
    if q.len() == 0 {
        Seq::empty()
    } else if q.last().expired_at(now_ms) {
        kept_jobs(q.drop_last(), now_ms)
    } else {
        kept_jobs(q.drop_last(), now_ms).push(q.last())
    }
}

/// The jobs of `q` that a sweep at `now_ms` discards, in order.
pub open spec fn expired_jobs(q: Seq<SpeechJobView>, now_ms: u64) -> Seq<SpeechJobView>
    decreases q.len(),
{
    if q.len() == 0 {
        Seq::empty()
    } else if q.last().expired_at(now_ms) {
        expired_jobs(q.drop_last(), now_ms).push(q.last())
    } else {
        expired_jobs(q.drop_last(), now_ms)
    }
}

/// How many jobs at the front of `q` have a deadline before `now_ms`.
pub open spec fn stale_prefix_len(q: Seq<SpeechJobView>, now_ms: u64) -> nat
    decreases q.len(),
{
    if q.len() == 0 || q.first().deadline_ms >= now_ms {
        0
    } else {
        1 + stale_prefix_len(q.drop_first(), now_ms)
    }
}

/// The records of the jobs `jobs`, each with reason `reason`.
pub open spec fn drops_of(jobs: Seq<SpeechJobView>, reason: Seq<char>) -> Seq<DroppedSpeechJobView> {
    jobs.map_values(|j: SpeechJobView| DroppedSpeechJobView { job: j, reason })
}

/// The mathematical value of a `SpeechQueue`: its three tiers, oldest job first, and
/// their capacities.
pub struct SpeechQueueView {
    pub p0: Seq<SpeechJobView>,
    pub p1: Seq<SpeechJobView>,
    pub p2: Seq<SpeechJobView>,
    pub max_p0: usize,
    pub max_p1: usize,
    pub max_p2: usize,
}

impl SpeechQueueView {
    /// An empty queue with the given tier capacities.
    pub open spec fn empty(max_p0: usize, max_p1: usize, max_p2: usize) -> SpeechQueueView {
        SpeechQueueView { p0: Seq::empty(), p1: Seq::empty(), p2: Seq::empty(), max_p0, max_p1, max_p2 }
    }

    /// The tier that holds jobs of priority `p`.
    pub open spec fn tier(self, p: SpeechPriority) -> Seq<SpeechJobView> {
        match p {
            SpeechPriority::P0Safety => self.p0,
            SpeechPriority::P1ChatReply => self.p1,
            SpeechPriority::P2Commentary => self.p2,
        }
    }

    /// The capacity of the tier for priority `p`.
    pub open spec fn cap(self, p: SpeechPriority) -> usize {
        match p {
            SpeechPriority::P0Safety => self.max_p0,
            SpeechPriority::P1ChatReply => self.max_p1,
            SpeechPriority::P2Commentary => self.max_p2,
        }
    }

    /// This queue with the tier for priority `p` replaced by `q`.
    pub open spec fn with_tier(self, p: SpeechPriority, q: Seq<SpeechJobView>) -> SpeechQueueView {
        match p {
            SpeechPriority::P0Safety => SpeechQueueView { p0: q, ..self },
            SpeechPriority::P1ChatReply => SpeechQueueView { p1: q, ..self },
            SpeechPriority::P2Commentary => SpeechQueueView { p2: q, ..self },
        }
    }

    /// Every job sits in the tier of its own priority.
    pub open spec fn sorted_by_tier(self) -> bool {
        &&& forall|i: int| 0 <= i < self.p0.len() ==> (#[trigger] self.p0[i]).priority == SpeechPriority::P0Safety
        &&& forall|i: int| 0 <= i < self.p1.len() ==> (#[trigger] self.p1[i]).priority == SpeechPriority::P1ChatReply
        &&& forall|i: int| 0 <= i < self.p2.len() ==> (#[trigger] self.p2[i]).priority == SpeechPriority::P2Commentary
    }

    /// Whether pushing onto the tier for `p` evicts that tier's oldest job.
    pub open spec fn push_evicts(self, p: SpeechPriority) -> bool {
        self.tier(p).len() >= self.cap(p) && self.tier(p).len() > 0
    }

    /// The record of the job that pushing onto the tier for `p` evicts, if it evicts
    /// one.
    pub open spec fn push_drop(self, p: SpeechPriority) -> Option<DroppedSpeechJobView> {
        if self.push_evicts(p) {
            Some(DroppedSpeechJobView { job: self.tier(p).first(), reason: reason_overflow() })
        } else {
            None
        }
    }

    /// The queue after `job` is pushed.
    pub open spec fn after_push(self, job: SpeechJobView) -> SpeechQueueView {
        let q = self.tier(job.priority);
        if self.push_evicts(job.priority) {
            self.with_tier(job.priority, q.drop_first().push(job))
        } else {
            self.with_tier(job.priority, q.push(job))
        }
    }

    /// The queue after a sweep at `now_ms`.
    pub open spec fn after_drop_expired(self, now_ms: u64) -> SpeechQueueView {
        SpeechQueueView {
            p0: kept_jobs(self.p0, now_ms),
            p1: kept_jobs(self.p1, now_ms),
            p2: kept_jobs(self.p2, now_ms),
            ..self
        }
    }

    /// The jobs a sweep at `now_ms` discards: those of the first tier, then the
    /// second, then the third.
    pub open spec fn swept(self, now_ms: u64) -> Seq<SpeechJobView> {
        expired_jobs(self.p0, now_ms) + expired_jobs(self.p1, now_ms) + expired_jobs(self.p2, now_ms)
    }

    /// The job that `pop_next` hands out at `now_ms`, if any.
    pub open spec fn next_job(self, now_ms: u64) -> Option<SpeechJobView> {
        let s1 = stale_prefix_len(self.p1, now_ms) as int;
        let s2 = stale_prefix_len(self.p2, now_ms) as int;
        if self.p0.len() > 0 {
            Some(self.p0.first())
        } else if s1 < self.p1.len() {
            Some(self.p1[s1])
        } else if s2 < self.p2.len() {
            Some(self.p2[s2])
        } else {
            None
        }
    }

    /// The queue after `pop_next` at `now_ms`: a lower tier is touched only when
    /// every higher tier had nothing to offer, and loses its stale front jobs along
    /// with the one handed out.
    pub open spec fn after_pop(self, now_ms: u64) -> SpeechQueueView {
        let s1 = stale_prefix_len(self.p1, now_ms) as int;
        let s2 = stale_prefix_len(self.p2, now_ms) as int;
        if self.p0.len() > 0 {
            SpeechQueueView { p0: self.p0.drop_first(), ..self }
        } else if s1 < self.p1.len() {
            SpeechQueueView { p1: self.p1.subrange(s1 + 1, self.p1.len() as int), ..self }
        } else if s2 < self.p2.len() {
            SpeechQueueView {
                p1: Seq::empty(),
                p2: self.p2.subrange(s2 + 1, self.p2.len() as int),
                ..self
            }
        } else {
            SpeechQueueView { p1: Seq::empty(), p2: Seq::empty(), ..self }
        }
    }
}

/// Three first-in-first-out tiers of speech jobs, one per priority.
pub struct SpeechQueue {
    p0: VecDeque<SpeechJob>,
    p1: VecDeque<SpeechJob>,
    p2: VecDeque<SpeechJob>,
    max_p0: usize,
    max_p1: usize,
    max_p2: usize,
}

impl View for SpeechQueue {
    type V = SpeechQueueView;

    closed spec fn view(&self) -> SpeechQueueView {
        SpeechQueueView {
            p0: job_views(self.p0@),
            p1: job_views(self.p1@),
            p2: job_views(self.p2@),
            max_p0: self.max_p0,
            max_p1: self.max_p1,
            max_p2: self.max_p2,
        }
    }
}

impl SpeechQueue {
    /// An empty queue with the given tier capacities.
    pub fn new(max_p0: usize, max_p1: usize, max_p2: usize) -> (q: Self)
        ensures
            q@ == SpeechQueueView::empty(max_p0, max_p1, max_p2),
            q@.sorted_by_tier(),
    {
        let q = Self {
            p0: VecDeque::new(),
            p1: VecDeque::new(),
            p2: VecDeque::new(),
            max_p0,
            max_p1,
            max_p2,
        };
        proof {
            assert(q@.p0 =~= Seq::<SpeechJobView>::empty());
            assert(q@.p1 =~= Seq::<SpeechJobView>::empty());
            assert(q@.p2 =~= Seq::<SpeechJobView>::empty());
        }
        q
    }

    /// Appends `job` to the tier of its priority. When that tier is full, its oldest
    /// job is evicted first and returned with the reason `queue_overflow`.
    pub fn push(&mut self, job: SpeechJob) -> (dropped: Option<DroppedSpeechJob>)
        ensures
            final(self)@ == old(self)@.after_push(job@),
            match old(self)@.push_drop(job@.priority) {
                Some(d) => dropped is Some && dropped->0@ == d,
                None => dropped is None,
            },
            old(self)@.sorted_by_tier() ==> final(self)@.sorted_by_tier(),
    {
        let ghost before = old(self)@.tier(job@.priority);
        let (q, cap) = self.queue_and_cap_mut(job.priority);
        let ghost start = q@;
        let dropped = if q.len() >= cap {
            match q.pop_front() {
                Some(oldest) => {
                    proof {
                        assert(job_views(start.drop_first()) =~= before.drop_first());
                    }
                    Some(DroppedSpeechJob { job: oldest, reason: "queue_overflow" })
                },
                None => None,
            }
        } else {
            None
        };
        let ghost mid = q@;
        q.push_back(job);
        proof {
            assert(job_views(q@) =~= job_views(mid).push(job@));
        }
        dropped
    }

    /// Removes every job of the two lower tiers whose deadline lies before `now_ms`
    /// and returns them with the reason `deadline_expired`. Safety lines stay.
    pub fn drop_expired(&mut self, now_ms: u64) -> (out: Vec<DroppedSpeechJob>)
        ensures
            final(self)@ == old(self)@.after_drop_expired(now_ms),
            drop_views(out@) == drops_of(old(self)@.swept(now_ms), reason_expired()),
            forall|i: int| 0 <= i < out@.len() ==> (#[trigger] out@[i])@.job.priority != SpeechPriority::P0Safety,
            old(self)@.sorted_by_tier() ==> final(self)@.sorted_by_tier() && final(self)@.p0 == old(self)@.p0,
    {
        let mut out: Vec<DroppedSpeechJob> = Vec::new();
        proof {
            assert(drop_views(out@) =~= Seq::<DroppedSpeechJobView>::empty());
        }
        Self::drain_expired(&mut self.p0, now_ms, &mut out);
        Self::drain_expired(&mut self.p1, now_ms, &mut out);
        Self::drain_expired(&mut self.p2, now_ms, &mut out);
        proof {
            let e0 = expired_jobs(old(self)@.p0, now_ms);
            let e1 = expired_jobs(old(self)@.p1, now_ms);
            let e2 = expired_jobs(old(self)@.p2, now_ms);
            let r = reason_expired();
            assert(drop_views(out@) =~= drops_of(e0 + e1 + e2, r));
            lemma_sweep_facts(old(self)@.p0, now_ms);
            lemma_sweep_facts(old(self)@.p1, now_ms);
            lemma_sweep_facts(old(self)@.p2, now_ms);
            assert forall|i: int| 0 <= i < out@.len() implies (#[trigger] out@[i])@.job.priority
                != SpeechPriority::P0Safety by {
                assert(drop_views(out@)[i] == out@[i]@);
                let all = e0 + e1 + e2;
                assert(drops_of(all, r)[i].job == all[i]);
                if i < e0.len() {
                    assert(all[i] == e0[i]);
                } else if i < e0.len() + e1.len() {
                    assert(all[i] == e1[i - e0.len()]);
                } else {
                    assert(all[i] == e2[i - e0.len() - e1.len()]);
                }
            }
            if old(self)@.sorted_by_tier() {
                lemma_sweep_keeps_safety(old(self)@.p0, now_ms);
            }
        }
        out
    }

    /// Hands out the next job to speak: the oldest safety line if there is one, else
    /// the oldest chat reply whose deadline has not passed, else the oldest such
    /// commentary. Stale jobs met on the way are discarded.
    pub fn pop_next(&mut self, now_ms: u64) -> (job: Option<SpeechJob>)
        ensures
            match old(self)@.next_job(now_ms) {
                Some(j) => job is Some && job->0@ == j,
                None => job is None,
            },
            final(self)@ == old(self)@.after_pop(now_ms),
            old(self)@.sorted_by_tier() ==> final(self)@.sorted_by_tier(),
    {
        if let Some(job) = Self::pop_next_from_queue(&mut self.p0, now_ms, true) {
            return Some(job);
        }
        if let Some(job) = Self::pop_next_from_queue(&mut self.p1, now_ms, false) {
            return Some(job);
        }
        Self::pop_next_from_queue(&mut self.p2, now_ms, false)
    }

    fn pop_next_from_queue(queue: &mut VecDeque<SpeechJob>, now_ms: u64, never_expire: bool) -> (job: Option<SpeechJob>)
        ensures
            never_expire && old(queue)@.len() > 0 ==> job is Some && job->0@ == job_views(old(queue)@).first()
                && job_views(final(queue)@) == job_views(old(queue)@).drop_first(),
            never_expire && old(queue)@.len() == 0 ==> job is None && final(queue)@ == old(queue)@,
            !never_expire && stale_prefix_len(job_views(old(queue)@), now_ms) < old(queue)@.len() ==> job is Some
                && job->0@ == job_views(old(queue)@)[stale_prefix_len(job_views(old(queue)@), now_ms) as int]
                && job_views(final(queue)@) == job_views(old(queue)@).subrange(
                stale_prefix_len(job_views(old(queue)@), now_ms) as int + 1,
                old(queue)@.len() as int,
            ),
            !never_expire && stale_prefix_len(job_views(old(queue)@), now_ms) >= old(queue)@.len() ==> job is None
                && job_views(final(queue)@) == Seq::<SpeechJobView>::empty(),
    {
        let ghost start = job_views(queue@);
        let ghost mut skipped: int = 0;
        proof {
            assert(start.subrange(0, start.len() as int) =~= start);
        }
        loop
            invariant
                0 <= skipped <= start.len(),
                job_views(queue@) == start.subrange(skipped, start.len() as int),
                start == job_views(old(queue)@),
                never_expire ==> skipped == 0,
                stale_prefix_len(start, now_ms) == skipped + stale_prefix_len(job_views(queue@), now_ms),
            decreases queue@.len(),
        {
            let ghost here = queue@;
            match queue.pop_front() {
                Some(job) => {
                    proof {
                        let before = start.subrange(skipped, start.len() as int);
                        assert(before.first() == start[skipped]);
                        assert(job@ == job_views(here).first());
                        assert(job_views(queue@) =~= job_views(here).drop_first());
                        assert(before.drop_first() =~= start.subrange(skipped + 1, start.len() as int));
                    }
                    if never_expire || job.deadline_ms >= now_ms {
                        return Some(job);
                    }
                    proof {
                        skipped = skipped + 1;
                    }
                },
                None => {
                    proof {
                        assert(job_views(queue@) =~= Seq::<SpeechJobView>::empty());
                    }
                    return None;
                },
            }
        }
    }

    fn queue_and_cap_mut(&mut self, p: SpeechPriority) -> (r: (&mut VecDeque<SpeechJob>, usize))
        ensures
            job_views((*r.0)@) == old(self)@.tier(p),
            r.1 == old(self)@.cap(p),
            final(self)@ == old(self)@.with_tier(p, job_views((*final(r.0))@)),
    {
        match p {
            SpeechPriority::P0Safety => (&mut self.p0, self.max_p0),
            SpeechPriority::P1ChatReply => (&mut self.p1, self.max_p1),
            SpeechPriority::P2Commentary => (&mut self.p2, self.max_p2),
        }
    }

    fn drain_expired(queue: &mut VecDeque<SpeechJob>, now_ms: u64, out: &mut Vec<DroppedSpeechJob>)
        ensures
            job_views(final(queue)@) == kept_jobs(job_views(old(queue)@), now_ms),
            drop_views(final(out)@) == drop_views(old(out)@) + drops_of(
                expired_jobs(job_views(old(queue)@), now_ms),
                reason_expired(),
            ),
    {
        let ghost start = job_views(queue@);
        let ghost before = drop_views(out@);
        let ghost mut done: int = 0;
        let mut keep: VecDeque<SpeechJob> = VecDeque::new();
        proof {
            assert(start.subrange(0, 0) =~= Seq::<SpeechJobView>::empty());
            assert(start.subrange(0, start.len() as int) =~= start);
            assert(job_views(keep@) =~= Seq::<SpeechJobView>::empty());
            assert(before + drops_of(Seq::<SpeechJobView>::empty(), reason_expired()) =~= before);
        }
        loop
            invariant
                start == job_views(old(queue)@),
                before == drop_views(old(out)@),
                0 <= done <= start.len(),
                job_views(queue@) == start.subrange(done, start.len() as int),
                job_views(keep@) == kept_jobs(start.subrange(0, done), now_ms),
                drop_views(out@) == before + drops_of(expired_jobs(start.subrange(0, done), now_ms), reason_expired()),
            decreases queue@.len(),
        {
            let ghost here = queue@;
            match queue.pop_front() {
                Some(job) => {
                    proof {
                        assert(job_views(here).len() == here.len());
                        let next = start.subrange(0, done + 1);
                        assert(next.drop_last() =~= start.subrange(0, done));
                        assert(next.last() == start[done]);
                        assert(job@ == job_views(here).first());
                        assert(start.subrange(done, start.len() as int).first() == start[done]);
                        assert(job_views(queue@) =~= job_views(here).drop_first());
                        assert(start.subrange(done, start.len() as int).drop_first() =~= start.subrange(
                            done + 1,
                            start.len() as int,
                        ));
                    }
                    let never_expire = job.priority == SpeechPriority::P0Safety;
                    if !never_expire && job.deadline_ms < now_ms {
                        let ghost records = drop_views(out@);
                        let ghost gone = expired_jobs(start.subrange(0, done), now_ms);
                        out.push(DroppedSpeechJob { job, reason: "deadline_expired" });
                        proof {
                            assert(drop_views(out@) =~= records.push(out@.last()@));
                            assert(drops_of(gone.push(start[done]), reason_expired()) =~= drops_of(
                                gone,
                                reason_expired(),
                            ).push(out@.last()@));
                            assert(drop_views(out@) =~= before + drops_of(gone.push(start[done]), reason_expired()));
                        }
                    } else {
                        let ghost kept = job_views(keep@);
                        keep.push_back(job);
                        proof {
                            assert(job_views(keep@) =~= kept.push(job@));
                        }
                    }
                    proof {
                        done = done + 1;
                    }
                },
                None => {
                    proof {
                        assert(job_views(here).len() == here.len());
                        assert(start.subrange(0, done) =~= start);
                    }
                    *queue = keep;
                    return ;
                },
            }
        }
    }
}

/// A sweep discards exactly the jobs that have expired and keeps the rest.
pub proof fn lemma_sweep_facts(q: Seq<SpeechJobView>, now_ms: u64)
    ensures
        forall|i: int| 0 <= i < expired_jobs(q, now_ms).len() ==> (#[trigger] expired_jobs(q, now_ms)[i]).expired_at(now_ms),
        forall|i: int| 0 <= i < kept_jobs(q, now_ms).len() ==> !(#[trigger] kept_jobs(q, now_ms)[i]).expired_at(now_ms),
        forall|i: int| 0 <= i < kept_jobs(q, now_ms).len() ==> q.contains(#[trigger] kept_jobs(q, now_ms)[i]),
        kept_jobs(q, now_ms).len() + expired_jobs(q, now_ms).len() == q.len(),
    decreases q.len(),
{
    if q.len() > 0 {
        lemma_sweep_facts(q.drop_last(), now_ms);
        let k = kept_jobs(q, now_ms);
        assert forall|i: int| 0 <= i < k.len() implies q.contains(#[trigger] k[i]) by {
            if i < kept_jobs(q.drop_last(), now_ms).len() {
                let j = choose|j: int| 0 <= j < q.drop_last().len() && q.drop_last()[j] == k[i];
                assert(q[j] == k[i]);
            } else {
                assert(q[q.len() - 1] == k[i]);
            }
        }
    }
}

/// A sweep leaves a tier of safety lines as it was.
pub proof fn lemma_sweep_keeps_safety(q: Seq<SpeechJobView>, now_ms: u64)
    requires
        forall|i: int| 0 <= i < q.len() ==> (#[trigger] q[i]).priority == SpeechPriority::P0Safety,
    ensures
        kept_jobs(q, now_ms) == q,
        expired_jobs(q, now_ms) == Seq::<SpeechJobView>::empty(),
    decreases q.len(),
{
    if q.len() > 0 {
        lemma_sweep_keeps_safety(q.drop_last(), now_ms);
        assert(q.drop_last().push(q.last()) =~= q);
    } else {
        assert(q =~= Seq::<SpeechJobView>::empty());
    }
}

/// No safety line is ever swept for having missed its deadline, however late it
/// is: what a sweep discards never holds one, and the tier of safety lines of a
/// queue whose jobs sit in their own tiers is left as it was.
pub proof fn lemma_safety_never_expires(q: SpeechQueueView, now_ms: u64)
    ensures
        forall|i: int|
            0 <= i < q.swept(now_ms).len() ==> (#[trigger] q.swept(now_ms)[i]).priority != SpeechPriority::P0Safety,
        q.sorted_by_tier() ==> q.after_drop_expired(now_ms).p0 == q.p0,
{
    lemma_sweep_facts(q.p0, now_ms);
    lemma_sweep_facts(q.p1, now_ms);
    lemma_sweep_facts(q.p2, now_ms);
    let e0 = expired_jobs(q.p0, now_ms);
    let e1 = expired_jobs(q.p1, now_ms);
    let e2 = expired_jobs(q.p2, now_ms);
    let all = q.swept(now_ms);
    assert forall|i: int| 0 <= i < all.len() implies (#[trigger] all[i]).priority != SpeechPriority::P0Safety by {
        if i < e0.len() {
            assert(all[i] == e0[i]);
        } else if i < e0.len() + e1.len() {
            assert(all[i] == e1[i - e0.len()]);
        } else {
            assert(all[i] == e2[i - e0.len() - e1.len()]);
        }
    }
    if q.sorted_by_tier() {
        lemma_sweep_keeps_safety(q.p0, now_ms);
    }
}

/// Priority is absolute: while a safety line waits, it is the oldest safety line that
/// is handed out next, whatever the lower tiers hold and whatever the time, and the
/// lower tiers are left as they were.
pub proof fn lemma_safety_preempts(q: SpeechQueueView, now_ms: u64)
    requires
        q.p0.len() > 0,
    ensures
        q.next_job(now_ms) == Some(q.p0.first()),
        q.after_pop(now_ms).p0 == q.p0.drop_first(),
        q.after_pop(now_ms).p1 == q.p1,
        q.after_pop(now_ms).p2 == q.p2,
{
}

/// Jobs of one tier leave in the order in which they came: a job pushed onto a tier
/// that is not full goes behind all that wait there.
pub proof fn lemma_push_keeps_order(q: SpeechQueueView, job: SpeechJobView)
    requires
        !q.push_evicts(job.priority),
    ensures
        q.after_push(job).tier(job.priority) == q.tier(job.priority).push(job),
        forall|p: SpeechPriority| p != job.priority ==> q.after_push(job).tier(p) == q.tier(p),
{
}

} // verus!
