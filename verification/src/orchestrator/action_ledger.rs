//! A table of the actions in flight, each with a deadline for its acknowledgement and
//! one for its result.

use crate::text::str_eq;
use crate::time::saturating_sum;
use vstd::prelude::*;

verus! {

/// Which of an action's two deadlines passed.
#[derive(Clone, Copy, Debug, PartialEq, Eq, Structural)]
pub enum TimeoutKind {
    Ack,
    Result,
}

/// Notice that an action in flight missed a deadline.
#[derive(Debug)]
pub struct TimeoutEvent {
    pub request_id: String,
    pub kind: TimeoutKind,
}

/// The mathematical value of a `TimeoutEvent`.
pub struct TimeoutEventView {
    pub request_id: Seq<char>,
    pub kind: TimeoutKind,
}

impl View for TimeoutEvent {
    type V = TimeoutEventView;

    open spec fn view(&self) -> TimeoutEventView {
        TimeoutEventView { request_id: self.request_id@, kind: self.kind }
    }
}

impl Clone for TimeoutEvent {
    fn clone(&self) -> (r: Self)
        ensures
            r@ == self@,
    {
        TimeoutEvent { request_id: self.request_id.clone(), kind: self.kind }
    }
}

struct InflightAction {
    request_id: String,
    ack_deadline_ms: u64,
    result_deadline_ms: u64,
    acked: bool,
}

/// What the ledger knows of one action in flight.
pub struct Inflight {
    pub request_id: Seq<char>,
    pub ack_deadline_ms: u64,
    pub result_deadline_ms: u64,
    pub acked: bool,
}

impl View for InflightAction {
    type V = Inflight;

    closed spec fn view(&self) -> Inflight {
        Inflight {
            request_id: self.request_id@,
            ack_deadline_ms: self.ack_deadline_ms,
            result_deadline_ms: self.result_deadline_ms,
            acked: self.acked,
        }
    }
}

impl Inflight {
    /// The deadline this entry has missed at `now_ms`, if any. Until the action is
    /// acknowledged the acknowledgement deadline is looked at first; once it is, only
    /// the result deadline applies.
    pub open spec fn timeout_at(self, now_ms: u64) -> Option<TimeoutKind> {
        if !self.acked && now_ms >= self.ack_deadline_ms {
            Some(TimeoutKind::Ack)
        } else if now_ms >= self.result_deadline_ms {
            Some(TimeoutKind::Result)
        } else {
            None
        }
    }
}

/// The index of the entry for `id`, or the number of entries when there is none.
pub open spec fn position(entries: Seq<Inflight>, id: Seq<char>) -> int
    decreases entries.len(),
{
    if entries.len() == 0 || entries.first().request_id == id {
        0
    } else {
        1 + position(entries.drop_first(), id)
    }
}

/// Whether some entry is filed under `id`.
pub open spec fn tracks(entries: Seq<Inflight>, id: Seq<char>) -> bool {
    position(entries, id) < entries.len()
}

/// No two entries share a request id.
pub open spec fn distinct_ids(entries: Seq<Inflight>) -> bool {
    forall|i: int, j: int|
        0 <= i < j < entries.len() ==> (#[trigger] entries[i]).request_id != (#[trigger] entries[j]).request_id
}

/// The entries without the one for `id`.
pub open spec fn without(entries: Seq<Inflight>, id: Seq<char>) -> Seq<Inflight> {
    if tracks(entries, id) {
        entries.remove(position(entries, id))
    } else {
        entries
    }
}

/// The entries after an action `id` was sent at `now_ms`: a fresh, unacknowledged
/// entry takes the place of an earlier one for the same id, or is added at the end.
pub open spec fn after_sent(
    entries: Seq<Inflight>,
    id: Seq<char>,
    now_ms: u64,
    ack_timeout_ms: u64,
    result_timeout_ms: u64,
) -> Seq<Inflight> {
    let fresh = Inflight {
        request_id: id,
        ack_deadline_ms: saturating_sum(now_ms, ack_timeout_ms),
        result_deadline_ms: saturating_sum(now_ms, result_timeout_ms),
        acked: false,
    };
    if tracks(entries, id) {
        entries.update(position(entries, id), fresh)
    } else {
        entries.push(fresh)
    }
}

/// The entries after an acknowledgement for `id`: a rejection ends the action, an
/// acceptance marks it acknowledged.
pub open spec fn after_ack(entries: Seq<Inflight>, id: Seq<char>, accepted: bool) -> Seq<Inflight> {
    if !accepted {
        without(entries, id)
    } else if tracks(entries, id) {
        let p = position(entries, id);
        entries.update(p, Inflight { acked: true, ..entries[p] })
    } else {
        entries
    }
}

/// The entries that have missed no deadline at `now_ms`, in order.
pub open spec fn surviving(entries: Seq<Inflight>, now_ms: u64) -> Seq<Inflight>
    decreases entries.len(),
{
    if entries.len() == 0 {
        Seq::empty()
    } else if entries.last().timeout_at(now_ms) is Some {
        surviving(entries.drop_last(), now_ms)
    } else {
        surviving(entries.drop_last(), now_ms).push(entries.last())
    }
}

/// One event for each entry that has missed a deadline at `now_ms`, in order.
pub open spec fn timeouts(entries: Seq<Inflight>, now_ms: u64) -> Seq<TimeoutEventView>
    decreases entries.len(),
{
    if entries.len() == 0 {
        Seq::empty()
    } else {
        match entries.last().timeout_at(now_ms) {
            Some(kind) => timeouts(entries.drop_last(), now_ms).push(
                TimeoutEventView { request_id: entries.last().request_id, kind },
            ),
            None => timeouts(entries.drop_last(), now_ms),
        }
    }
}

/// The views of the given events.
pub open spec fn event_views(events: Seq<TimeoutEvent>) -> Seq<TimeoutEventView> {
    events.map_values(|e: TimeoutEvent| e@)
}

/// `position` finds the first entry filed under `id`.
pub proof fn lemma_position(entries: Seq<Inflight>, id: Seq<char>)
    ensures
        0 <= position(entries, id) <= entries.len(),
        tracks(entries, id) ==> entries[position(entries, id)].request_id == id,
        forall|j: int| 0 <= j < position(entries, id) ==> (#[trigger] entries[j]).request_id != id,
    decreases entries.len(),
{
    if entries.len() > 0 && entries.first().request_id != id {
        let rest = entries.drop_first();
        lemma_position(rest, id);
        assert forall|j: int| 0 <= j < position(entries, id) implies (#[trigger] entries[j]).request_id != id by {
            if j > 0 {
                assert(rest[j - 1] == entries[j]);
            }
        }
    }
}

/// The first index that holds `id`, with none before it, is its position.
pub proof fn lemma_position_is(entries: Seq<Inflight>, id: Seq<char>, at: int)
    requires
        0 <= at <= entries.len(),
        forall|j: int| 0 <= j < at ==> (#[trigger] entries[j]).request_id != id,
        at < entries.len() ==> entries[at].request_id == id,
    ensures
        position(entries, id) == at,
    decreases entries.len(),
{
    if entries.len() > 0 && at > 0 {
        assert(entries[0].request_id != id);
        let rest = entries.drop_first();
        assert forall|j: int| 0 <= j < at - 1 implies (#[trigger] rest[j]).request_id != id by {
            assert(rest[j] == entries[j + 1]);
        }
        lemma_position_is(rest, id, at - 1);
    }
}

/// Every survivor of a poll is an entry from before it, and survivors of a ledger
/// with distinct ids have distinct ids.
pub proof fn lemma_surviving(entries: Seq<Inflight>, now_ms: u64)
    ensures
        forall|k: int|
            0 <= k < surviving(entries, now_ms).len() ==> entries.contains(#[trigger] surviving(entries, now_ms)[k])
                && surviving(entries, now_ms)[k].timeout_at(now_ms) is None,
        distinct_ids(entries) ==> distinct_ids(surviving(entries, now_ms)),
        surviving(entries, now_ms).len() + timeouts(entries, now_ms).len() == entries.len(),
    decreases entries.len(),
{
    if entries.len() > 0 {
        let rest = entries.drop_last();
        let s = surviving(entries, now_ms);
        let sr = surviving(rest, now_ms);
        lemma_surviving(rest, now_ms);
        assert forall|k: int| 0 <= k < s.len() implies entries.contains(#[trigger] s[k]) && s[k].timeout_at(now_ms) is None by {
            if k < sr.len() {
                let i = choose|i: int| 0 <= i < rest.len() && rest[i] == sr[k];
                assert(entries[i] == s[k]);
            } else {
                assert(entries[entries.len() - 1] == s[k]);
            }
        }
        if distinct_ids(entries) {
            assert forall|i: int, j: int| 0 <= i < j < rest.len() implies (#[trigger] rest[i]).request_id != (
            #[trigger] rest[j]).request_id by {
                assert(rest[i] == entries[i] && rest[j] == entries[j]);
            }
            assert forall|a: int, b: int| 0 <= a < b < s.len() implies (#[trigger] s[a]).request_id != (
            #[trigger] s[b]).request_id by {
                if b >= sr.len() {
                    let i = choose|i: int| 0 <= i < rest.len() && rest[i] == sr[a];
                    assert(entries[i] == s[a]);
                    assert(entries[entries.len() - 1] == s[b]);
                } else {
                    assert(sr[a] == s[a] && sr[b] == s[b]);
                }
            }
        }
    }
}

/// The ledger of actions awaiting acknowledgement or result.
pub struct ActionLedger {
    inflight: Vec<InflightAction>,
}

impl View for ActionLedger {
    type V = Seq<Inflight>;

    closed spec fn view(&self) -> Seq<Inflight> {
        self.inflight@.map_values(|e: InflightAction| e@)
    }
}

impl ActionLedger {
    /// A ledger with no action in flight.
    pub fn new() -> (ledger: Self)
        ensures
            ledger@ == Seq::<Inflight>::empty(),
            distinct_ids(ledger@),
    {
        let ledger = Self { inflight: Vec::new() };
        proof {
            assert(ledger@ =~= Seq::<Inflight>::empty());
        }
        ledger
    }

    fn find(&self, request_id: &str) -> (at: usize)
        ensures
            at == position(self@, request_id@),
            at <= self.inflight@.len(),
            self@.len() == self.inflight@.len(),
    {
        let n: usize = self.inflight.len();
        let mut i: usize = 0;
        while i < n
            invariant
                n == self.inflight@.len(),
                i <= n,
                forall|j: int| 0 <= j < i ==> (#[trigger] self@[j]).request_id != request_id@,
            decreases n - i,
        {
            if str_eq(self.inflight[i].request_id.as_str(), request_id) {
                proof {
                    lemma_position_is(self@, request_id@, i as int);
                }
                return i;
            }
            i += 1;
        }
        proof {
            lemma_position_is(self@, request_id@, n as int);
        }
        n
    }

    /// Records that the action `request_id` was sent at `now_ms`, with the given
    /// allowances for its acknowledgement and its result.
    pub fn on_sent(&mut self, request_id: String, now_ms: u64, ack_timeout_ms: u64, result_timeout_ms: u64)
        ensures
            final(self)@ == after_sent(old(self)@, request_id@, now_ms, ack_timeout_ms, result_timeout_ms),
            distinct_ids(old(self)@) ==> distinct_ids(final(self)@),
    {
        let at = self.find(request_id.as_str());
        let ghost id = request_id@;
        let fresh = InflightAction {
            request_id,
            ack_deadline_ms: now_ms.saturating_add(ack_timeout_ms),
            result_deadline_ms: now_ms.saturating_add(result_timeout_ms),
            acked: false,
        };
        proof {
            lemma_position(old(self)@, id);
        }
        if at < self.inflight.len() {
            self.inflight.set(at, fresh);
            proof {
                assert(self@ =~= old(self)@.update(at as int, fresh@));
            }
        } else {
            self.inflight.push(fresh);
            proof {
                assert(self@ =~= old(self)@.push(fresh@));
            }
        }
    }

    /// Takes note of an acknowledgement: a rejected action leaves the ledger, an
    /// accepted one is from now on held to its result deadline only.
    pub fn on_ack(&mut self, request_id: &str, accepted: bool)
        ensures
            final(self)@ == after_ack(old(self)@, request_id@, accepted),
            distinct_ids(old(self)@) ==> distinct_ids(final(self)@),
    {
        if !accepted {
            self.on_result(request_id);
            return ;
        }
        let at = self.find(request_id);
        if at < self.inflight.len() {
            let entry = &self.inflight[at];
            let marked = InflightAction {
                request_id: entry.request_id.clone(),
                ack_deadline_ms: entry.ack_deadline_ms,
                result_deadline_ms: entry.result_deadline_ms,
                acked: true,
            };
            self.inflight.set(at, marked);
            proof {
                assert(self@ =~= old(self)@.update(at as int, marked@));
            }
        }
    }

    /// Takes note of a result: the action leaves the ledger.
    pub fn on_result(&mut self, request_id: &str)
        ensures
            final(self)@ == without(old(self)@, request_id@),
            distinct_ids(old(self)@) ==> distinct_ids(final(self)@),
    {
        let at = self.find(request_id);
        if at < self.inflight.len() {
            let _ = self.inflight.remove(at);
            proof {
                assert(self@ =~= old(self)@.remove(at as int));
            }
        }
    }

    /// Reports every action that has missed a deadline at `now_ms` and forgets it.
    /// Each entry yields at most one event: a missing acknowledgement is reported in
    /// preference to a missing result.
    pub fn poll_timeouts(&mut self, now_ms: u64) -> (events: Vec<TimeoutEvent>)
        ensures
            event_views(events@) == timeouts(old(self)@, now_ms),
            final(self)@ == surviving(old(self)@, now_ms),
            distinct_ids(old(self)@) ==> distinct_ids(final(self)@),
    {
        let mut timed_out: Vec<TimeoutEvent> = Vec::new();
        let mut keep: Vec<InflightAction> = Vec::new();
        let n: usize = self.inflight.len();
        let mut i: usize = 0;
        proof {
            assert(self@.subrange(0, 0) =~= Seq::<Inflight>::empty());
            assert(event_views(timed_out@) =~= Seq::<TimeoutEventView>::empty());
            assert(keep@.map_values(|e: InflightAction| e@) =~= Seq::<Inflight>::empty());
        }
        while i < n
            invariant
                n == self.inflight@.len(),
                self@ == old(self)@,
                i <= n,
                event_views(timed_out@) == timeouts(self@.subrange(0, i as int), now_ms),
                keep@.map_values(|e: InflightAction| e@) == surviving(self@.subrange(0, i as int), now_ms),
            decreases n - i,
        {
            let entry = &self.inflight[i];
            proof {
                let next = self@.subrange(0, i as int + 1);
                assert(next.drop_last() =~= self@.subrange(0, i as int));
                assert(next.last() == entry@);
            }
            let ghost events_before = timed_out@;
            let ghost keep_before = keep@;
            if !entry.acked && now_ms >= entry.ack_deadline_ms {
                timed_out.push(TimeoutEvent { request_id: entry.request_id.clone(), kind: TimeoutKind::Ack });
                proof {
                    assert(event_views(timed_out@) =~= event_views(events_before).push(timed_out@.last()@));
                }
            } else if now_ms >= entry.result_deadline_ms {
                timed_out.push(TimeoutEvent { request_id: entry.request_id.clone(), kind: TimeoutKind::Result });
                proof {
                    assert(event_views(timed_out@) =~= event_views(events_before).push(timed_out@.last()@));
                }
            } else {
                keep.push(
                    InflightAction {
                        request_id: entry.request_id.clone(),
                        ack_deadline_ms: entry.ack_deadline_ms,
                        result_deadline_ms: entry.result_deadline_ms,
                        acked: entry.acked,
                    },
                );
                proof {
                    assert(keep@.map_values(|e: InflightAction| e@) =~= keep_before.map_values(
                        |e: InflightAction| e@,
                    ).push(keep@.last()@));
                }
            }
            i += 1;
        }
        proof {
            assert(self@.subrange(0, n as int) =~= self@);
            lemma_surviving(old(self)@, now_ms);
        }
        self.inflight = keep;
        timed_out
    }
}

} // verus!
