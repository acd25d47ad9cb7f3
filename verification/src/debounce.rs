//! The debouncer: rate-limits raw filesystem notifications into isolated
//! change triggers. Only modification-class events are considered, and an
//! event is forwarded only when at least the suppression window has elapsed
//! since the last forwarded event; events inside the window are dropped, not
//! queued, so the watch backend's callback never blocks.

use vstd::prelude::*;

verus! {

/// The class of a raw filesystem notification, as the watch backend reports
/// it.
#[derive(Debug, Clone, Copy, PartialEq, Eq)]
pub enum ChangeKind {
    Create,
    Modify,
    Remove,
    Other,
}

/// The rate limiter behind the watch callback: the suppression window and
/// the time of the last forwarded event, if any.
#[derive(Debug, Clone, Copy, PartialEq, Eq)]
pub struct Debouncer {
    pub window_ms: u64,
    pub last_forwarded: Option<u64>,
}

impl Debouncer {
    /// Whether an event of this kind, observed now, is forwarded: it must be
    /// a modification, and at least the window must have passed since the
    /// last forwarded event.
    pub open spec fn spec_forwards(self, kind: ChangeKind, now_ms: u64) -> bool {
        &&& kind is Modify
        &&& match self.last_forwarded {
            None => true,
            Some(t) => now_ms >= t + self.window_ms,
        }
    }

    /// The state after observing an event: a forwarded event re-arms the
    /// window from its own time; a dropped one leaves the state unchanged.
    pub open spec fn spec_after(self, kind: ChangeKind, now_ms: u64) -> Debouncer {
        if self.spec_forwards(kind, now_ms) {
            Debouncer { window_ms: self.window_ms, last_forwarded: Some(now_ms) }
        } else {
            self
        }
    }

    /// A fresh debouncer forwards the first modification it sees.
    pub fn new(window_ms: u64) -> (r: Debouncer)
        ensures
            r.window_ms == window_ms,
            r.last_forwarded is None,
    {
        Debouncer { window_ms, last_forwarded: None }
    }

    /// Observes one raw event and decides whether to forward it.
    pub fn observe(&mut self, kind: ChangeKind, now_ms: u64) -> (forwarded: bool)
        ensures
            forwarded == old(self).spec_forwards(kind, now_ms),
            *final(self) == old(self).spec_after(kind, now_ms),
    {
        let is_modify = match kind {
            ChangeKind::Modify => true,
            _ => false,
        };
        let window_open = match self.last_forwarded {
            None => true,
            Some(t) => now_ms >= t && now_ms - t >= self.window_ms,
        };
        if is_modify && window_open {
            self.last_forwarded = Some(now_ms);
            true
        } else {
            false
        }
    }
}

/// How many events of a burst are forwarded, replaying the burst in order
/// from a given state.
pub open spec fn forwarded_count(d: Debouncer, kinds: Seq<ChangeKind>, times: Seq<u64>) -> nat
    recommends
        kinds.len() == times.len(),
    decreases times.len(),
{
    if times.len() == 0 {
        0
    } else {
        let fwd: nat = if d.spec_forwards(kinds[0], times[0]) {
            1
        } else {
            0
        };
        fwd + forwarded_count(d.spec_after(kinds[0], times[0]), kinds.drop_first(),
            times.drop_first())
    }
}

/// While every event of a burst falls inside the window armed at time `t`,
/// nothing is forwarded and the window stays armed at `t`.
pub proof fn lemma_window_suppresses_all(d: Debouncer, kinds: Seq<ChangeKind>, times: Seq<u64>)
    requires
        kinds.len() == times.len(),
        d.last_forwarded matches Some(t) && forall|i: int|
            0 <= i < times.len() ==> #[trigger] times[i] < t + d.window_ms,
    ensures
        forwarded_count(d, kinds, times) == 0,
    decreases times.len(),
{
    if times.len() > 0 {
        assert(!d.spec_forwards(kinds[0], times[0]));
        lemma_window_suppresses_all(d, kinds.drop_first(), times.drop_first());
    }
}

/// Debounce law: a burst of raw events that all arrive within one
/// suppression window of the first forwards at most one trigger, from any
/// starting state.
pub proof fn lemma_burst_forwards_at_most_one(d: Debouncer, kinds: Seq<ChangeKind>, times: Seq<
    u64,
>)
    requires
        kinds.len() == times.len(),
        times.len() > 0,
        forall|i: int, j: int| 0 <= i <= j < times.len() ==> #[trigger] times[i] <= #[trigger] times[j],
        forall|i: int| 0 <= i < times.len() ==> #[trigger] times[i] < times[0] + d.window_ms,
    ensures
        forwarded_count(d, kinds, times) <= 1,
    decreases times.len(),
{
    let d2 = d.spec_after(kinds[0], times[0]);
    if d.spec_forwards(kinds[0], times[0]) {
        assert(d2.last_forwarded == Some(times[0]));
        assert(forall|i: int|
            0 <= i < times.drop_first().len() ==> #[trigger] times.drop_first()[i] < times[0]
                + d2.window_ms);
        lemma_window_suppresses_all(d2, kinds.drop_first(), times.drop_first());
    } else {
        if times.len() > 1 {
            assert(forall|i: int, j: int|
                0 <= i <= j < times.drop_first().len() ==> #[trigger] times.drop_first()[i]
                    <= #[trigger] times.drop_first()[j]);
            assert(forall|i: int|
                0 <= i < times.drop_first().len() ==> #[trigger] times.drop_first()[i]
                    < times.drop_first()[0] + d2.window_ms);
            lemma_burst_forwards_at_most_one(d2, kinds.drop_first(), times.drop_first());
        } else {
            assert(times.drop_first().len() == 0);
            assert(forwarded_count(d2, kinds.drop_first(), times.drop_first()) == 0);
        }
    }
}

/// Re-arming law: once the window armed at `t` has fully elapsed, the next
/// modification event is forwarded again.
pub proof fn lemma_window_rearms(d: Debouncer, now_ms: u64)
    requires
        d.last_forwarded matches Some(t) && now_ms >= t + d.window_ms,
    ensures
        d.spec_forwards(ChangeKind::Modify, now_ms),
{
}

} // verus!
