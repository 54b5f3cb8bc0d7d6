//! Event filtering and debouncing for the change watcher.
//!
//! The watcher observes the directory that contains the target file and is
//! handed raw filesystem events. Two independent decisions turn a raw event
//! into a change notification: the event's kind must signal new readable
//! content (a modification or a creation), and enough time must have passed
//! since the last accepted event. The debounce clock keeps the time of the
//! last *accepted* event, not of the last raw event, so a sustained burst
//! cannot starve acceptance forever.

use vstd::prelude::*;

verus! {

/// Minimum elapsed milliseconds between two accepted events.
pub const DEBOUNCE_WINDOW_MS: u64 = 100;

/// The kind of a raw filesystem event, as far as the watcher cares.
#[derive(Clone, Copy, Debug, PartialEq, Eq, Structural)]
pub enum EventClass {
    /// An entry was created.
    Create,
    /// An entry's content was modified.
    Modify,
    /// An entry was renamed.
    Rename,
    /// An entry was removed.
    Remove,
    /// Only metadata changed.
    Metadata,
    /// An entry was accessed without change.
    Access,
    /// Anything else the monitor reports.
    Other,
}

/// A raw event as delivered by the monitor: its kind and the time of its
/// delivery on a monotonic millisecond clock.
#[derive(Clone, Copy, Debug, PartialEq, Eq, Structural)]
pub struct RawEvent {
    pub kind: EventClass,
    pub at_ms: u64,
}

/// Whether an event kind is a reliable signal of new readable content:
/// exactly modifications and creations are. Renames, removals, metadata
/// changes and accesses are not and must never cause a reload.
pub open spec fn is_relevant(kind: EventClass) -> bool {
    kind == EventClass::Modify || kind == EventClass::Create
}

/// The kind filter as an executable decision.
pub fn classify_event(kind: EventClass) -> (r: bool)
    ensures
        r == is_relevant(kind),
{
    match kind {
        EventClass::Modify => true,
        EventClass::Create => true,
        _ => false,
    }
}

/// The time of the last accepted event, if any event has been accepted
/// yet. Starting with no time at all guarantees that the first relevant
/// event is always accepted.
pub struct DebounceClock {
    pub last_accepted_ms: Option<u64>,
}

impl DebounceClock {
    /// The clock can be consulted at `now_ms` only if time has not run
    /// backwards past the last acceptance; delivery times come from one
    /// monotonic clock.
    pub open spec fn consistent_at(self, now_ms: u64) -> bool {
        self.last_accepted_ms matches Some(t) ==> t <= now_ms
    }

    /// Whether the debounce window has elapsed at `now_ms`: it has when
    /// nothing was accepted yet, or when at least [`DEBOUNCE_WINDOW_MS`]
    /// milliseconds have passed since the last acceptance.
    pub open spec fn window_elapsed(self, now_ms: u64) -> bool {
        match self.last_accepted_ms {
            None => true,
            Some(t) => now_ms - t >= DEBOUNCE_WINDOW_MS,
        }
    }

    /// A fresh clock that will accept the first relevant event.
    pub fn new() -> (r: DebounceClock)
        ensures
            r.last_accepted_ms is None,
    {
        DebounceClock { last_accepted_ms: None }
    }

    /// The combined decision for one raw event: accept exactly when the
    /// kind is relevant and the debounce window has elapsed, and then move
    /// the clock to the event's time; leave the clock untouched otherwise.
    pub fn observe(&mut self, kind: EventClass, now_ms: u64) -> (accepted: bool)
        requires
            old(self).consistent_at(now_ms),
        ensures
            accepted == (is_relevant(kind) && old(self).window_elapsed(now_ms)),
            accepted ==> final(self).last_accepted_ms == Some(now_ms),
            !accepted ==> *final(self) == *old(self),
    {
        if !classify_event(kind) {
            return false;
        }
        match self.last_accepted_ms {
            None => {
                self.last_accepted_ms = Some(now_ms);
                true
            },
            Some(t) => {
                if now_ms - t >= DEBOUNCE_WINDOW_MS {
                    self.last_accepted_ms = Some(now_ms);
                    true
                } else {
                    false
                }
            },
        }
    }

    /// The decision the event-delivery callback takes for one delivery.
    /// A failed delivery (`None`) is dropped without touching the clock;
    /// the watcher stays alive. A delivered event goes through the kind
    /// filter and the debounce window; the result says whether the target
    /// file must be re-read and its content emitted.
    pub fn should_reload(&mut self, delivery: Option<RawEvent>) -> (reload: bool)
        requires
            old(self).consistent_at_delivery(delivery),
        ensures
            match delivery {
                Some(e) => {
                    &&& reload == (is_relevant(e.kind) && old(self).window_elapsed(e.at_ms))
                    &&& reload ==> final(self).last_accepted_ms == Some(e.at_ms)
                    &&& !reload ==> final(self).last_accepted_ms == old(self).last_accepted_ms
                },
                None => !reload && final(self).last_accepted_ms == old(self).last_accepted_ms,
            },
    {
        match delivery {
            Some(e) => self.observe(e.kind, e.at_ms),
            None => false,
        }
    }

    /// The clock consistency demand lifted over an optional delivery.
    pub open spec fn consistent_at_delivery(self, delivery: Option<RawEvent>) -> bool {
        delivery matches Some(e) ==> self.consistent_at(e.at_ms)
    }
}

/// Events are handed over in delivery order: their times never decrease.
pub open spec fn delivered_in_order(events: Seq<RawEvent>) -> bool {
    forall|i: int, j: int| 0 <= i <= j < events.len() ==> events[i].at_ms <= events[j].at_ms
}

/// The times of the events a clock in the given state accepts out of a
/// delivery sequence, in order.
pub open spec fn accepted_times(clock: DebounceClock, events: Seq<RawEvent>) -> Seq<u64>
    decreases events.len(),
{
    if events.len() == 0 {
        Seq::empty()
    } else {
        let e = events[0];
        let rest = events.subrange(1, events.len() as int);
        if is_relevant(e.kind) && clock.window_elapsed(e.at_ms) {
            seq![e.at_ms] + accepted_times(DebounceClock { last_accepted_ms: Some(e.at_ms) }, rest)
        } else {
            accepted_times(clock, rest)
        }
    }
}

/// Runs the filter-and-debounce decision over a whole delivery sequence,
/// starting from a fresh clock, and returns the times of the events that
/// were accepted — one per emitted notification.
pub fn run_session(events: &Vec<RawEvent>) -> (accepted: Vec<u64>)
    requires
        delivered_in_order(events@),
    ensures
        accepted@ == accepted_times(DebounceClock { last_accepted_ms: None }, events@),
{
    let mut clock = DebounceClock::new();
    let mut accepted: Vec<u64> = Vec::new();
    let n: usize = events.len();
    proof {
        assert(events@.subrange(0, n as int) =~= events@);
        assert(accepted@ + accepted_times(clock, events@) =~= accepted_times(clock, events@));
    }
    for i in 0..n
        invariant
            n == events@.len(),
            delivered_in_order(events@),
            clock.last_accepted_ms matches Some(t) ==> ((i < n && t <= events@[i as int].at_ms) || i
                == n),
            accepted_times(DebounceClock { last_accepted_ms: None }, events@) == accepted@
                + accepted_times(clock, events@.subrange(i as int, n as int)),
    {
        let e = events[i];
        let ghost pre_acc = accepted@;
        let ghost pre_clock = clock;
        let ghost tail = events@.subrange(i as int, n as int);
        proof {
            assert(tail[0] == events@[i as int]);
            assert(tail.subrange(1, tail.len() as int) =~= events@.subrange(i as int + 1, n as int));
        }
        if clock.observe(e.kind, e.at_ms) {
            accepted.push(e.at_ms);
            proof {
                let rest = accepted_times(
                    DebounceClock { last_accepted_ms: Some(e.at_ms) },
                    events@.subrange(i as int + 1, n as int),
                );
                assert(accepted_times(pre_clock, tail) == seq![e.at_ms] + rest);
                assert(pre_acc + (seq![e.at_ms] + rest) =~= accepted@ + rest);
            }
        } else {
            proof {
                assert(accepted_times(pre_clock, tail) == accepted_times(
                    clock,
                    events@.subrange(i as int + 1, n as int),
                ));
            }
        }
        proof {
            if i + 1 < n {
                assert(events@[i as int].at_ms <= events@[i as int + 1].at_ms);
            }
        }
    }
    proof {
        assert(events@.subrange(n as int, n as int) =~= Seq::<RawEvent>::empty());
    }
    accepted
}

/// Law: a fresh clock accepts the first relevant event, whenever it
/// arrives — the clock starts older than any debounce window.
pub proof fn lemma_first_event_accepted(e: RawEvent)
    requires
        is_relevant(e.kind),
    ensures
        accepted_times(DebounceClock { last_accepted_ms: None }, seq![e]) == seq![e.at_ms],
{
    let after = DebounceClock { last_accepted_ms: Some(e.at_ms) };
    assert(seq![e].subrange(1, 1) =~= Seq::<RawEvent>::empty());
    assert(accepted_times(after, Seq::<RawEvent>::empty()) == Seq::<u64>::empty());
    assert(accepted_times(DebounceClock { last_accepted_ms: None }, seq![e]) =~= seq![e.at_ms]);
}

/// Law: two relevant events delivered less than the debounce window apart
/// yield exactly one notification, at the first event's time.
pub proof fn lemma_close_pair_one_notification(e1: RawEvent, e2: RawEvent)
    requires
        is_relevant(e1.kind),
        is_relevant(e2.kind),
        e1.at_ms <= e2.at_ms,
        e2.at_ms - e1.at_ms < DEBOUNCE_WINDOW_MS,
    ensures
        accepted_times(DebounceClock { last_accepted_ms: None }, seq![e1, e2]) == seq![e1.at_ms],
{
    let evs = seq![e1, e2];
    let mid = DebounceClock { last_accepted_ms: Some(e1.at_ms) };
    assert(evs.subrange(1, 2) =~= seq![e2]);
    assert(seq![e2].subrange(1, 1) =~= Seq::<RawEvent>::empty());
    assert(!mid.window_elapsed(e2.at_ms));
    assert(accepted_times(mid, Seq::<RawEvent>::empty()) == Seq::<u64>::empty());
    assert(accepted_times(mid, seq![e2]) == Seq::<u64>::empty());
    assert(accepted_times(DebounceClock { last_accepted_ms: None }, evs) =~= seq![e1.at_ms]);
}

/// Law: two relevant events delivered at least the debounce window apart
/// yield two notifications, one at each event's time.
pub proof fn lemma_spaced_pair_two_notifications(e1: RawEvent, e2: RawEvent)
    requires
        is_relevant(e1.kind),
        is_relevant(e2.kind),
        e1.at_ms <= e2.at_ms,
        e2.at_ms - e1.at_ms >= DEBOUNCE_WINDOW_MS,
    ensures
        accepted_times(DebounceClock { last_accepted_ms: None }, seq![e1, e2]) == seq![
            e1.at_ms,
            e2.at_ms,
        ],
{
    let evs = seq![e1, e2];
    let mid = DebounceClock { last_accepted_ms: Some(e1.at_ms) };
    assert(evs.subrange(1, 2) =~= seq![e2]);
    assert(seq![e2].subrange(1, 1) =~= Seq::<RawEvent>::empty());
    assert(mid.window_elapsed(e2.at_ms));
    let after = DebounceClock { last_accepted_ms: Some(e2.at_ms) };
    assert(accepted_times(after, Seq::<RawEvent>::empty()) == Seq::<u64>::empty());
    assert(accepted_times(mid, seq![e2]) == seq![e2.at_ms] + Seq::<u64>::empty());
    assert(accepted_times(DebounceClock { last_accepted_ms: None }, evs) =~= seq![
        e1.at_ms,
        e2.at_ms,
    ]);
}

/// Law: an event whose kind is neither a modification nor a creation never
/// contributes a notification, regardless of its timing: dropping it from
/// a delivery sequence, wherever it stands, leaves the accepted times
/// unchanged.
pub proof fn lemma_irrelevant_event_inert(clock: DebounceClock, events: Seq<RawEvent>, i: int)
    requires
        0 <= i < events.len(),
        !is_relevant(events[i].kind),
    ensures
        accepted_times(clock, events) == accepted_times(clock, events.remove(i)),
    decreases events.len(),
{
    let tail = events.subrange(1, events.len() as int);
    if i == 0 {
        assert(events.remove(0) =~= tail);
    } else {
        let shorter = events.remove(i);
        assert(shorter[0] == events[0]);
        assert(shorter.subrange(1, shorter.len() as int) =~= tail.remove(i - 1));
        assert(tail[i - 1] == events[i]);
        let e = events[0];
        if is_relevant(e.kind) && clock.window_elapsed(e.at_ms) {
            lemma_irrelevant_event_inert(
                DebounceClock { last_accepted_ms: Some(e.at_ms) },
                tail,
                i - 1,
            );
        } else {
            lemma_irrelevant_event_inert(clock, tail, i - 1);
        }
    }
}

/// Law: notifications are at least the debounce window apart — of any two
/// accepted times the later lies a full window after the earlier, and when
/// the clock already holds a last-accepted time, every accepted time lies
/// a full window after that as well. So at most one event is accepted per
/// debounce window.
pub proof fn lemma_notifications_spaced(clock: DebounceClock, events: Seq<RawEvent>)
    requires
        delivered_in_order(events),
    ensures
        forall|a: int, b: int|
            0 <= a < b < accepted_times(clock, events).len() ==> #[trigger] accepted_times(
                clock,
                events,
            )[a] + DEBOUNCE_WINDOW_MS <= #[trigger] accepted_times(clock, events)[b],
        clock.last_accepted_ms matches Some(t) ==> forall|a: int|
            0 <= a < accepted_times(clock, events).len() ==> t + DEBOUNCE_WINDOW_MS
                <= #[trigger] accepted_times(clock, events)[a],
    decreases events.len(),
{
    if events.len() == 0 {
    } else {
        let e = events[0];
        let tail = events.subrange(1, events.len() as int);
        assert forall|x: int, y: int| 0 <= x <= y < tail.len() implies tail[x].at_ms
            <= tail[y].at_ms by {
            assert(tail[x] == events[x + 1]);
            assert(tail[y] == events[y + 1]);
        }
        if is_relevant(e.kind) && clock.window_elapsed(e.at_ms) {
            let mid = DebounceClock { last_accepted_ms: Some(e.at_ms) };
            lemma_notifications_spaced(mid, tail);
            let acc = accepted_times(clock, events);
            let rest = accepted_times(mid, tail);
            assert(acc == seq![e.at_ms] + rest);
            assert forall|a: int, b: int| 0 <= a < b < acc.len() implies acc[a]
                + DEBOUNCE_WINDOW_MS <= acc[b] by {
                assert(acc[b] == rest[b - 1]);
                if a == 0 {
                    assert(acc[0] == e.at_ms);
                } else {
                    assert(acc[a] == rest[a - 1]);
                }
            }
        } else {
            lemma_notifications_spaced(clock, tail);
            assert(accepted_times(clock, events) == accepted_times(clock, tail));
        }
    }
}

} // verus!
