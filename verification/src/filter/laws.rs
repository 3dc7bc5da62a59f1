//! What holds of every exchange, whatever the host reports about it.

use super::http_context::{Decision, Direction, Event, HttpLimitSize};
use crate::guard::SizeGuard;
use vstd::prelude::*;

verus! {

impl HttpLimitSize {
    /// The exchange after a run of events, the first of them first.
    pub open spec fn after_all(self, events: Seq<Event>) -> HttpLimitSize
        decreases events.len(),
    {
        if events.len() == 0 {
            self
        } else {
            self.after_all(events.drop_last()).after(events.last()).0
        }
    }

    /// The answer to the event `events[i]`, given after the events before it.
    pub open spec fn decision_at(self, events: Seq<Event>, i: int) -> Decision {
        self.after_all(events.take(i)).after(events[i]).1
    }
}

/// The number of bytes in a run of chunks.
pub open spec fn total(chunks: Seq<u64>) -> nat
    decreases chunks.len(),
{
    if chunks.len() == 0 {
        0
    } else {
        total(chunks.drop_last()) + chunks.last() as nat
    }
}

/// The body of one direction arriving in the chunks `chunks`, and nothing
/// else happening.
pub open spec fn body_events(direction: Direction, chunks: Seq<u64>) -> Seq<Event> {
    Seq::new(chunks.len(), |i: int| Event::Body { direction, size: chunks[i] })
}

/// With the chunk `chunks[i]` the bytes seen go above `limit` for the first
/// time.
pub open spec fn first_excess(limit: u64, chunks: Seq<u64>, i: int) -> bool {
    &&& total(chunks.take(i + 1)) > limit
    &&& forall|j: int| 0 <= j <= i ==> total(#[trigger] chunks.take(j)) <= limit
}

/// A declared length decides at once: on an exchange that is still open in
/// `direction`, headers that declare more than the limit are answered with
/// the rejection of that direction, and headers that declare the limit or
/// less with `Continue`. What has been counted so far plays no part.
pub proof fn lemma_declared_length_decides(
    x: HttpLimitSize,
    direction: Direction,
    limit: u64,
    declared: u64,
)
    requires
        !x.passes(direction),
        x.limit(direction) == Some(limit),
    ensures
        declared > limit ==> x.after(Event::Headers { direction, declared: Some(declared) }).1
            == Decision::Reject(x.rejection(direction)),
        declared > limit ==> x.after(
            Event::Headers { direction, declared: Some(declared) },
        ).0.guard(direction).terminated,
        declared <= limit ==> x.after(Event::Headers { direction, declared: Some(declared) })
            == (x, Decision::Continue),
{
}

/// No event re-opens a direction or takes bytes off its count, and none
/// touches the snapshot.
pub proof fn lemma_events_only_add(x: HttpLimitSize, event: Event, direction: Direction)
    ensures
        x.after(event).0.configuration == x.configuration,
        x.guard(direction).terminated ==> x.after(event).0.guard(direction).terminated,
        x.after(event).0.guard(direction).accumulated_bytes >= x.guard(
            direction,
        ).accumulated_bytes,
        event.direction() != direction ==> x.after(event).0.guard(direction) == x.guard(
            direction,
        ),
{
}

/// An exchange whose open directions are within their limits stays so.
pub proof fn lemma_within_limits_kept(x: HttpLimitSize, event: Event)
    requires
        x.within_limits(),
    ensures
        x.after(event).0.within_limits(),
{
}

/// The same of a run of events.
pub proof fn lemma_runs_only_add(x: HttpLimitSize, events: Seq<Event>, direction: Direction)
    ensures
        x.after_all(events).configuration == x.configuration,
        x.guard(direction).terminated ==> x.after_all(events).guard(direction).terminated,
        x.after_all(events).guard(direction).accumulated_bytes >= x.guard(
            direction,
        ).accumulated_bytes,
    decreases events.len(),
{
    if events.len() > 0 {
        lemma_runs_only_add(x, events.drop_last(), direction);
        lemma_events_only_add(x.after_all(events.drop_last()), events.last(), direction);
    }
}

/// Where a fresh exchange stands after the first `k` chunks of a body: as
/// long as the bytes have stayed within the limit they are all counted and
/// the direction is open; from the first excess on it is terminated.
proof fn lemma_after_chunks(
    x: HttpLimitSize,
    direction: Direction,
    limit: u64,
    chunks: Seq<u64>,
    k: int,
)
    requires
        x.fresh(),
        x.limit(direction) == Some(limit),
        0 <= k <= chunks.len(),
    ensures
        ({
            let y = x.after_all(body_events(direction, chunks).take(k));
            &&& y.configuration == x.configuration
            &&& !y.request.terminated || direction == Direction::Request
            &&& if forall|j: int| 0 <= j <= k ==> total(#[trigger] chunks.take(j)) <= limit {
                y.guard(direction) == SizeGuard {
                    accumulated_bytes: total(chunks.take(k)) as u64,
                    terminated: false,
                }
            } else {
                y.guard(direction).terminated
            }
        }),
    decreases k,
{
    let events = body_events(direction, chunks);
    if k == 0 {
        assert(events.take(0) =~= Seq::<Event>::empty());
        assert(chunks.take(0) =~= Seq::<u64>::empty());
        assert forall|j: int| 0 <= j <= 0 implies total(#[trigger] chunks.take(j)) <= limit by {
            assert(chunks.take(j) =~= Seq::<u64>::empty());
        }
    } else {
        lemma_after_chunks(x, direction, limit, chunks, k - 1);
        assert(events.take(k).drop_last() =~= events.take(k - 1));
        assert(events.take(k).last() == Event::Body { direction, size: chunks[k - 1] });
        assert(chunks.take(k).drop_last() =~= chunks.take(k - 1));
        assert(chunks.take(k).last() == chunks[k - 1]);
        let before = forall|j: int| 0 <= j <= k - 1 ==> total(#[trigger] chunks.take(j)) <= limit;
        let now = forall|j: int| 0 <= j <= k ==> total(#[trigger] chunks.take(j)) <= limit;
        if before {
            if total(chunks.take(k)) <= limit {
                assert(now);
            } else {
                assert(!now);
            }
        } else {
            assert(!now);
        }
    }
}

/// A body that arrives in chunks is rejected with the chunk that takes the
/// bytes seen above the limit for the first time, with the rejection of its
/// direction, and every other chunk of it is answered with `Continue`.
pub proof fn lemma_rejects_at_first_excess(
    x: HttpLimitSize,
    direction: Direction,
    limit: u64,
    chunks: Seq<u64>,
    i: int,
)
    requires
        x.fresh(),
        x.limit(direction) == Some(limit),
        0 <= i < chunks.len(),
    ensures
        x.decision_at(body_events(direction, chunks), i) == if first_excess(limit, chunks, i) {
            Decision::Reject(x.rejection(direction))
        } else {
            Decision::Continue
        },
{
    lemma_after_chunks(x, direction, limit, chunks, i);
    assert(chunks.take(i + 1).drop_last() =~= chunks.take(i));
    assert(chunks.take(i + 1).last() == chunks[i]);
    let within = forall|j: int| 0 <= j <= i ==> total(#[trigger] chunks.take(j)) <= limit;
    if within {
        assert(total(chunks.take(i)) <= limit);
    }
}

/// Once an exchange has been cut short, every event of the response is let
/// through, and so is every event whatever if it was the request that was
/// rejected. Nothing is counted for an event that is let through like this.
pub proof fn lemma_rejection_is_final(x: HttpLimitSize, events: Seq<Event>, i: int)
    requires
        0 <= i < events.len(),
        x.bailed_out(),
        x.request.terminated || events[i].direction() == Direction::Response,
    ensures
        x.decision_at(events, i) == Decision::Continue,
        x.after_all(events.take(i + 1)) == x.after_all(events.take(i)),
{
    lemma_runs_only_add(x, events.take(i), Direction::Request);
    lemma_runs_only_add(x, events.take(i), Direction::Response);
    assert(events.take(i + 1).drop_last() =~= events.take(i));
    assert(events.take(i + 1).last() == events[i]);
}

/// A run of events can be taken in two parts: the exchange after the first
/// `j` events is the exchange after the first `k` of them, taken through the
/// events from `k` to `j`.
proof fn lemma_run_in_parts(x: HttpLimitSize, events: Seq<Event>, k: int, j: int)
    requires
        0 <= k <= j <= events.len(),
    ensures
        x.after_all(events.take(j)) == x.after_all(events.take(k)).after_all(
            events.subrange(k, j),
        ),
    decreases j - k,
{
    if k == j {
        assert(events.subrange(k, j) =~= Seq::<Event>::empty());
    } else {
        lemma_run_in_parts(x, events, k, j - 1);
        assert(events.take(j).drop_last() =~= events.take(j - 1));
        assert(events.subrange(k, j).drop_last() =~= events.subrange(k, j - 1));
        assert(events.subrange(k, j).last() == events.take(j).last());
    }
}

/// No direction is rejected twice: after an event of a direction has been
/// answered with a rejection, every later event of that direction is
/// answered with `Continue`, whatever happens in between.
pub proof fn lemma_one_rejection_per_direction(
    x: HttpLimitSize,
    events: Seq<Event>,
    i: int,
    j: int,
)
    requires
        0 <= i < j < events.len(),
        events[i].direction() == events[j].direction(),
        x.decision_at(events, i) is Reject,
    ensures
        x.decision_at(events, j) == Decision::Continue,
{
    let direction = events[i].direction();
    let rejected = x.after_all(events.take(i + 1));
    assert(events.take(i + 1).drop_last() =~= events.take(i));
    assert(events.take(i + 1).last() == events[i]);
    assert(rejected.guard(direction).terminated);
    lemma_run_in_parts(x, events, i + 1, j);
    lemma_runs_only_add(rejected, events.subrange(i + 1, j), direction);
}

/// A direction without a limit is never rejected: whatever the exchange has
/// been through, every event of that direction is answered with `Continue`.
pub proof fn lemma_unlimited_never_rejects(x: HttpLimitSize, events: Seq<Event>, i: int)
    requires
        0 <= i < events.len(),
        x.limit(events[i].direction()) is None,
    ensures
        x.decision_at(events, i) == Decision::Continue,
{
    lemma_runs_only_add(x, events.take(i), events[i].direction());
}

} // verus!
