//! What replaying a run of Event envelopes does to the total.

use vstd::prelude::*;
use crate::amount::{lemma_wrap_absorbs, lemma_wrap_in_range, wrap_i32};
use crate::envelope::{kind_of, Event, EventKind};
use crate::pipeline::{apply_event, step, Delivery, Input, Payload, Phase, WorkerView};

verus! {

/// The signed contribution of one event: adds count up, subs count down,
/// any other kind counts nothing.
pub open spec fn signed_amount(e: Event) -> int {
    match kind_of(e.kind@) {
        EventKind::Add => e.amount as int,
        EventKind::Sub => -(e.amount as int),
        EventKind::Other => 0,
    }
}

/// The exact signed sum of a run of events.
pub open spec fn signed_sum(events: Seq<Event>) -> int
    decreases events.len(),
{
    if events.len() == 0 {
        0
    } else {
        signed_sum(events.drop_last()) + signed_amount(events.last())
    }
}

/// The total reached from `total` by applying `events` in order, as the
/// worker applies each decoded event it receives.
pub open spec fn replay(total: int, events: Seq<Event>) -> int
    decreases events.len(),
{
    if events.len() == 0 {
        total
    } else {
        let e = events.last();
        apply_event(replay(total, events.drop_last()), kind_of(e.kind@), e.amount)
    }
}

/// Replaying events from a total of 0 yields their signed sum, wrapped into
/// the `i32` range.
pub proof fn lemma_replay_is_wrapped_sum(events: Seq<Event>)
    ensures
        replay(0, events) == wrap_i32(signed_sum(events)),
    decreases events.len(),
{
    if events.len() == 0 {
        lemma_wrap_in_range(0);
    } else {
        let rest = events.drop_last();
        lemma_replay_is_wrapped_sum(rest);
        lemma_wrap_absorbs(signed_sum(rest), signed_amount(events.last()));
        if kind_of(events.last().kind@) == EventKind::Other {
            assert(signed_sum(events) == signed_sum(rest));
        }
    }
}

/// Replaying events from a total of 0 yields exactly their signed sum
/// whenever that sum fits in an `i32`.
pub proof fn lemma_replay_is_sum(events: Seq<Event>)
    requires
        i32::MIN <= signed_sum(events) <= i32::MAX,
    ensures
        replay(0, events) == signed_sum(events),
{
    lemma_replay_is_wrapped_sum(events);
    lemma_wrap_in_range(signed_sum(events));
}

/// Resuming from the total reached after `done` and replaying `range` gives
/// the same total as one uninterrupted pass over `done` then `range`: the
/// result depends on the starting total and on the events in order, and on
/// nothing else.
pub proof fn lemma_replay_resumes(total: int, done: Seq<Event>, range: Seq<Event>)
    ensures
        replay(replay(total, done), range) == replay(total, done + range),
    decreases range.len(),
{
    if range.len() == 0 {
        assert(done + range =~= done);
    } else {
        lemma_replay_resumes(total, done, range.drop_last());
        assert((done + range).drop_last() =~= done + range.drop_last());
    }
}

/// The worker after each of `events` is delivered in turn, at the matching
/// offset of `offsets`, with every snapshot send reported back as `send_ok`
/// before the next delivery.
pub open spec fn deliver_all(
    w: WorkerView,
    events: Seq<Event>,
    offsets: Seq<u64>,
    send_ok: bool,
) -> WorkerView
    decreases events.len(),
{
    if events.len() == 0 || offsets.len() == 0 {
        w
    } else {
        let before = deliver_all(w, events.drop_last(), offsets.drop_last(), send_ok);
        let delivery = Delivery { offset: offsets.last(), payload: Payload::Event(events.last()) };
        let (after, action) = step(before, Input::Received(delivery));
        if action is Publish {
            step(after, Input::SendFinished { ok: send_ok }).0
        } else {
            after
        }
    }
}

/// Delivering events to a polling worker applies them to its total in
/// order, whatever their offsets and the outcome of the snapshot sends, and
/// leaves it polling.
pub proof fn lemma_delivery_replays(
    w: WorkerView,
    events: Seq<Event>,
    offsets: Seq<u64>,
    send_ok: bool,
)
    requires
        w.phase == Phase::Polling,
        events.len() == offsets.len(),
    ensures
        deliver_all(w, events, offsets, send_ok).total == replay(w.total, events),
        deliver_all(w, events, offsets, send_ok).phase == Phase::Polling,
    decreases events.len(),
{
    if events.len() > 0 {
        lemma_delivery_replays(w, events.drop_last(), offsets.drop_last(), send_ok);
    }
}

/// A fresh worker fed any run of events ends with their signed sum, wrapped
/// into the `i32` range, and with exactly that sum when it fits in an `i32`.
pub proof fn lemma_worker_total_is_sum(events: Seq<Event>, offsets: Seq<u64>, send_ok: bool)
    requires
        events.len() == offsets.len(),
    ensures
        deliver_all(WorkerView { total: 0, phase: Phase::Polling }, events, offsets, send_ok).total
            == wrap_i32(signed_sum(events)),
        i32::MIN <= signed_sum(events) <= i32::MAX ==> deliver_all(
            WorkerView { total: 0, phase: Phase::Polling },
            events,
            offsets,
            send_ok,
        ).total == signed_sum(events),
{
    lemma_delivery_replays(WorkerView { total: 0, phase: Phase::Polling }, events, offsets, send_ok);
    lemma_replay_is_wrapped_sum(events);
    if i32::MIN <= signed_sum(events) <= i32::MAX {
        lemma_replay_is_sum(events);
    }
}

/// A worker that resumes from the state reached after `done` and is fed
/// `range` again ends exactly where one uninterrupted pass over `done` then
/// `range` ends: redelivering a range after a crash reconverges.
pub proof fn lemma_redelivery_reconverges(
    w: WorkerView,
    done: Seq<Event>,
    done_offsets: Seq<u64>,
    range: Seq<Event>,
    range_offsets: Seq<u64>,
    send_ok: bool,
)
    requires
        w.phase == Phase::Polling,
        done.len() == done_offsets.len(),
        range.len() == range_offsets.len(),
    ensures
        deliver_all(
            deliver_all(w, done, done_offsets, send_ok),
            range,
            range_offsets,
            send_ok,
        ) == deliver_all(w, done + range, done_offsets + range_offsets, send_ok),
{
    let mid = deliver_all(w, done, done_offsets, send_ok);
    lemma_delivery_replays(w, done, done_offsets, send_ok);
    lemma_delivery_replays(mid, range, range_offsets, send_ok);
    lemma_delivery_replays(w, done + range, done_offsets + range_offsets, send_ok);
    lemma_replay_resumes(w.total, done, range);
}

} // verus!
