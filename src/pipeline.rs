//! The decisions of the consume, aggregate, publish and commit loop.
//!
//! The loop itself (polling the consumer, sending a snapshot, committing an
//! offset) is driven from outside: it hands each outcome to
//! [`Worker::handle`] as an [`Input`] and performs the [`Action`] it gets
//! back. A snapshot send is always reported back before the next message is
//! accepted, so a commit never precedes the send attempt for its offset.
//!
//! One worker keeps one total over every partition it is handed, in the
//! order the consumer delivers messages. A snapshot is due when the offset
//! of the handled message itself is a multiple of [`SNAPSHOT_INTERVAL`]:
//! the trigger is a per-partition offset checkpoint, not a message count.

use vstd::prelude::*;
use crate::amount::{wrap_i32, Amount};
use crate::envelope::{kind_of, Event, EventKind};

verus! {

/// Offsets at which a snapshot is published are the multiples of this.
pub const SNAPSHOT_INTERVAL: u64 = 10;

/// Whether a handled event at `offset` publishes a snapshot and commits.
pub open spec fn snapshot_due(offset: u64) -> bool {
    offset % 10 == 0
}

/// The total after one event of the given kind.
pub open spec fn apply_event(total: int, kind: EventKind, amount: i32) -> int {
    match kind {
        EventKind::Add => wrap_i32(total + amount),
        EventKind::Sub => wrap_i32(total - amount),
        EventKind::Other => total,
    }
}

/// The published summary of the total, versioned by the triggering offset.
#[derive(Clone, Copy, Debug, PartialEq, Eq, Structural)]
pub struct Snapshot {
    pub amount: i32,
    pub version: u64,
}

/// A message payload as the decoder found it.
pub enum Payload {
    /// The message carried no payload.
    Absent,
    /// The payload is not UTF-8 text.
    NotUtf8,
    /// UTF-8 text, but not an Event envelope.
    Malformed,
    /// A decoded Event envelope.
    Event(Event),
}

/// One message received from the consumer.
pub struct Delivery {
    pub offset: u64,
    pub payload: Payload,
}

/// An outcome reported by the driving loop.
pub enum Input {
    /// The consumer yielded a message.
    Received(Delivery),
    /// The consumer reported a receive error.
    ReceiveFailed,
    /// The consumer yielded nothing.
    NothingReceived,
    /// The snapshot send requested last finished, successfully or not.
    SendFinished { ok: bool },
}

/// Why a received message was dropped.
#[derive(Clone, Copy, Debug, PartialEq, Eq, Structural)]
pub enum Skip {
    NoPayload,
    NotUtf8,
    Malformed,
}

/// What the driving loop does next.
#[derive(Clone, Copy, Debug, PartialEq, Eq, Structural)]
pub enum Action {
    /// Log the dropped message and poll again.
    Skipped(Skip),
    /// Log the receive error and poll again.
    ReceiveFailed,
    /// Log a warning and poll again.
    NothingReceived,
    /// The event was handled with no snapshot due; a kind of `Other` is
    /// logged as a warning. Poll again.
    Applied { kind: EventKind, offset: u64 },
    /// The event was handled and a snapshot is due: send it, then report
    /// the outcome with [`Input::SendFinished`].
    Publish { kind: EventKind, snapshot: Snapshot },
    /// Commit `offset` without waiting, after logging the send error if
    /// `send_failed`. Poll again.
    Commit { offset: u64, send_failed: bool },
    /// The input does not fit the current phase and was ignored.
    OutOfTurn,
}

/// The kind of the event that an action reports as handled, if any.
pub open spec fn handled_kind(a: Action) -> Option<EventKind> {
    match a {
        Action::Applied { kind, .. } => Some(kind),
        Action::Publish { kind, .. } => Some(kind),
        _ => None,
    }
}

/// Where the worker stands in its cycle.
#[derive(Clone, Copy, Debug, PartialEq, Eq, Structural)]
pub enum Phase {
    /// Waiting for the next consumer outcome.
    Polling,
    /// Waiting for the outcome of the snapshot send for `offset`.
    Publishing { offset: u64 },
}

/// The worker's state as a mathematical value.
pub struct WorkerView {
    pub total: int,
    pub phase: Phase,
}

/// The input is a received message that carries a decoded Event envelope.
pub open spec fn carries_event(input: Input) -> bool {
    input is Received && input->0.payload is Event
}

/// The next state and the action for one input.
pub open spec fn step(w: WorkerView, input: Input) -> (WorkerView, Action) {
    match w.phase {
        Phase::Polling => match input {
            Input::Received(d) => match d.payload {
                Payload::Absent => (w, Action::Skipped(Skip::NoPayload)),
                Payload::NotUtf8 => (w, Action::Skipped(Skip::NotUtf8)),
                Payload::Malformed => (w, Action::Skipped(Skip::Malformed)),
                Payload::Event(e) => {
                    let kind = kind_of(e.kind@);
                    let total = apply_event(w.total, kind, e.amount);
                    if snapshot_due(d.offset) {
                        (
                            WorkerView { total, phase: Phase::Publishing { offset: d.offset } },
                            Action::Publish {
                                kind,
                                snapshot: Snapshot { amount: total as i32, version: d.offset },
                            },
                        )
                    } else {
                        (
                            WorkerView { total, phase: Phase::Polling },
                            Action::Applied { kind, offset: d.offset },
                        )
                    }
                },
            },
            Input::ReceiveFailed => (w, Action::ReceiveFailed),
            Input::NothingReceived => (w, Action::NothingReceived),
            Input::SendFinished { .. } => (w, Action::OutOfTurn),
        },
        Phase::Publishing { offset } => match input {
            Input::SendFinished { ok } => (
                WorkerView { total: w.total, phase: Phase::Polling },
                Action::Commit { offset, send_failed: !ok },
            ),
            _ => (w, Action::OutOfTurn),
        },
    }
}

/// The aggregate state and the phase of the pipeline.
pub struct Worker {
    amount: Amount,
    phase: Phase,
}

impl View for Worker {
    type V = WorkerView;

    closed spec fn view(&self) -> WorkerView {
        WorkerView { total: self.amount@, phase: self.phase }
    }
}

/// Whether a handled event at `offset` publishes a snapshot and commits.
pub fn snapshot_due_at(offset: u64) -> (r: bool)
    ensures
        r == snapshot_due(offset),
{
    offset % SNAPSHOT_INTERVAL == 0
}

impl Worker {
    /// A worker with a total of 0, waiting for its first message.
    pub fn new() -> (r: Worker)
        ensures
            r@.total == 0,
            r@.phase == Phase::Polling,
    {
        Worker { amount: Amount::new(0), phase: Phase::Polling }
    }

    /// The current total.
    pub fn amount(&self) -> (r: i32)
        ensures
            r as int == self@.total,
    {
        self.amount.value()
    }

    /// The current phase.
    pub fn phase(&self) -> (r: Phase)
        ensures
            r == self@.phase,
    {
        self.phase
    }

    /// Takes one outcome of the driving loop and says what to do next.
    pub fn handle(&mut self, input: Input) -> (r: Action)
        ensures
            (final(self)@, r) == step(old(self)@, input),
            r is Publish <==> (old(self)@.phase == Phase::Polling && carries_event(input)
                && snapshot_due(input->0.offset)),
            r is Publish ==> r->snapshot == (Snapshot {
                amount: final(self)@.total as i32,
                version: input->0.offset,
            }),
            old(self)@.phase == Phase::Polling && input is Received && !carries_event(input)
                ==> final(self)@ == old(self)@ && r is Skipped,
            old(self)@.phase == Phase::Polling && carries_event(input) && kind_of(
                input->0.payload->0.kind@,
            ) == EventKind::Other ==> final(self)@.total == old(self)@.total && handled_kind(r) == Some(
                EventKind::Other,
            ),
            r is Commit <==> (old(self)@.phase is Publishing && input is SendFinished),
            r is Commit ==> r == (Action::Commit {
                offset: old(self)@.phase->offset,
                send_failed: !input->ok,
            }) && final(self)@ == (WorkerView { total: old(self)@.total, phase: Phase::Polling }),
    {
        match self.phase {
            Phase::Polling => match input {
                Input::Received(d) => match d.payload {
                    Payload::Absent => Action::Skipped(Skip::NoPayload),
                    Payload::NotUtf8 => Action::Skipped(Skip::NotUtf8),
                    Payload::Malformed => Action::Skipped(Skip::Malformed),
                    Payload::Event(e) => {
                        let kind = e.kind();
                        match kind {
                            EventKind::Add => self.amount.add(e.amount),
                            EventKind::Sub => self.amount.sub(e.amount),
                            EventKind::Other => {},
                        }
                        if snapshot_due_at(d.offset) {
                            self.phase = Phase::Publishing { offset: d.offset };
                            Action::Publish {
                                kind,
                                snapshot: Snapshot { amount: self.amount.value(), version: d.offset },
                            }
                        } else {
                            Action::Applied { kind, offset: d.offset }
                        }
                    },
                },
                Input::ReceiveFailed => Action::ReceiveFailed,
                Input::NothingReceived => Action::NothingReceived,
                Input::SendFinished { .. } => Action::OutOfTurn,
            },
            Phase::Publishing { offset } => match input {
                Input::SendFinished { ok } => {
                    self.phase = Phase::Polling;
                    Action::Commit { offset, send_failed: !ok }
                },
                _ => Action::OutOfTurn,
            },
        }
    }
}

} // verus!
