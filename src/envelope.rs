//! Decoded message envelopes and the string-keyed routing on them.

use vstd::prelude::*;

verus! {

/// What an Event envelope's `kind` asks of the aggregate.
#[derive(Clone, Copy, Debug, PartialEq, Eq, Structural)]
pub enum EventKind {
    /// `"add"`: the amount is added to the total.
    Add,
    /// `"sub"`: the amount is subtracted from the total.
    Sub,
    /// Any other kind: valid input, left unapplied with a warning.
    Other,
}

/// The kind named by the text of a `kind` field.
pub open spec fn kind_of(kind: Seq<char>) -> EventKind {
    if kind == seq!['a', 'd', 'd'] {
        EventKind::Add
    } else if kind == seq!['s', 'u', 'b'] {
        EventKind::Sub
    } else {
        EventKind::Other
    }
}

/// An Event envelope `{ kind, amount }` decoded from a message payload.
pub struct Event {
    pub kind: String,
    pub amount: i32,
}

/// Where a Command envelope's verb is dispatched.
#[derive(Clone, Copy, Debug, PartialEq, Eq, Structural)]
pub enum Route {
    /// `"createEvent"`: handed to the aggregation handler.
    CreateEvent,
    /// Any other verb: a no-op, reported as a warning.
    Unhandled,
}

/// The route of a verb.
pub open spec fn route_of(command: Seq<char>) -> Route {
    if command == seq!['c', 'r', 'e', 'a', 't', 'e', 'E', 'v', 'e', 'n', 't'] {
        Route::CreateEvent
    } else {
        Route::Unhandled
    }
}

/// Whether two strings hold the same characters.
pub(crate) fn same_text(a: &str, b: &str) -> (r: bool)
    ensures
        r == (a@ == b@),
{
    let n = a.unicode_len();
    if n != b.unicode_len() {
        return false;
    }
    let mut i: usize = 0;
    while i < n
        invariant
            n == a@.len(),
            n == b@.len(),
            i <= n,
            forall|j: int| 0 <= j < i ==> a@[j] == b@[j],
        decreases n - i,
    {
        if a.get_char(i) != b.get_char(i) {
            return false;
        }
        i = i + 1;
    }
    assert(a@ =~= b@);
    true
}

impl EventKind {
    /// Classifies the text of a `kind` field; every text has a kind.
    pub fn of(kind: &str) -> (r: EventKind)
        ensures
            r == kind_of(kind@),
    {
        proof {
            reveal_strlit("add");
            reveal_strlit("sub");
        }
        if same_text(kind, "add") {
            assert("add"@ =~= seq!['a', 'd', 'd']);
            EventKind::Add
        } else if same_text(kind, "sub") {
            assert("add"@ =~= seq!['a', 'd', 'd']);
            assert("sub"@ =~= seq!['s', 'u', 'b']);
            EventKind::Sub
        } else {
            assert("add"@ =~= seq!['a', 'd', 'd']);
            assert("sub"@ =~= seq!['s', 'u', 'b']);
            EventKind::Other
        }
    }
}

impl Event {
    /// The kind of this event.
    pub fn kind(&self) -> (r: EventKind)
        ensures
            r == kind_of(self.kind@),
    {
        EventKind::of(self.kind.as_str())
    }
}

/// Dispatches a Command envelope's verb. Total: every verb has a route.
pub fn route(command: &str) -> (r: Route)
    ensures
        r == route_of(command@),
{
    proof {
        reveal_strlit("createEvent");
    }
    if same_text(command, "createEvent") {
        assert("createEvent"@ =~= seq!['c', 'r', 'e', 'a', 't', 'e', 'E', 'v', 'e', 'n', 't']);
        Route::CreateEvent
    } else {
        assert("createEvent"@ =~= seq!['c', 'r', 'e', 'a', 't', 'e', 'E', 'v', 'e', 'n', 't']);
        Route::Unhandled
    }
}

} // verus!
