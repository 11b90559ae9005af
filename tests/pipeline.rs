use zeou::amount::Amount;
use zeou::domain::{domain_filter, Domain};
use zeou::envelope::{route, Event, EventKind, Route};
use zeou::listener::{CustomContext, Notice};
use zeou::pipeline::{
    snapshot_due_at, Action, Delivery, Input, Payload, Phase, Skip, Snapshot, Worker,
};

fn event(offset: u64, kind: &str, amount: i32) -> Input {
    Input::Received(Delivery {
        offset,
        payload: Payload::Event(Event { kind: kind.to_string(), amount }),
    })
}

fn raw(offset: u64, payload: Payload) -> Input {
    Input::Received(Delivery { offset, payload })
}

#[test]
fn amount_adds_and_subtracts() {
    let mut a = Amount::new(0);
    a.add(5);
    a.sub(8);
    assert_eq!(a.value(), -3);
    a.add(10);
    assert_eq!(a.value(), 7);
}

#[test]
fn amount_wraps_on_overflow() {
    let mut a = Amount::new(i32::MAX);
    a.add(1);
    assert_eq!(a.value(), i32::MIN);
    a.sub(1);
    assert_eq!(a.value(), i32::MAX);
    let mut b = Amount::new(0);
    b.sub(i32::MIN);
    assert_eq!(b.value(), i32::MIN);
}

#[test]
fn kinds_are_classified() {
    assert_eq!(EventKind::of("add"), EventKind::Add);
    assert_eq!(EventKind::of("sub"), EventKind::Sub);
    assert_eq!(EventKind::of("mul"), EventKind::Other);
    assert_eq!(EventKind::of("Add"), EventKind::Other);
    assert_eq!(EventKind::of("ad"), EventKind::Other);
    assert_eq!(EventKind::of("addd"), EventKind::Other);
    assert_eq!(EventKind::of(""), EventKind::Other);
}

#[test]
fn commands_are_routed() {
    assert_eq!(route("createEvent"), Route::CreateEvent);
    assert_eq!(route("createevent"), Route::Unhandled);
    assert_eq!(route("deleteEvent"), Route::Unhandled);
    assert_eq!(route(""), Route::Unhandled);
}

#[test]
fn snapshot_due_only_on_multiples_of_ten() {
    for offset in 0u64..100 {
        assert_eq!(snapshot_due_at(offset), offset % 10 == 0);
    }
    assert!(snapshot_due_at(0));
    assert!(snapshot_due_at(20));
    assert!(!snapshot_due_at(11));
    assert!(!snapshot_due_at(u64::MAX));
}

#[test]
fn twelve_events_scenario() {
    let mut w = Worker::new();
    assert_eq!(
        w.handle(event(0, "add", 5)),
        Action::Publish { kind: EventKind::Add, snapshot: Snapshot { amount: 5, version: 0 } }
    );
    assert_eq!(w.handle(Input::SendFinished { ok: true }), Action::Commit { offset: 0, send_failed: false });
    for offset in 1u64..10 {
        assert_eq!(w.handle(event(offset, "add", 1)), Action::Applied { kind: EventKind::Add, offset });
    }
    assert_eq!(w.amount(), 14);
    assert_eq!(
        w.handle(event(10, "sub", 2)),
        Action::Publish { kind: EventKind::Sub, snapshot: Snapshot { amount: 12, version: 10 } }
    );
    assert_eq!(w.handle(Input::SendFinished { ok: true }), Action::Commit { offset: 10, send_failed: false });
    assert_eq!(w.handle(event(11, "add", 100)), Action::Applied { kind: EventKind::Add, offset: 11 });
    assert_eq!(w.amount(), 112);
    assert_eq!(w.phase(), Phase::Polling);
}

#[test]
fn failed_publish_still_commits() {
    let mut w = Worker::new();
    for offset in 1u64..10 {
        w.handle(event(offset, "add", 1));
    }
    assert_eq!(
        w.handle(event(10, "add", 1)),
        Action::Publish { kind: EventKind::Add, snapshot: Snapshot { amount: 10, version: 10 } }
    );
    assert_eq!(w.phase(), Phase::Publishing { offset: 10 });
    assert_eq!(w.handle(Input::SendFinished { ok: false }), Action::Commit { offset: 10, send_failed: true });
    assert_eq!(w.phase(), Phase::Polling);
    assert_eq!(w.handle(event(11, "add", 1)), Action::Applied { kind: EventKind::Add, offset: 11 });
    assert_eq!(w.amount(), 11);
}

#[test]
fn bad_payloads_change_nothing() {
    let mut w = Worker::new();
    w.handle(event(1, "add", 7));
    assert_eq!(w.handle(raw(2, Payload::Malformed)), Action::Skipped(Skip::Malformed));
    assert_eq!(w.handle(raw(3, Payload::NotUtf8)), Action::Skipped(Skip::NotUtf8));
    assert_eq!(w.handle(raw(4, Payload::Absent)), Action::Skipped(Skip::NoPayload));
    assert_eq!(w.handle(raw(10, Payload::Malformed)), Action::Skipped(Skip::Malformed));
    assert_eq!(w.amount(), 7);
    assert_eq!(w.phase(), Phase::Polling);
    assert_eq!(w.handle(event(5, "add", 1)), Action::Applied { kind: EventKind::Add, offset: 5 });
    assert_eq!(w.amount(), 8);
}

#[test]
fn unknown_kind_leaves_total() {
    let mut w = Worker::new();
    w.handle(event(1, "add", 3));
    assert_eq!(w.handle(event(2, "mul", 9)), Action::Applied { kind: EventKind::Other, offset: 2 });
    assert_eq!(w.amount(), 3);
    assert_eq!(
        w.handle(event(20, "reset", 9)),
        Action::Publish { kind: EventKind::Other, snapshot: Snapshot { amount: 3, version: 20 } }
    );
    assert_eq!(w.amount(), 3);
}

#[test]
fn transport_outcomes_keep_polling() {
    let mut w = Worker::new();
    w.handle(event(1, "add", 4));
    assert_eq!(w.handle(Input::ReceiveFailed), Action::ReceiveFailed);
    assert_eq!(w.handle(Input::NothingReceived), Action::NothingReceived);
    assert_eq!(w.amount(), 4);
    assert_eq!(w.phase(), Phase::Polling);
}

#[test]
fn inputs_out_of_turn_are_ignored() {
    let mut w = Worker::new();
    assert_eq!(w.handle(Input::SendFinished { ok: true }), Action::OutOfTurn);
    w.handle(event(0, "add", 2));
    assert_eq!(w.handle(event(1, "add", 2)), Action::OutOfTurn);
    assert_eq!(w.handle(Input::ReceiveFailed), Action::OutOfTurn);
    assert_eq!(w.amount(), 2);
    assert_eq!(w.handle(Input::SendFinished { ok: true }), Action::Commit { offset: 0, send_failed: false });
}

#[test]
fn replaying_a_range_reconverges() {
    let range: Vec<(u64, &str, i32)> = vec![(11, "add", 4), (12, "sub", 9), (13, "mul", 1), (14, "add", 6)];
    let mut first = Worker::new();
    first.handle(event(1, "add", 50));
    let mut second = Worker::new();
    second.handle(event(1, "add", 50));
    for (offset, kind, amount) in range.iter() {
        first.handle(event(*offset, kind, *amount));
    }
    for (offset, kind, amount) in range.iter() {
        second.handle(event(*offset, kind, *amount));
    }
    assert_eq!(first.amount(), 51);
    assert_eq!(first.amount(), second.amount());
}

#[test]
fn total_is_signed_sum() {
    let events: Vec<(&str, i32)> = vec![("add", 100), ("sub", 30), ("add", -5), ("sub", -12), ("add", 0)];
    let mut w = Worker::new();
    let mut offset: u64 = 1;
    for (kind, amount) in events.iter() {
        w.handle(event(offset, kind, *amount));
        offset += 1;
    }
    assert_eq!(w.amount(), 100 - 30 - 5 + 12);
}

#[test]
fn listener_reports_notifications() {
    let c = CustomContext::new();
    assert_eq!(c.pre_rebalance(), Notice::PreRebalance);
    assert_eq!(c.post_rebalance(), Notice::PostRebalance);
    assert_eq!(c.commit_callback(true), Notice::Committed);
    assert_eq!(c.commit_callback(false), Notice::CommitFailed);
}

#[test]
fn domain_filter_keeps_named_domains() {
    let one = vec!["backpacks".to_string()];
    assert_eq!(domain_filter(&one), Ok(vec![Domain::Backpacks]));
    let two = vec!["backpacks".to_string(), "articles".to_string()];
    assert_eq!(domain_filter(&two), Ok(vec![Domain::Backpacks, Domain::Articles]));
    let all: Vec<String> = "articles,backpacks,circles,events,users".split(',').map(|s| s.to_string()).collect();
    assert_eq!(
        domain_filter(&all),
        Ok(vec![Domain::Articles, Domain::Backpacks, Domain::Circles, Domain::Events, Domain::Users])
    );
}

#[test]
fn domain_filter_drops_repeats() {
    let names = vec!["users".to_string(), "events".to_string(), "users".to_string()];
    assert_eq!(domain_filter(&names), Ok(vec![Domain::Users, Domain::Events]));
    assert_eq!(domain_filter(&Vec::new()), Ok(Vec::new()));
}

#[test]
fn domain_filter_rejects_unknown_names() {
    let names = vec!["articles".to_string(), "widgets".to_string(), "nope".to_string()];
    assert_eq!(domain_filter(&names), Err(1));
    assert_eq!(domain_filter(&vec!["Articles".to_string()]), Err(0));
}

#[test]
fn domains_name_their_topics() {
    for d in [Domain::Articles, Domain::Backpacks, Domain::Circles, Domain::Events, Domain::Users] {
        assert_eq!(Domain::parse(d.topic()), Some(d));
    }
    assert_eq!(Domain::Circles.topic(), "circles");
    assert_eq!(Domain::parse("user"), None);
}
