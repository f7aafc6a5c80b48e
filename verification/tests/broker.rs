use geocode_broker::broker::{
    deadline_for, rejected_record, timeout_record, ConfirmationBroker, Decision, Resolution,
    CONFIRMATION_TIMEOUT_MS,
};
use geocode_broker::record::ExampleResult;

fn record(address: &str) -> ExampleResult {
    ExampleResult::bare("ok", address)
}

#[test]
fn a_rejection_resolves_the_waiting_request() {
    let mut broker = ConfirmationBroker::new();
    let ticket = broker.submit(record("somewhere"), 1_000).unwrap();
    let resolution = broker.decide(Decision::Reject).unwrap();
    assert_eq!(resolution.ticket, ticket);
    assert_eq!(resolution.record.status, "rejected");
    assert_eq!(resolution.record.address, "User rejected the result");
    assert_eq!(resolution.record, ExampleResult::bare("rejected", "User rejected the result"));
    assert_eq!(rejected_record(), resolution.record);
}

#[test]
fn a_confirmation_hands_on_the_confirmed_record() {
    let mut broker = ConfirmationBroker::new();
    let ticket = broker.submit(record("provisional"), 0).unwrap();
    let corrected = record("corrected");
    assert_eq!(
        broker.decide(Decision::Confirm(corrected.clone())),
        Some(Resolution { ticket, record: corrected })
    );
    assert_eq!(broker.pending_count(), 0);
}

#[test]
fn a_second_decision_finds_nothing_pending() {
    let mut broker = ConfirmationBroker::new();
    broker.submit(record("x"), 0).unwrap();
    assert!(broker.decide(Decision::Reject).is_some());
    assert_eq!(broker.decide(Decision::Reject), None);
    assert_eq!(broker.decide(Decision::Confirm(record("late"))), None);
    assert_eq!(broker.pending_count(), 0);
}

#[test]
fn a_decision_without_any_request_finds_nothing() {
    let mut broker = ConfirmationBroker::new();
    assert_eq!(broker.decide(Decision::Reject), None);
}

#[test]
fn a_decision_resolves_the_request_submitted_last() {
    let mut broker = ConfirmationBroker::new();
    let first = broker.submit(record("first"), 0).unwrap();
    let second = broker.submit(record("second"), 1).unwrap();
    assert_ne!(first, second);
    assert_eq!(broker.decide(Decision::Reject).unwrap().ticket, second);
    assert!(broker.is_pending(first));
    assert!(!broker.is_pending(second));
    assert_eq!(broker.decide(Decision::Reject).unwrap().ticket, first);
    assert_eq!(broker.decide(Decision::Reject), None);
}

#[test]
fn an_unanswered_request_times_out_after_thirty_seconds() {
    assert_eq!(CONFIRMATION_TIMEOUT_MS, 30_000);
    let mut broker = ConfirmationBroker::new();
    let ticket = broker.submit(record("x"), 5_000).unwrap();
    assert_eq!(broker.expire(ticket, 5_000), None);
    assert_eq!(broker.expire(ticket, 34_999), None);
    assert!(broker.is_pending(ticket));
    let resolution = broker.expire(ticket, 35_000).unwrap();
    assert_eq!(resolution.ticket, ticket);
    assert_eq!(resolution.record.status, "error");
    assert_eq!(
        resolution.record,
        ExampleResult {
            status_detail: Some("timeout".to_string()),
            ..ExampleResult::bare("error", "Confirmation timed out")
        }
    );
    assert_eq!(timeout_record(), resolution.record);
    assert!(!broker.is_pending(ticket));
}

#[test]
fn a_late_decision_is_dropped() {
    let mut broker = ConfirmationBroker::new();
    let ticket = broker.submit(record("x"), 0).unwrap();
    assert!(broker.expire(ticket, 30_000).is_some());
    assert_eq!(broker.decide(Decision::Confirm(record("late"))), None);
    assert_eq!(broker.expire(ticket, 60_000), None);
}

#[test]
fn a_timeout_removes_only_its_own_entry() {
    let mut broker = ConfirmationBroker::new();
    let a = broker.submit(record("a"), 0).unwrap();
    let b = broker.submit(record("b"), 10).unwrap();
    let c = broker.submit(record("c"), 20).unwrap();
    assert_eq!(broker.expire(b, 40_000).unwrap().ticket, b);
    assert_eq!(broker.pending_count(), 2);
    assert!(broker.is_pending(a) && broker.is_pending(c));
    assert_eq!(broker.decide(Decision::Reject).unwrap().ticket, c);
    assert_eq!(broker.decide(Decision::Reject).unwrap().ticket, a);
}

#[test]
fn a_decided_request_does_not_time_out() {
    let mut broker = ConfirmationBroker::new();
    let ticket = broker.submit(record("x"), 0).unwrap();
    assert!(broker.decide(Decision::Reject).is_some());
    assert_eq!(broker.expire(ticket, u64::MAX), None);
}

#[test]
fn the_deadline_saturates_at_the_end_of_time() {
    let mut broker = ConfirmationBroker::new();
    let ticket = broker.submit(record("x"), u64::MAX - 5).unwrap();
    assert_eq!(broker.expire(ticket, u64::MAX - 1), None);
    assert!(broker.expire(ticket, u64::MAX).is_some());
}

#[test]
fn tickets_are_never_given_twice() {
    let mut broker = ConfirmationBroker::new();
    let mut seen = Vec::new();
    for round in 0..20u64 {
        let ticket = broker.submit(record("x"), round).unwrap();
        assert!(!seen.contains(&ticket));
        seen.push(ticket);
        if round % 3 == 0 {
            broker.decide(Decision::Reject);
        }
        if round % 5 == 0 {
            broker.expire(ticket, round + 30_000);
        }
    }
}

#[test]
fn a_decision_on_a_ticket_resolves_that_request() {
    let mut broker = ConfirmationBroker::new();
    let a = broker.submit(record("a"), 0).unwrap();
    let b = broker.submit(record("b"), 0).unwrap();
    let c = broker.submit(record("c"), 0).unwrap();
    assert_eq!(
        broker.decide_for(b, Decision::Confirm(record("b, checked"))),
        Some(Resolution { ticket: b, record: record("b, checked") })
    );
    assert!(broker.is_pending(a) && !broker.is_pending(b) && broker.is_pending(c));
    assert_eq!(broker.decide_for(b, Decision::Reject), None);
    assert_eq!(broker.pending_count(), 2);
    assert_eq!(broker.decide_for(a, Decision::Reject).unwrap().record.status, "rejected");
    assert_eq!(broker.decide_for(77, Decision::Reject), None);
    assert_eq!(broker.decide(Decision::Reject).unwrap().ticket, c);
}

#[test]
fn a_decision_becomes_the_record_it_carries() {
    assert_eq!(Decision::Confirm(record("kept")).into_record(), record("kept"));
    assert_eq!(Decision::Reject.into_record(), rejected_record());
}

#[test]
fn deadlines_lie_thirty_seconds_ahead() {
    assert_eq!(deadline_for(0), 30_000);
    assert_eq!(deadline_for(1_234), 31_234);
    assert_eq!(deadline_for(u64::MAX - 30_000), u64::MAX);
    assert_eq!(deadline_for(u64::MAX - 29_999), u64::MAX);
    assert_eq!(deadline_for(u64::MAX), u64::MAX);
}

#[test]
fn an_entry_tells_its_deadline_while_it_waits() {
    let mut broker = ConfirmationBroker::new();
    let a = broker.submit(record("a"), 100).unwrap();
    let b = broker.submit(record("b"), 250).unwrap();
    assert_eq!(broker.deadline_of(a), Some(30_100));
    assert_eq!(broker.deadline_of(b), Some(30_250));
    assert_eq!(broker.deadline_of(b + 1), None);
    assert_eq!(broker.time_left(a, 100), Some(30_000));
    assert_eq!(broker.time_left(a, 30_099), Some(1));
    assert_eq!(broker.time_left(a, 30_100), Some(0));
    assert_eq!(broker.time_left(a, u64::MAX), Some(0));
    assert_eq!(broker.expire(a, 30_099), None);
    assert!(broker.expire(a, 30_100).is_some());
    assert_eq!(broker.deadline_of(a), None);
    assert_eq!(broker.time_left(a, 0), None);
    assert_eq!(broker.deadline_of(b), Some(30_250));
}
