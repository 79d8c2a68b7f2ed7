use miqbot_relay::orchestrator::action_ledger::{ActionLedger, TimeoutKind};

#[test]
fn ack_timeout_is_reported_and_removed() {
    let mut ledger = ActionLedger::new();
    ledger.on_sent("req-1".to_string(), 100, 50, 500);

    let events = ledger.poll_timeouts(151);
    assert_eq!(events.len(), 1);
    assert_eq!(events[0].request_id, "req-1");
    assert_eq!(events[0].kind, TimeoutKind::Ack);

    let events_after = ledger.poll_timeouts(9999);
    assert!(events_after.is_empty());
}

#[test]
fn result_timeout_requires_ack_or_elapsed_deadline() {
    let mut ledger = ActionLedger::new();
    ledger.on_sent("req-2".to_string(), 0, 50, 100);
    ledger.on_ack("req-2", true);

    assert!(ledger.poll_timeouts(99).is_empty());

    let events = ledger.poll_timeouts(101);
    assert_eq!(events.len(), 1);
    assert_eq!(events[0].request_id, "req-2");
    assert_eq!(events[0].kind, TimeoutKind::Result);
}

#[test]
fn ack_deadline_is_inclusive() {
    let mut ledger = ActionLedger::new();
    ledger.on_sent("a".to_string(), 100, 50, 500);
    assert!(ledger.poll_timeouts(149).is_empty());
    let events = ledger.poll_timeouts(150);
    assert_eq!(events.len(), 1);
    assert_eq!(events[0].kind, TimeoutKind::Ack);
}

#[test]
fn rejected_ack_and_result_forget_the_action() {
    let mut ledger = ActionLedger::new();
    ledger.on_sent("a".to_string(), 0, 10, 20);
    ledger.on_sent("b".to_string(), 0, 10, 20);
    ledger.on_ack("a", false);
    ledger.on_result("b");
    assert!(ledger.poll_timeouts(u64::MAX).is_empty());
}

#[test]
fn resending_an_id_replaces_its_entry() {
    let mut ledger = ActionLedger::new();
    ledger.on_sent("a".to_string(), 0, 10, 20);
    ledger.on_ack("a", true);
    ledger.on_sent("a".to_string(), 100, 10, 20);
    let events = ledger.poll_timeouts(110);
    assert_eq!(events.len(), 1);
    assert_eq!(events[0].kind, TimeoutKind::Ack);
    assert!(ledger.poll_timeouts(u64::MAX).is_empty());
}

#[test]
fn deadlines_saturate() {
    let mut ledger = ActionLedger::new();
    ledger.on_sent("a".to_string(), u64::MAX - 1, 10, 20);
    assert!(ledger.poll_timeouts(u64::MAX - 1).is_empty());
    let events = ledger.poll_timeouts(u64::MAX);
    assert_eq!(events.len(), 1);
    assert_eq!(events[0].kind, TimeoutKind::Ack);
}

#[test]
fn poll_reports_in_order_of_sending_and_keeps_the_rest() {
    let mut ledger = ActionLedger::new();
    ledger.on_sent("a".to_string(), 0, 10, 100);
    ledger.on_sent("b".to_string(), 0, 50, 100);
    ledger.on_sent("c".to_string(), 0, 10, 100);
    ledger.on_ack("c", true);
    let events = ledger.poll_timeouts(20);
    assert_eq!(events.len(), 1);
    assert_eq!(events[0].request_id, "a");
    let events = ledger.poll_timeouts(100);
    assert_eq!(events.len(), 2);
    assert_eq!(events[0].request_id, "b");
    assert_eq!(events[0].kind, TimeoutKind::Ack);
    assert_eq!(events[1].request_id, "c");
    assert_eq!(events[1].kind, TimeoutKind::Result);
}

#[test]
fn ack_for_unknown_id_changes_nothing() {
    let mut ledger = ActionLedger::new();
    ledger.on_sent("a".to_string(), 0, 10, 100);
    ledger.on_ack("zzz", true);
    ledger.on_ack("zzz", false);
    ledger.on_result("zzz");
    let events = ledger.poll_timeouts(10);
    assert_eq!(events.len(), 1);
    assert_eq!(events[0].request_id, "a");
}
