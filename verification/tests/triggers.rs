use await_modify_do::arbiter::Arbiter;
use await_modify_do::arbiter::ArbiterAction;
use await_modify_do::arbiter::ArbiterEvent;
use await_modify_do::debounce::ChangeKind;
use await_modify_do::debounce::Debouncer;
use await_modify_do::process_manager::EndType;
use await_modify_do::process_manager::Trigger;

#[test]
fn burst_within_window_forwards_at_most_one_trigger() {
    let mut d = Debouncer::new(500);
    assert!(d.observe(ChangeKind::Modify, 1000));
    assert!(!d.observe(ChangeKind::Modify, 1001));
    assert!(!d.observe(ChangeKind::Modify, 1250));
    assert!(!d.observe(ChangeKind::Modify, 1499));
}

#[test]
fn window_rearms_after_it_elapses() {
    let mut d = Debouncer::new(500);
    assert!(d.observe(ChangeKind::Modify, 1000));
    assert!(!d.observe(ChangeKind::Modify, 1499));
    assert!(d.observe(ChangeKind::Modify, 1500));
    assert!(!d.observe(ChangeKind::Modify, 1999));
}

#[test]
fn only_modification_events_are_forwarded() {
    let mut d = Debouncer::new(500);
    assert!(!d.observe(ChangeKind::Create, 1000));
    assert!(!d.observe(ChangeKind::Remove, 2000));
    assert!(!d.observe(ChangeKind::Other, 3000));
    assert!(d.observe(ChangeKind::Modify, 4000));
}

#[test]
fn dropped_events_do_not_rearm_the_window() {
    let mut d = Debouncer::new(500);
    assert!(d.observe(ChangeKind::Modify, 1000));
    assert!(!d.observe(ChangeKind::Modify, 1400));
    // The dropped event at 1400 did not move the window's start.
    assert!(d.observe(ChangeKind::Modify, 1501));
}

#[test]
fn arbiter_defers_requests_until_both_streams_drain() {
    let mut a = Arbiter::new_run_started();
    assert_eq!(
        a.step(ArbiterEvent::Request(Trigger::Manual)),
        ArbiterAction::Deferred
    );
    assert_eq!(a.step(ArbiterEvent::End(EndType::Stdout)), ArbiterAction::Noted);
    assert_eq!(
        a.step(ArbiterEvent::Request(Trigger::Manual)),
        ArbiterAction::Deferred
    );
    assert_eq!(a.step(ArbiterEvent::End(EndType::Stderr)), ArbiterAction::Noted);
    assert_eq!(
        a.step(ArbiterEvent::Request(Trigger::Manual)),
        ArbiterAction::Launch(Trigger::Manual)
    );
    // The launch owes two fresh end signals: the next request waits again.
    assert_eq!(
        a.step(ArbiterEvent::Request(Trigger::Modify(String::from("src/x.rs")))),
        ArbiterAction::Deferred
    );
}

#[test]
fn end_signal_order_does_not_matter() {
    let mut a = Arbiter::new_run_started();
    assert_eq!(a.step(ArbiterEvent::End(EndType::Stderr)), ArbiterAction::Noted);
    assert_eq!(a.step(ArbiterEvent::End(EndType::Stdout)), ArbiterAction::Noted);
    assert_eq!(
        a.step(ArbiterEvent::Request(Trigger::Start)),
        ArbiterAction::Launch(Trigger::Start)
    );
}

#[test]
fn duplicate_end_signal_is_a_fault() {
    let mut a = Arbiter::new_run_started();
    assert_eq!(a.step(ArbiterEvent::End(EndType::Stdout)), ArbiterAction::Noted);
    assert_eq!(a.step(ArbiterEvent::End(EndType::Stdout)), ArbiterAction::Fault);
}
