use botan_core::supervisor::{backoff_delay_secs, Supervisor, SupervisorAction, SupervisorEvent};

#[test]
fn backoff_doubles_then_caps_at_32() {
    assert_eq!(backoff_delay_secs(0), 1);
    assert_eq!(backoff_delay_secs(1), 2);
    assert_eq!(backoff_delay_secs(2), 4);
    assert_eq!(backoff_delay_secs(3), 8);
    assert_eq!(backoff_delay_secs(4), 16);
    assert_eq!(backoff_delay_secs(5), 32);
    assert_eq!(backoff_delay_secs(6), 32);
    assert_eq!(backoff_delay_secs(49), 32);
}

#[test]
fn successful_connection_resets_failure_counter() {
    let mut sup = Supervisor::new();
    assert_eq!(sup.step(SupervisorEvent::Start), SupervisorAction::Connect);
    assert_eq!(sup.step(SupervisorEvent::Failed), SupervisorAction::Pause(2));
    assert_eq!(sup.step(SupervisorEvent::DelayDone), SupervisorAction::Connect);
    assert_eq!(sup.step(SupervisorEvent::Failed), SupervisorAction::Pause(4));
    assert_eq!(sup.step(SupervisorEvent::DelayDone), SupervisorAction::Connect);
    sup.step(SupervisorEvent::Opened);
    assert_eq!(sup.get_status().reconnect_count, 0);
    // the next backoff computation starts from the reset counter
    assert_eq!(sup.step(SupervisorEvent::Failed), SupervisorAction::Pause(2));
}

#[test]
fn clean_close_pauses_exactly_five_seconds() {
    let mut sup = Supervisor::new();
    sup.step(SupervisorEvent::Start);
    // pile up failures first: the clean-close pause must not depend on them
    for _ in 0..7 {
        sup.step(SupervisorEvent::Failed);
        sup.step(SupervisorEvent::DelayDone);
    }
    sup.step(SupervisorEvent::Opened);
    assert_eq!(sup.step(SupervisorEvent::ExitedClean), SupervisorAction::Pause(5));
    assert_eq!(sup.get_status().reconnect_count, 0);
}

#[test]
fn status_published_before_each_attempt() {
    let mut sup = Supervisor::new();
    sup.step(SupervisorEvent::Start);
    assert!(!sup.get_status().connected);
    sup.step(SupervisorEvent::Opened);
    assert!(sup.get_status().connected);
    sup.step(SupervisorEvent::Failed);
    let st = sup.get_status();
    assert!(!st.connected);
    assert_eq!(st.reconnect_count, 1);
}

#[test]
fn note_message_updates_status_timestamp() {
    let mut sup = Supervisor::new();
    sup.step(SupervisorEvent::Start);
    sup.step(SupervisorEvent::Opened);
    sup.note_message(123_456);
    assert_eq!(sup.get_status().last_message_time, Some(123_456));
}

#[test]
fn three_failures_then_shutdown_stops_without_fourth_attempt() {
    let mut sup = Supervisor::new();
    let mut attempts = 0;
    let mut act = sup.step(SupervisorEvent::Start);
    for _ in 0..3 {
        if act == SupervisorAction::Connect {
            attempts += 1;
        }
        act = sup.step(SupervisorEvent::Failed);
        assert!(matches!(act, SupervisorAction::Pause(_)));
        act = sup.step(SupervisorEvent::DelayDone);
    }
    // the shutdown signal arrives before the fourth attempt is started
    assert_eq!(attempts, 3);
    let act = sup.step(SupervisorEvent::Shutdown);
    assert_eq!(act, SupervisorAction::Halt);
    assert_ne!(act, SupervisorAction::Connect);
    assert!(!sup.get_status().connected);
    assert_eq!(sup.step(SupervisorEvent::HaltDone), SupervisorAction::Wait);
}

#[test]
fn counter_wraps_at_max_retries() {
    let mut sup = Supervisor::new();
    sup.step(SupervisorEvent::Start);
    let mut last = SupervisorAction::Wait;
    for _ in 0..49 {
        last = sup.step(SupervisorEvent::Failed);
        sup.step(SupervisorEvent::DelayDone);
    }
    assert_eq!(last, SupervisorAction::Pause(32));
    assert_eq!(sup.get_status().reconnect_count, 49);
    // the fiftieth failure wraps the counter to zero: delay 2^0
    assert_eq!(sup.step(SupervisorEvent::Failed), SupervisorAction::Pause(1));
    assert_eq!(sup.get_status().reconnect_count, 0);
}

#[test]
fn foreign_events_change_nothing() {
    let mut sup = Supervisor::new();
    assert_eq!(sup.step(SupervisorEvent::Opened), SupervisorAction::Wait);
    assert_eq!(sup.get_status().reconnect_count, 0);
    sup.step(SupervisorEvent::Start);
    assert_eq!(sup.step(SupervisorEvent::HaltDone), SupervisorAction::Wait);
}

#[test]
fn lifecycle_reaches_stopped() {
    let mut sup = Supervisor::new();
    sup.step(SupervisorEvent::Start);
    sup.step(SupervisorEvent::Opened);
    sup.step(SupervisorEvent::Shutdown);
    sup.step(SupervisorEvent::HaltDone);
    // a stopped supervisor ignores further shutdowns
    assert_eq!(sup.step(SupervisorEvent::Shutdown), SupervisorAction::Wait);
}
