use esp_xbox_controller::idle::IdleTimeout;

#[test]
fn held_input_survives_silence_and_release_starts_idle_period() {
    let mut idle = IdleTimeout::new(0, Some(300));
    idle.report(10, true, true);
    assert_eq!(idle.deadline(), None);
    assert!(!idle.expired(1000));
    idle.report(1000, true, false);
    assert!(!idle.expired(1299));
    assert!(idle.expired(1300));
}

#[test]
fn unchanged_neutral_reports_do_not_keep_controller_awake() {
    let mut idle = IdleTimeout::new(0, Some(300));
    idle.report(10, true, false);
    idle.report(200, false, false);
    assert!(!idle.expired(309));
    assert!(idle.expired(310));
}

#[test]
fn changed_inactive_input_restarts_idle_period() {
    let mut idle = IdleTimeout::new(0, Some(300));
    idle.report(200, true, false);
    assert!(!idle.expired(300));
    assert!(idle.expired(500));
}

#[test]
fn no_input_expires_and_disabled_idle_does_not() {
    assert!(IdleTimeout::new(0, Some(300)).expired(300));
    let mut idle = IdleTimeout::new(0, None);
    idle.report(10, true, true);
    idle.report(20, true, false);
    assert!(!idle.expired(1000));
}

#[test]
fn new_timeout_starts_deadline_immediately() {
    let idle = IdleTimeout::new(50, Some(100));
    assert_eq!(idle.deadline(), Some(150));
    assert!(!idle.expired(149));
    assert!(idle.expired(150));
    assert!(idle.expired(10_000));
}

#[test]
fn unchanged_report_after_held_input_restarts_period() {
    let mut idle = IdleTimeout::new(0, Some(300));
    idle.report(10, true, true);
    assert_eq!(idle.deadline(), None);
    idle.report(400, false, false);
    assert_eq!(idle.deadline(), Some(700));
}

#[test]
fn disabled_idle_never_has_a_deadline() {
    let mut idle = IdleTimeout::new(0, None);
    assert_eq!(idle.deadline(), None);
    idle.report(5, false, false);
    assert_eq!(idle.deadline(), None);
    assert!(!idle.expired(u64::MAX));
}
