use esp_xbox_controller::connection::{
    first_writable, monitor_step, needs_report_protocol, pairing_step, recovery, AttemptEnd,
    LinkEvent, LinkSecurity, LinkStep, Recovery,
};
use esp_xbox_controller::session::{
    connected_pulse, idle_keepalive_report, ControllerEvent, ReportSession, TimerAction,
};
use esp_xbox_controller::{ControllerConfig, ControllerSelector, ParseError};

fn neutral() -> Vec<u8> {
    vec![0x00, 0x80, 0x00, 0x80, 0x00, 0x80, 0x00, 0x80, 0, 0, 0, 0, 0, 0, 0, 0]
}

#[test]
fn config_keeps_its_fields() {
    let c = ControllerConfig::new(ControllerSelector::AnyXbox, Some(300_000), 500);
    assert_eq!(c.selector, ControllerSelector::AnyXbox);
    assert_eq!(c.idle_disconnect_after, Some(300_000));
    assert_eq!(c.supervision_timeout, 500);
}

#[test]
fn session_timer_fires_at_the_earlier_deadline() {
    let s = ReportSession::new(1_000, Some(5_000));
    assert_eq!(s.next_timer(), 6_000);
    let s = ReportSession::new(1_000, Some(60_000));
    assert_eq!(s.next_timer(), 11_000);
    let s = ReportSession::new(1_000, None);
    assert_eq!(s.next_timer(), 11_000);
}

#[test]
fn idle_timer_disconnects_only_after_deadline() {
    let mut s = ReportSession::new(0, Some(5_000));
    assert_eq!(s.on_timer(4_999, true), TimerAction::WriteKeepalive);
    assert_eq!(s.on_timer(5_000, true), TimerAction::IdleDisconnect);
    let mut s = ReportSession::new(0, None);
    assert_eq!(s.on_timer(1_000_000, false), TimerAction::Rearmed);
    assert_eq!(s.next_timer(), 1_010_000);
}

#[test]
fn keepalive_write_rearms_timer() {
    let mut s = ReportSession::new(0, None);
    assert_eq!(s.on_timer(10_000, true), TimerAction::WriteKeepalive);
    assert_eq!(s.next_timer(), 10_000);
    s.keepalive_written(10_003);
    assert_eq!(s.next_timer(), 20_003);
}

#[test]
fn only_changed_reports_restart_the_idle_period() {
    let mut s = ReportSession::new(0, Some(5_000));
    let report = neutral();
    assert!(s.on_notification(1_000, &report).is_ok());
    assert_eq!(s.next_timer(), 6_000);
    // Same state again: the deadline stays.
    assert!(s.on_notification(3_000, &report).is_ok());
    assert_eq!(s.next_timer(), 6_000);
    // A parse error is delivered but does not restart the period.
    assert_eq!(
        s.on_notification(4_000, &[1, 2, 3]),
        Err(ParseError::TooShort { expected: 16, actual: 3 })
    );
    assert_eq!(s.next_timer(), 6_000);
    // A changed state restarts it.
    let mut pressed = report.clone();
    pressed[13] = 0x01;
    let parsed = s.on_notification(4_500, &pressed).unwrap();
    assert!(parsed.buttons.a);
    assert_eq!(s.next_timer(), 9_500);
    assert_eq!(s.on_timer(9_500, false), TimerAction::IdleDisconnect);
}

#[test]
fn output_reports_are_fixed() {
    assert_eq!(idle_keepalive_report(), [0x0f, 0, 0, 0, 0, 0, 0, 0]);
    assert_eq!(connected_pulse(), [0x0f, 50, 50, 50, 50, 20, 0, 0]);
}

#[test]
fn pairing_waits_for_encryption() {
    assert_eq!(
        pairing_step(LinkEvent::Encrypted { level: LinkSecurity::Encrypted }),
        LinkStep::Ready
    );
    assert_eq!(
        pairing_step(LinkEvent::Encrypted { level: LinkSecurity::EncryptedAuthenticated }),
        LinkStep::Ready
    );
    assert_eq!(
        pairing_step(LinkEvent::Encrypted { level: LinkSecurity::NoEncryption }),
        LinkStep::Continue
    );
    assert_eq!(
        pairing_step(LinkEvent::PairingComplete { level: LinkSecurity::Encrypted, bonded: true }),
        LinkStep::Ready
    );
    assert_eq!(pairing_step(LinkEvent::PairingFailed), LinkStep::Stop { disconnect: true });
    assert_eq!(pairing_step(LinkEvent::Disconnected), LinkStep::Stop { disconnect: false });
    assert_eq!(pairing_step(LinkEvent::RequestConnectionParams), LinkStep::AcceptParams);
    assert_eq!(
        pairing_step(LinkEvent::ConnectionParamsAccepted { ok: false }),
        LinkStep::Stop { disconnect: true }
    );
    assert_eq!(
        pairing_step(LinkEvent::ConnectionParamsAccepted { ok: true }),
        LinkStep::Continue
    );
    assert_eq!(pairing_step(LinkEvent::PassKeyConfirm), LinkStep::ConfirmPassKey);
    assert_eq!(
        pairing_step(LinkEvent::PassKeyConfirmed { ok: false }),
        LinkStep::Stop { disconnect: true }
    );
    assert_eq!(pairing_step(LinkEvent::PassKeyInput), LinkStep::Stop { disconnect: true });
    assert_eq!(pairing_step(LinkEvent::PassKeyDisplay), LinkStep::Continue);
    assert_eq!(pairing_step(LinkEvent::Other), LinkStep::Continue);
}

#[test]
fn monitoring_stops_on_failures() {
    assert_eq!(monitor_step(LinkEvent::Disconnected), LinkStep::Stop { disconnect: false });
    assert_eq!(monitor_step(LinkEvent::PairingFailed), LinkStep::Stop { disconnect: false });
    assert_eq!(monitor_step(LinkEvent::PassKeyInput), LinkStep::Stop { disconnect: false });
    assert_eq!(
        monitor_step(LinkEvent::ConnectionParamsAccepted { ok: false }),
        LinkStep::Stop { disconnect: false }
    );
    assert_eq!(monitor_step(LinkEvent::RequestConnectionParams), LinkStep::AcceptParams);
    assert_eq!(
        monitor_step(LinkEvent::PairingComplete { level: LinkSecurity::Encrypted, bonded: false }),
        LinkStep::Continue
    );
    assert_eq!(
        monitor_step(LinkEvent::Encrypted { level: LinkSecurity::Encrypted }),
        LinkStep::Continue
    );
}

#[test]
fn recovery_after_each_attempt() {
    assert_eq!(recovery(AttemptEnd::ScanFailed), Recovery { disconnect: false, delay_ms: 1_000 });
    assert_eq!(recovery(AttemptEnd::ConnectFailed), Recovery { disconnect: false, delay_ms: 1_000 });
    assert_eq!(recovery(AttemptEnd::PairingAbandoned), Recovery { disconnect: false, delay_ms: 1_000 });
    assert_eq!(recovery(AttemptEnd::BondableFailed), Recovery { disconnect: true, delay_ms: 1_000 });
    assert_eq!(recovery(AttemptEnd::PairingTimedOut), Recovery { disconnect: true, delay_ms: 1_000 });
    assert_eq!(
        recovery(AttemptEnd::SessionEnded { idle: true }),
        Recovery { disconnect: true, delay_ms: 30_000 }
    );
    assert_eq!(
        recovery(AttemptEnd::SessionEnded { idle: false }),
        Recovery { disconnect: true, delay_ms: 1_000 }
    );
}

#[test]
fn report_protocol_written_only_when_needed() {
    assert!(needs_report_protocol(Some(0)));
    assert!(!needs_report_protocol(Some(1)));
    assert!(!needs_report_protocol(None));
}

#[test]
fn first_writable_characteristic_is_output_report() {
    assert_eq!(first_writable(&[0x12, 0x02, 0x0a, 0x08]), Some(2));
    assert_eq!(first_writable(&[0x12, 0x04]), None);
}

fn pressed_a() -> Vec<u8> {
    let mut report = neutral();
    report[13] = 0x01;
    report
}

#[test]
fn held_input_suspends_idle_disconnect() {
    let holding_a = |state: &esp_xbox_controller::XboxControllerState| state.buttons.a;
    let mut s = ReportSession::new(0, Some(300));
    let event = s.on_activity_notification(10, &pressed_a(), &holding_a);
    match event {
        ControllerEvent::Report(Ok(state)) => assert!(state.buttons.a),
        other => panic!("unexpected event {:?}", other),
    }
    // Held: no idle deadline, however long the silence.
    assert_eq!(s.next_timer(), 10_000);
    assert_eq!(s.on_timer(1_000_000, true), TimerAction::WriteKeepalive);
    // Release restarts the full idle period.
    let released = s.on_activity_notification(1_000, &neutral(), &holding_a);
    assert!(matches!(released, ControllerEvent::Report(Ok(_))));
    assert_eq!(s.on_timer(1_299, true), TimerAction::WriteKeepalive);
    assert_eq!(s.on_timer(1_300, true), TimerAction::IdleDisconnect);
}

#[test]
fn unchanged_released_reports_keep_the_deadline_with_activity() {
    let never = |_: &esp_xbox_controller::XboxControllerState| false;
    let mut s = ReportSession::new(0, Some(300));
    s.on_activity_notification(10, &pressed_a(), &never);
    s.on_activity_notification(200, &pressed_a(), &never);
    assert_eq!(s.on_timer(309, true), TimerAction::WriteKeepalive);
    assert_eq!(s.on_timer(310, true), TimerAction::IdleDisconnect);
    let event = s.on_activity_notification(320, &[1, 2, 3], &never);
    assert_eq!(
        event,
        ControllerEvent::Report(Err(ParseError::TooShort { expected: 16, actual: 3 }))
    );
}

#[test]
fn restart_checks_match_the_session() {
    let s = ReportSession::new(0, Some(300));
    assert!(s.notification_restarts_idle(&neutral()));
    assert!(!s.notification_restarts_idle(&[0, 1]));
    assert!(s.released_notification_restarts_idle(&neutral()));
    let mut s = ReportSession::new(0, Some(300));
    s.on_notification(5, &neutral()).unwrap();
    assert!(!s.notification_restarts_idle(&neutral()));
    assert!(s.notification_restarts_idle(&pressed_a()));
    assert!(!s.released_notification_restarts_idle(&neutral()));
    let held = |_: &esp_xbox_controller::XboxControllerState| true;
    s.on_activity_notification(6, &neutral(), &held);
    // The idle period is suspended, so even an unchanged release restarts it.
    assert!(s.released_notification_restarts_idle(&neutral()));
}

#[test]
fn session_end_event_carries_the_idle_flag() {
    let event = ControllerEvent::SessionDisconnected { idle: true };
    assert_ne!(event, ControllerEvent::SessionDisconnected { idle: false });
}
