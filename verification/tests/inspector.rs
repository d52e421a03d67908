use std::collections::HashMap;

use esp_xbox_controller::backend::{
    apply_device_action, can_vibrate, disconnect_ends_session, scan_start_needed, scan_stop_needed,
    selection_after_action, waiting_for_linux_input,
};
use esp_xbox_controller::device_list::{device_precedes, sort_devices, Device};
use esp_xbox_controller::devices::{
    battery_percent, device_state, display_name, identifies_xbox, is_likely_xbox, mentions_xbox,
    DeviceState, BATTERY_CHARACTERISTIC, FIRMWARE_CHARACTERISTIC, REPORT_CHARACTERISTIC,
};
use esp_xbox_controller::gamepads::{select_gamepad, share_reader_wanted, GamepadCandidate};
use esp_xbox_controller::gatt::{
    first_with, input_reports, output_report, route_notification, vibration_route,
    GattCharacteristic, NotificationRoute, VibrationRoute,
};
use esp_xbox_controller::panel::ControllerPanel;
use esp_xbox_controller::text::normalize_address;
use esp_xbox_controller::ParseError;

#[test]
fn xbox_names_are_recognized_in_any_case() {
    assert!(mentions_xbox("Xbox Wireless Controller"));
    assert!(mentions_xbox("my XBOX pad"));
    assert!(!mentions_xbox("X-Box"));
    assert!(!mentions_xbox("xbo"));
    let mut data = HashMap::new();
    assert!(!is_likely_xbox("Gamepad", &data));
    data.insert(0x045e, vec![1, 2]);
    assert!(is_likely_xbox("Gamepad", &data));
    assert!(identifies_xbox("Xbox Wireless Controller"));
    assert!(!identifies_xbox("xbox pad"));
    assert!(!identifies_xbox("Pad"));
}

#[test]
fn device_states() {
    assert_eq!(device_state(true, false), DeviceState::Connected);
    assert_eq!(device_state(true, true), DeviceState::Connected);
    assert_eq!(device_state(false, true), DeviceState::Disconnected);
    assert_eq!(device_state(false, false), DeviceState::NotSetUp);
}

#[test]
fn display_name_preference() {
    let address = "AA:BB:CC:DD:EE:FF".to_string();
    let s = |x: &str| Some(x.to_string());
    assert_eq!(display_name(s("Alias"), s("Bluez"), s("Local"), s("Adv"), &address), "Alias");
    assert_eq!(display_name(s(""), s("Bluez"), s("Local"), None, &address), "Bluez");
    assert_eq!(display_name(s("AA:BB:CC:DD:EE:FF"), None, s("Local"), None, &address), "Local");
    assert_eq!(display_name(None, None, None, s("Adv"), &address), "Adv");
    assert_eq!(display_name(None, None, s(""), s("Adv"), &address), "Unknown device");
    assert_eq!(display_name(None, None, None, None, &address), "Unknown device");
}

#[test]
fn battery_is_capped() {
    assert_eq!(battery_percent(42), 42);
    assert_eq!(battery_percent(100), 100);
    assert_eq!(battery_percent(250), 100);
}

fn device(name: &str, likely_xbox: bool, state: DeviceState) -> Device {
    Device {
        id: name.to_string(),
        name: name.to_string(),
        address: String::new(),
        rssi: None,
        likely_xbox,
        state,
    }
}

#[test]
fn devices_sort_xbox_first_then_state_then_name() {
    let list = vec![
        device("zeta", false, DeviceState::Connected),
        device("Beta", true, DeviceState::NotSetUp),
        device("alpha", true, DeviceState::NotSetUp),
        device("Gamma", true, DeviceState::Connected),
        device("delta", false, DeviceState::Disconnected),
    ];
    let sorted = sort_devices(list);
    let names: Vec<&str> = sorted.iter().map(|d| d.name.as_str()).collect();
    assert_eq!(names, ["Gamma", "alpha", "Beta", "zeta", "delta"]);
    assert!(device_precedes(&sorted[0], &sorted[1]));
    assert!(!device_precedes(&sorted[1], &sorted[0]));
}

#[test]
fn sort_keeps_equal_keys_in_order() {
    let mut a = device("Pad", false, DeviceState::NotSetUp);
    a.id = "first".into();
    let mut b = device("pad", false, DeviceState::NotSetUp);
    b.id = "second".into();
    let sorted = sort_devices(vec![a, b]);
    assert_eq!(sorted[0].id, "first");
    assert_eq!(sorted[1].id, "second");
}

fn pad(unique: &str, name: &str, south: bool) -> GamepadCandidate {
    GamepadCandidate {
        unique_name: unique.to_string(),
        name: name.to_string(),
        has_south_button: south,
    }
}

#[test]
fn gamepad_selected_by_address_first() {
    let pads = vec![
        pad("", "Xbox Wireless Controller", true),
        pad("aa:bb:cc:dd:ee:ff", "Other", false),
        pad("AABBCCDDEEFF", "Pad", true),
    ];
    assert_eq!(select_gamepad(&pads, "AA:BB:CC:DD:EE:FF", "Xbox Wireless Controller"), Some(2));
}

#[test]
fn gamepad_name_fallback_needs_a_unique_match() {
    let pads = vec![
        pad("", "Keyboard", true),
        pad("", "Microsoft X-Box pad", true),
    ];
    assert_eq!(select_gamepad(&pads, "11:22:33:44:55:66", ""), Some(1));
    let pads = vec![
        pad("", "Xbox Wireless Controller", true),
        pad("", "Xbox Wireless Controller", true),
    ];
    assert_eq!(select_gamepad(&pads, "11:22:33:44:55:66", ""), None);
    let pads = vec![pad("", "My Pad", true), pad("", "Other", true)];
    assert_eq!(select_gamepad(&pads, "11:22:33:44:55:66", "my pad"), Some(0));
    assert_eq!(select_gamepad(&pads, "11:22:33:44:55:66", ""), None);
    let pads = vec![pad("", "Xbox", false)];
    assert_eq!(select_gamepad(&pads, "11:22:33:44:55:66", ""), None);
}

#[test]
fn share_reader_must_belong_to_controller() {
    let normalized = normalize_address(b"AA:BB:CC:DD:EE:FF");
    assert_eq!(normalized, b"aabbccddeeff".to_vec());
    assert!(share_reader_wanted(true, "aa:bb:cc:dd:ee:ff", &normalized));
    assert!(!share_reader_wanted(false, "aa:bb:cc:dd:ee:ff", &normalized));
    assert!(!share_reader_wanted(true, "11:bb:cc:dd:ee:ff", &normalized));
    assert!(!share_reader_wanted(true, "", &[]));
}

fn ch(uuid: u128, props: u8) -> GattCharacteristic {
    GattCharacteristic { uuid, service_uuid: 0x1812, properties: props }
}

#[test]
fn characteristic_selection() {
    let chars = vec![
        ch(FIRMWARE_CHARACTERISTIC, 0x02),
        ch(REPORT_CHARACTERISTIC, 0x12),
        ch(REPORT_CHARACTERISTIC, 0x0a),
        ch(REPORT_CHARACTERISTIC, 0x22),
        ch(BATTERY_CHARACTERISTIC, 0x12),
        ch(REPORT_CHARACTERISTIC, 0x04),
    ];
    assert_eq!(input_reports(&chars), vec![1, 3]);
    assert_eq!(output_report(&chars), Some(2));
    assert_eq!(first_with(&chars, FIRMWARE_CHARACTERISTIC, 0), Some(0));
    assert_eq!(first_with(&chars, BATTERY_CHARACTERISTIC, 0), Some(4));
    assert_eq!(first_with(&chars, 0x1234, 0), None);
    assert_eq!(output_report(&chars[..2].to_vec()), None);
}

#[test]
fn notification_routing() {
    let subscribed = vec![(REPORT_CHARACTERISTIC, 0x1812)];
    assert_eq!(
        route_notification(BATTERY_CHARACTERISTIC, 0x180f, &[87], &subscribed),
        NotificationRoute::Battery(87)
    );
    assert_eq!(
        route_notification(BATTERY_CHARACTERISTIC, 0x180f, &[], &subscribed),
        NotificationRoute::Ignore
    );
    assert_eq!(
        route_notification(REPORT_CHARACTERISTIC, 0x1812, &[0; 16], &subscribed),
        NotificationRoute::Report
    );
    assert_eq!(
        route_notification(REPORT_CHARACTERISTIC, 0x1812, &[0; 15], &subscribed),
        NotificationRoute::Ignore
    );
    assert_eq!(
        route_notification(REPORT_CHARACTERISTIC, 0x9999, &[0; 16], &subscribed),
        NotificationRoute::Ignore
    );
}

#[test]
fn vibration_prefers_ble() {
    assert_eq!(vibration_route(Some(0x04), true), VibrationRoute::Ble { without_response: true });
    assert_eq!(vibration_route(Some(0x08), false), VibrationRoute::Ble { without_response: false });
    assert_eq!(vibration_route(None, true), VibrationRoute::ForceFeedback);
    assert_eq!(vibration_route(None, false), VibrationRoute::Unavailable);
}

#[test]
fn panel_shows_reports_and_errors() {
    let mut panel = ControllerPanel::new();
    let mut report = vec![0x00, 0x80, 0x00, 0x80, 0x00, 0x80, 0x00, 0x80, 0, 0, 0, 0, 0, 0x02, 0, 0];
    panel.show_report(report.clone());
    assert!(panel.state.buttons.b);
    assert_eq!(panel.report_error, None);
    report.truncate(4);
    panel.show_report(report.clone());
    assert!(panel.state.buttons.b);
    assert_eq!(panel.report_error, Some(ParseError::TooShort { expected: 16, actual: 4 }));
    assert_eq!(panel.raw_report, report);
    panel.show_share(true);
    assert!(panel.state.buttons.share && panel.state.buttons.b);
    panel.show_battery(180);
    assert_eq!(panel.battery, Some(100));
    panel.controller_disconnected();
    assert_eq!(panel.battery, None);
}

#[test]
fn backend_decisions() {
    assert!(can_vibrate(true, false));
    assert!(can_vibrate(false, true));
    assert!(!can_vibrate(false, false));
    assert!(waiting_for_linux_input(false, false));
    assert!(!waiting_for_linux_input(true, false));
    assert!(!waiting_for_linux_input(false, true));
    assert!(scan_start_needed(false));
    assert!(!scan_start_needed(true));
    assert!(scan_stop_needed(true));
    assert!(!scan_stop_needed(false));
    let id = "AA:BB".to_string();
    assert!(disconnect_ends_session(Some("AA:BB".to_string()), &id));
    assert!(!disconnect_ends_session(Some("CC:DD".to_string()), &id));
    assert!(!disconnect_ends_session(None, &id));
}

#[test]
fn device_actions_update_the_list() {
    let list = vec![
        device("a", true, DeviceState::Connected),
        device("b", true, DeviceState::Disconnected),
        device("c", false, DeviceState::NotSetUp),
    ];
    let id = "b".to_string();
    assert_eq!(selection_after_action(id.clone(), DeviceState::Disconnected), None);
    let forgotten = apply_device_action(list.clone(), &id, DeviceState::Disconnected);
    assert_eq!(forgotten.iter().map(|d| d.id.as_str()).collect::<Vec<_>>(), vec!["a", "c"]);
    let id = "a".to_string();
    assert_eq!(selection_after_action(id.clone(), DeviceState::Connected), Some("a".to_string()));
    let disconnected = apply_device_action(list.clone(), &id, DeviceState::Connected);
    assert_eq!(disconnected[0].state, DeviceState::Disconnected);
    assert_eq!(disconnected.len(), 3);
    let id = "c".to_string();
    let unchanged = apply_device_action(list.clone(), &id, DeviceState::NotSetUp);
    assert_eq!(unchanged.len(), 3);
    assert_eq!(unchanged[2].state, DeviceState::NotSetUp);
}
