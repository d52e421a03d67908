use std::collections::HashMap;

use esp_xbox_controller::linux_input::{
    apply_linux_input, normalize_stick, normalize_trigger, InputEvent, ABS_BRAKE, ABS_GAS,
    ABS_HAT0X, ABS_HAT0Y, ABS_RX, ABS_RY, ABS_RZ, ABS_X, ABS_Y, ABS_Z, BTN_DPAD_UP, BTN_EAST,
    BTN_MODE, BTN_NORTH, BTN_SELECT, BTN_SOUTH, BTN_START, BTN_THUMBL, BTN_THUMBR, BTN_TL,
    BTN_TR, BTN_WEST, KEY_F12, KEY_RECORD,
};
use esp_xbox_controller::XboxControllerState;

#[test]
fn stick_range_ends_map_to_i16_extremes() {
    assert_eq!(normalize_stick(0, (0, 65_535)), i16::MIN);
    assert_eq!(normalize_stick(65_535, (0, 65_535)), i16::MAX);
    assert_eq!(normalize_stick(-100, (0, 65_535)), i16::MIN);
    assert_eq!(normalize_stick(70_000, (0, 65_535)), i16::MAX);
    assert_eq!(normalize_stick(-32_768, (-32_768, 32_767)), i16::MIN);
    assert_eq!(normalize_stick(32_767, (-32_768, 32_767)), i16::MAX);
}

#[test]
fn stick_midpoint_and_exact_values() {
    // 32768 * 65535 / 65535 - 32768 = 0
    assert_eq!(normalize_stick(32_768, (0, 65_535)), 0);
    // 512 * 65535 / 1023 - 32768 = 32799 - 32768 = 31
    assert_eq!(normalize_stick(512, (0, 1023)), 31);
    // 1 * 65535 / 2 - 32768 = 32767 - 32768 = -1
    assert_eq!(normalize_stick(1, (0, 2)), -1);
}

#[test]
fn empty_ranges_read_zero() {
    assert_eq!(normalize_stick(5, (10, 10)), 0);
    assert_eq!(normalize_stick(5, (10, 3)), 0);
    assert_eq!(normalize_trigger(5, (10, 10)), 0);
    assert_eq!(normalize_trigger(5, (10, 3)), 0);
}

#[test]
fn trigger_scaling() {
    assert_eq!(normalize_trigger(0, (0, 1023)), 0);
    assert_eq!(normalize_trigger(1023, (0, 1023)), 1023);
    assert_eq!(normalize_trigger(255, (0, 255)), 1023);
    // 100 * 1023 / 255 = 401
    assert_eq!(normalize_trigger(100, (0, 255)), 401);
    assert_eq!(normalize_trigger(-5, (0, 255)), 0);
    assert_eq!(normalize_trigger(300, (0, 255)), 1023);
}

#[test]
fn scaling_is_monotone() {
    let range = (-100, 900);
    let mut last_stick = i16::MIN;
    let mut last_trigger = 0;
    for v in -200..1000 {
        let s = normalize_stick(v, range);
        let t = normalize_trigger(v, range);
        assert!(s >= last_stick);
        assert!(t >= last_trigger);
        assert!(t <= 1023);
        last_stick = s;
        last_trigger = t;
    }
}

fn key(state: &mut XboxControllerState, code: u16, value: i32) {
    apply_linux_input(state, InputEvent::Key { code, value }, &HashMap::new(), true);
}

#[test]
fn keys_map_to_buttons() {
    let mut s = XboxControllerState::default();
    for code in [
        BTN_SOUTH, BTN_EAST, BTN_NORTH, BTN_WEST, BTN_TL, BTN_TR, BTN_SELECT, BTN_START, BTN_MODE,
        BTN_THUMBL, BTN_THUMBR, BTN_DPAD_UP, KEY_RECORD,
    ] {
        key(&mut s, code, 1);
    }
    let b = s.buttons;
    assert!(b.a && b.b && b.x && b.y && b.lb && b.rb);
    assert!(b.view && b.menu && b.xbox && b.left_stick_button && b.right_stick_button);
    assert!(b.dpad_up && b.share);
    assert!(!b.dpad_down && !b.dpad_left && !b.dpad_right);
    key(&mut s, KEY_F12, 0);
    assert!(!s.buttons.share);
    key(&mut s, BTN_SOUTH, 0);
    assert!(!s.buttons.a);
    let before = s;
    key(&mut s, 0x999, 1);
    assert_eq!(s, before);
}

#[test]
fn xbox_ble_layout_maps_z_axes_to_right_stick() {
    let mut ranges = HashMap::new();
    ranges.insert(ABS_Z, (0, 65_535));
    ranges.insert(ABS_BRAKE, (0, 1023));
    let mut s = XboxControllerState::default();
    apply_linux_input(&mut s, InputEvent::AbsoluteAxis { code: ABS_Z, value: 65_535 }, &ranges, true);
    apply_linux_input(&mut s, InputEvent::AbsoluteAxis { code: ABS_RZ, value: 0 }, &ranges, true);
    apply_linux_input(&mut s, InputEvent::AbsoluteAxis { code: ABS_BRAKE, value: 1023 }, &ranges, true);
    apply_linux_input(&mut s, InputEvent::AbsoluteAxis { code: ABS_GAS, value: 65_535 }, &ranges, true);
    assert_eq!(s.sticks.right_x, i16::MAX);
    assert_eq!(s.sticks.right_y, i16::MIN);
    assert_eq!(s.triggers.left, 1023);
    assert_eq!(s.triggers.right, 1023);
    // ABS_RX is not part of this layout.
    apply_linux_input(&mut s, InputEvent::AbsoluteAxis { code: ABS_RX, value: 0 }, &ranges, true);
    assert_eq!(s.sticks.right_x, i16::MAX);
}

#[test]
fn classic_layout_maps_z_axes_to_triggers() {
    let mut ranges = HashMap::new();
    ranges.insert(ABS_Z, (0, 255));
    ranges.insert(ABS_RZ, (0, 255));
    ranges.insert(ABS_X, (-32_768, 32_767));
    ranges.insert(ABS_Y, (-32_768, 32_767));
    let mut s = XboxControllerState::default();
    apply_linux_input(&mut s, InputEvent::AbsoluteAxis { code: ABS_Z, value: 255 }, &ranges, false);
    apply_linux_input(&mut s, InputEvent::AbsoluteAxis { code: ABS_RZ, value: 0 }, &ranges, false);
    apply_linux_input(&mut s, InputEvent::AbsoluteAxis { code: ABS_RX, value: 0 }, &ranges, false);
    apply_linux_input(&mut s, InputEvent::AbsoluteAxis { code: ABS_RY, value: 65_535 }, &ranges, false);
    apply_linux_input(&mut s, InputEvent::AbsoluteAxis { code: ABS_X, value: -32_768 }, &ranges, false);
    apply_linux_input(&mut s, InputEvent::AbsoluteAxis { code: ABS_Y, value: 32_767 }, &ranges, false);
    assert_eq!(s.triggers.left, 1023);
    assert_eq!(s.triggers.right, 0);
    assert_eq!(s.sticks.right_x, i16::MIN);
    assert_eq!(s.sticks.right_y, i16::MAX);
    assert_eq!(s.sticks.left_x, i16::MIN);
    assert_eq!(s.sticks.left_y, i16::MAX);
}

#[test]
fn hat_axes_drive_the_dpad() {
    let ranges = HashMap::new();
    let mut s = XboxControllerState::default();
    apply_linux_input(&mut s, InputEvent::AbsoluteAxis { code: ABS_HAT0X, value: -1 }, &ranges, true);
    apply_linux_input(&mut s, InputEvent::AbsoluteAxis { code: ABS_HAT0Y, value: 1 }, &ranges, true);
    assert!(s.buttons.dpad_left && !s.buttons.dpad_right);
    assert!(s.buttons.dpad_down && !s.buttons.dpad_up);
    apply_linux_input(&mut s, InputEvent::AbsoluteAxis { code: ABS_HAT0X, value: 0 }, &ranges, true);
    assert!(!s.buttons.dpad_left && !s.buttons.dpad_right);
}

#[test]
fn other_events_change_nothing() {
    let mut s = XboxControllerState::default();
    s.buttons.a = true;
    let before = s;
    apply_linux_input(&mut s, InputEvent::Other, &HashMap::new(), true);
    assert_eq!(s, before);
}
