use vstd::prelude::*;

use std::collections::HashMap;

use crate::state::{XboxButtonState, XboxControllerState, XboxSticks, XboxTriggers};

verus! {

broadcast use vstd::std_specs::hash::group_hash_axioms;

// Linux input-event codes (include/uapi/linux/input-event-codes.h).
/// `BTN_SOUTH` (A).
pub const BTN_SOUTH: u16 = 0x130;
/// `BTN_EAST` (B).
pub const BTN_EAST: u16 = 0x131;
/// `BTN_NORTH` (X on Xbox controllers).
pub const BTN_NORTH: u16 = 0x133;
/// `BTN_WEST` (Y on Xbox controllers).
pub const BTN_WEST: u16 = 0x134;
/// `BTN_TL` (left bumper).
pub const BTN_TL: u16 = 0x136;
/// `BTN_TR` (right bumper).
pub const BTN_TR: u16 = 0x137;
/// `BTN_SELECT` (View).
pub const BTN_SELECT: u16 = 0x13a;
/// `BTN_START` (Menu).
pub const BTN_START: u16 = 0x13b;
/// `BTN_MODE` (Xbox button).
pub const BTN_MODE: u16 = 0x13c;
/// `BTN_THUMBL` (left stick press).
pub const BTN_THUMBL: u16 = 0x13d;
/// `BTN_THUMBR` (right stick press).
pub const BTN_THUMBR: u16 = 0x13e;
/// `BTN_DPAD_UP`.
pub const BTN_DPAD_UP: u16 = 0x220;
/// `BTN_DPAD_DOWN`.
pub const BTN_DPAD_DOWN: u16 = 0x221;
/// `BTN_DPAD_LEFT`.
pub const BTN_DPAD_LEFT: u16 = 0x222;
/// `BTN_DPAD_RIGHT`.
pub const BTN_DPAD_RIGHT: u16 = 0x223;
/// `KEY_RECORD` (Share on some kernels).
pub const KEY_RECORD: u16 = 167;
/// `KEY_F12` (Share on other kernels).
pub const KEY_F12: u16 = 88;

/// `ABS_X`.
pub const ABS_X: u16 = 0x00;
/// `ABS_Y`.
pub const ABS_Y: u16 = 0x01;
/// `ABS_Z`.
pub const ABS_Z: u16 = 0x02;
/// `ABS_RX`.
pub const ABS_RX: u16 = 0x03;
/// `ABS_RY`.
pub const ABS_RY: u16 = 0x04;
/// `ABS_RZ`.
pub const ABS_RZ: u16 = 0x05;
/// `ABS_GAS`.
pub const ABS_GAS: u16 = 0x09;
/// `ABS_BRAKE`.
pub const ABS_BRAKE: u16 = 0x0a;
/// `ABS_HAT0X`.
pub const ABS_HAT0X: u16 = 0x10;
/// `ABS_HAT0Y`.
pub const ABS_HAT0Y: u16 = 0x11;

/// The part of a Linux input event that the controller view reads.
#[derive(Debug, Clone, Copy, PartialEq, Eq, Structural)]
pub enum InputEvent {
    /// A key or button event: its code and value (0 = released).
    Key { code: u16, value: i32 },
    /// An absolute-axis event: its code and position.
    AbsoluteAxis { code: u16, value: i32 },
    /// Any other event type.
    Other,
}

/// `v` limited to `lo..=hi`.
pub open spec fn clamp_int(v: int, lo: int, hi: int) -> int {
    if v < lo {
        lo
    } else if v > hi {
        hi
    } else {
        v
    }
}

/// Whether `maximum - minimum` fits in an `i32` (or the range is empty).
pub open spec fn span_fits(range: (i32, i32)) -> bool {
    range.1 <= range.0 || range.1 - range.0 <= i32::MAX
}

/// A raw axis position scaled from `minimum..=maximum` onto `-32768..=32767`;
/// zero for an empty range.
pub open spec fn stick_value(value: i32, range: (i32, i32)) -> int {
    let (minimum, maximum) = range;
    if maximum <= minimum {
        0
    } else {
        let position = clamp_int(value as int, minimum as int, maximum as int) - minimum;
        let span = maximum - minimum;
        clamp_int(position * 65535 / span - 32768, i16::MIN as int, i16::MAX as int)
    }
}

/// A raw axis position scaled from `minimum..=maximum` onto `0..=1023`; zero
/// for an empty range.
pub open spec fn trigger_value(value: i32, range: (i32, i32)) -> int {
    let (minimum, maximum) = range;
    if maximum <= minimum {
        0
    } else {
        let position = clamp_int(value as int, minimum as int, maximum as int) - minimum;
        let span = maximum - minimum;
        clamp_int(position * 1023 / span, 0, 1023)
    }
}

fn clamp_i32(v: i32, lo: i32, hi: i32) -> (r: i32)
    requires
        lo <= hi,
    ensures
        r == clamp_int(v as int, lo as int, hi as int),
{
    if v < lo {
        lo
    } else if v > hi {
        hi
    } else {
        v
    }
}

fn clamp_i64(v: i64, lo: i64, hi: i64) -> (r: i64)
    requires
        lo <= hi,
    ensures
        r == clamp_int(v as int, lo as int, hi as int),
{
    if v < lo {
        lo
    } else if v > hi {
        hi
    } else {
        v
    }
}

/// Scales a raw stick position from its device range onto `i16`.
pub fn normalize_stick(value: i32, range: (i32, i32)) -> (r: i16)
    requires
        span_fits(range),
    ensures
        r as int == stick_value(value, range),
{
    let (minimum, maximum) = range;
    if maximum <= minimum {
        return 0;
    }
    let position = (clamp_i32(value, minimum, maximum) - minimum) as i64;
    let span = (maximum - minimum) as i64;
    assert(0 <= position * 65535 <= 65535 * 0x7fff_ffff) by (nonlinear_arith)
        requires
            0 <= position <= span <= 0x7fff_ffff,
    ;
    let scaled = position * 65_535 / span;
    clamp_i64(scaled - 32_768, i16::MIN as i64, i16::MAX as i64) as i16
}

/// Scales a raw trigger position from its device range onto `0..=1023`.
pub fn normalize_trigger(value: i32, range: (i32, i32)) -> (r: u16)
    requires
        span_fits(range),
    ensures
        r as int == trigger_value(value, range),
{
    let (minimum, maximum) = range;
    if maximum <= minimum {
        return 0;
    }
    let position = (clamp_i32(value, minimum, maximum) - minimum) as i64;
    let span = (maximum - minimum) as i64;
    assert(0 <= position * 1023 <= 1023 * 0x7fff_ffff) by (nonlinear_arith)
        requires
            0 <= position <= span <= 0x7fff_ffff,
    ;
    let scaled = position * 1023 / span;
    clamp_i64(scaled, 0, 1023) as u16
}


/// The state after a key event: the button that `code` names takes `pressed`;
/// unknown codes change nothing.
pub open spec fn key_applied(state: XboxControllerState, code: u16, pressed: bool) -> XboxControllerState {
    let b = state.buttons;
    let buttons = if code == BTN_SOUTH {
        XboxButtonState { a: pressed, ..b }
    } else if code == BTN_EAST {
        XboxButtonState { b: pressed, ..b }
    } else if code == BTN_NORTH {
        XboxButtonState { x: pressed, ..b }
    } else if code == BTN_WEST {
        XboxButtonState { y: pressed, ..b }
    } else if code == BTN_TL {
        XboxButtonState { lb: pressed, ..b }
    } else if code == BTN_TR {
        XboxButtonState { rb: pressed, ..b }
    } else if code == BTN_SELECT {
        XboxButtonState { view: pressed, ..b }
    } else if code == BTN_START {
        XboxButtonState { menu: pressed, ..b }
    } else if code == BTN_MODE {
        XboxButtonState { xbox: pressed, ..b }
    } else if code == BTN_THUMBL {
        XboxButtonState { left_stick_button: pressed, ..b }
    } else if code == BTN_THUMBR {
        XboxButtonState { right_stick_button: pressed, ..b }
    } else if code == BTN_DPAD_UP {
        XboxButtonState { dpad_up: pressed, ..b }
    } else if code == BTN_DPAD_DOWN {
        XboxButtonState { dpad_down: pressed, ..b }
    } else if code == BTN_DPAD_LEFT {
        XboxButtonState { dpad_left: pressed, ..b }
    } else if code == BTN_DPAD_RIGHT {
        XboxButtonState { dpad_right: pressed, ..b }
    } else if code == KEY_RECORD || code == KEY_F12 {
        XboxButtonState { share: pressed, ..b }
    } else {
        b
    };
    XboxControllerState { buttons, ..state }
}

/// Where an absolute axis goes. On the Xbox BLE layout (which has separate
/// gas and brake axes) `ABS_Z`/`ABS_RZ` are the right stick; otherwise they are
/// the triggers and `ABS_RX`/`ABS_RY` are the right stick.
pub enum AxisTarget {
    LeftX,
    LeftY,
    RightX,
    RightY,
    LeftTrigger,
    RightTrigger,
    HatX,
    HatY,
    Ignored,
}

/// The target of axis `code` under the given layout.
pub open spec fn axis_target(code: u16, xbox_ble_layout: bool) -> AxisTarget {
    if code == ABS_X {
        AxisTarget::LeftX
    } else if code == ABS_Y {
        AxisTarget::LeftY
    } else if code == ABS_Z && xbox_ble_layout {
        AxisTarget::RightX
    } else if code == ABS_RZ && xbox_ble_layout {
        AxisTarget::RightY
    } else if code == ABS_RX && !xbox_ble_layout {
        AxisTarget::RightX
    } else if code == ABS_RY && !xbox_ble_layout {
        AxisTarget::RightY
    } else if code == ABS_Z {
        AxisTarget::LeftTrigger
    } else if code == ABS_RZ {
        AxisTarget::RightTrigger
    } else if code == ABS_BRAKE {
        AxisTarget::LeftTrigger
    } else if code == ABS_GAS {
        AxisTarget::RightTrigger
    } else if code == ABS_HAT0X {
        AxisTarget::HatX
    } else if code == ABS_HAT0Y {
        AxisTarget::HatY
    } else {
        AxisTarget::Ignored
    }
}

/// Whether the axis value is scaled through the device range (sticks and triggers).
pub open spec fn axis_is_scaled(code: u16, xbox_ble_layout: bool) -> bool {
    match axis_target(code, xbox_ble_layout) {
        AxisTarget::HatX | AxisTarget::HatY | AxisTarget::Ignored => false,
        _ => true,
    }
}

/// The device range of an axis: the reported one, or `0..=65535` when unknown.
pub open spec fn range_for(ranges: Map<u16, (i32, i32)>, code: u16) -> (i32, i32) {
    if ranges.contains_key(code) {
        ranges[code]
    } else {
        (0, 65_535)
    }
}

/// The state after an absolute-axis event.
pub open spec fn axis_applied(
    state: XboxControllerState,
    code: u16,
    value: i32,
    range: (i32, i32),
    xbox_ble_layout: bool,
) -> XboxControllerState {
    let s = state.sticks;
    let t = state.triggers;
    let b = state.buttons;
    match axis_target(code, xbox_ble_layout) {
        AxisTarget::LeftX => XboxControllerState {
            sticks: XboxSticks { left_x: stick_value(value, range) as i16, ..s },
            ..state
        },
        AxisTarget::LeftY => XboxControllerState {
            sticks: XboxSticks { left_y: stick_value(value, range) as i16, ..s },
            ..state
        },
        AxisTarget::RightX => XboxControllerState {
            sticks: XboxSticks { right_x: stick_value(value, range) as i16, ..s },
            ..state
        },
        AxisTarget::RightY => XboxControllerState {
            sticks: XboxSticks { right_y: stick_value(value, range) as i16, ..s },
            ..state
        },
        AxisTarget::LeftTrigger => XboxControllerState {
            triggers: XboxTriggers { left: trigger_value(value, range) as u16, ..t },
            ..state
        },
        AxisTarget::RightTrigger => XboxControllerState {
            triggers: XboxTriggers { right: trigger_value(value, range) as u16, ..t },
            ..state
        },
        AxisTarget::HatX => XboxControllerState {
            buttons: XboxButtonState { dpad_left: value < 0, dpad_right: value > 0, ..b },
            ..state
        },
        AxisTarget::HatY => XboxControllerState {
            buttons: XboxButtonState { dpad_up: value < 0, dpad_down: value > 0, ..b },
            ..state
        },
        AxisTarget::Ignored => state,
    }
}

/// The state after any input event.
pub open spec fn input_applied(
    state: XboxControllerState,
    event: InputEvent,
    ranges: Map<u16, (i32, i32)>,
    xbox_ble_layout: bool,
) -> XboxControllerState {
    match event {
        InputEvent::Key { code, value } => key_applied(state, code, value != 0),
        InputEvent::AbsoluteAxis { code, value } => axis_applied(
            state,
            code,
            value,
            range_for(ranges, code),
            xbox_ble_layout,
        ),
        InputEvent::Other => state,
    }
}

/// Whether scaling `event` stays within `i32` arithmetic.
pub open spec fn event_range_fits(
    event: InputEvent,
    ranges: Map<u16, (i32, i32)>,
    xbox_ble_layout: bool,
) -> bool {
    match event {
        InputEvent::AbsoluteAxis { code, .. } => axis_is_scaled(code, xbox_ble_layout) ==> span_fits(
            range_for(ranges, code),
        ),
        _ => true,
    }
}

/// Whether applying `event` stays within `i32` arithmetic: its axis range,
/// when the axis is scaled, spans at most `i32::MAX`.
pub fn scaling_fits(
    event: InputEvent,
    axis_ranges: &HashMap<u16, (i32, i32)>,
    xbox_ble_layout: bool,
) -> (b: bool)
    ensures
        b == event_range_fits(event, axis_ranges@, xbox_ble_layout),
{
    match event {
        InputEvent::AbsoluteAxis { code, .. } => {
            let scaled = code == ABS_X || code == ABS_Y || code == ABS_Z || code == ABS_RZ || code
                == ABS_BRAKE || code == ABS_GAS || (!xbox_ble_layout && (code == ABS_RX || code
                == ABS_RY));
            if !scaled {
                return true;
            }
            let range = match axis_ranges.get(&code) {
                Some(r) => *r,
                None => (0, 65_535),
            };
            let (minimum, maximum) = range;
            maximum <= minimum || (maximum as i64) - (minimum as i64) <= i32::MAX as i64
        },
        _ => true,
    }
}

/// Folds one Linux input event into the controller state.
pub fn apply_linux_input(
    state: &mut XboxControllerState,
    event: InputEvent,
    axis_ranges: &HashMap<u16, (i32, i32)>,
    xbox_ble_layout: bool,
)
    requires
        event_range_fits(event, axis_ranges@, xbox_ble_layout),
    ensures
        *final(state) == input_applied(*old(state), event, axis_ranges@, xbox_ble_layout),
{
    match event {
        InputEvent::Key { code, value } => {
            apply_key(state, code, value != 0);
        },
        InputEvent::AbsoluteAxis { code, value } => {
            let range = match axis_ranges.get(&code) {
                Some(r) => *r,
                None => (0, 65_535),
            };
            assert(range == range_for(axis_ranges@, code));
            apply_axis(state, code, value, range, xbox_ble_layout);
        },
        InputEvent::Other => {},
    }
}

fn apply_key(state: &mut XboxControllerState, code: u16, pressed: bool)
    ensures
        *final(state) == key_applied(*old(state), code, pressed),
{
    if code == BTN_SOUTH {
        state.buttons.a = pressed;
    } else if code == BTN_EAST {
        state.buttons.b = pressed;
    } else if code == BTN_NORTH {
        state.buttons.x = pressed;
    } else if code == BTN_WEST {
        state.buttons.y = pressed;
    } else if code == BTN_TL {
        state.buttons.lb = pressed;
    } else if code == BTN_TR {
        state.buttons.rb = pressed;
    } else if code == BTN_SELECT {
        state.buttons.view = pressed;
    } else if code == BTN_START {
        state.buttons.menu = pressed;
    } else if code == BTN_MODE {
        state.buttons.xbox = pressed;
    } else if code == BTN_THUMBL {
        state.buttons.left_stick_button = pressed;
    } else if code == BTN_THUMBR {
        state.buttons.right_stick_button = pressed;
    } else if code == BTN_DPAD_UP {
        state.buttons.dpad_up = pressed;
    } else if code == BTN_DPAD_DOWN {
        state.buttons.dpad_down = pressed;
    } else if code == BTN_DPAD_LEFT {
        state.buttons.dpad_left = pressed;
    } else if code == BTN_DPAD_RIGHT {
        state.buttons.dpad_right = pressed;
    } else if code == KEY_RECORD || code == KEY_F12 {
        state.buttons.share = pressed;
    }
}

#[verifier::rlimit(40)]
fn apply_axis(
    state: &mut XboxControllerState,
    code: u16,
    value: i32,
    range: (i32, i32),
    xbox_ble_layout: bool,
)
    requires
        axis_is_scaled(code, xbox_ble_layout) ==> span_fits(range),
    ensures
        *final(state) == axis_applied(*old(state), code, value, range, xbox_ble_layout),
{
    if code == ABS_X {
        state.sticks.left_x = normalize_stick(value, range);
    } else if code == ABS_Y {
        state.sticks.left_y = normalize_stick(value, range);
    } else if code == ABS_Z && xbox_ble_layout {
        state.sticks.right_x = normalize_stick(value, range);
    } else if code == ABS_RZ && xbox_ble_layout {
        state.sticks.right_y = normalize_stick(value, range);
    } else if code == ABS_RX && !xbox_ble_layout {
        state.sticks.right_x = normalize_stick(value, range);
    } else if code == ABS_RY && !xbox_ble_layout {
        state.sticks.right_y = normalize_stick(value, range);
    } else if code == ABS_Z {
        state.triggers.left = normalize_trigger(value, range);
    } else if code == ABS_RZ {
        state.triggers.right = normalize_trigger(value, range);
    } else if code == ABS_BRAKE {
        state.triggers.left = normalize_trigger(value, range);
    } else if code == ABS_GAS {
        state.triggers.right = normalize_trigger(value, range);
    } else if code == ABS_HAT0X {
        state.buttons.dpad_left = value < 0;
        state.buttons.dpad_right = value > 0;
    } else if code == ABS_HAT0Y {
        state.buttons.dpad_up = value < 0;
        state.buttons.dpad_down = value > 0;
    }
}

/// A stick at either end of its device range reads as the extreme `i16`
/// values; positions beyond the range read the same as its ends.
pub proof fn lemma_stick_range_ends(range: (i32, i32), beyond: i32)
    requires
        range.0 < range.1,
        span_fits(range),
    ensures
        stick_value(range.0, range) == i16::MIN,
        stick_value(range.1, range) == i16::MAX,
        beyond <= range.0 ==> stick_value(beyond, range) == i16::MIN,
        beyond >= range.1 ==> stick_value(beyond, range) == i16::MAX,
{
    let span: int = range.1 - range.0;
    assert(0int * 65535 / span == 0) by (nonlinear_arith)
        requires
            span > 0,
    ;
    assert(span * 65535 / span == 65535) by (nonlinear_arith)
        requires
            span > 0,
    ;
}

/// A trigger at either end of its device range reads 0 and 1023.
pub proof fn lemma_trigger_range_ends(range: (i32, i32), beyond: i32)
    requires
        range.0 < range.1,
        span_fits(range),
    ensures
        trigger_value(range.0, range) == 0,
        trigger_value(range.1, range) == 1023,
        beyond <= range.0 ==> trigger_value(beyond, range) == 0,
        beyond >= range.1 ==> trigger_value(beyond, range) == 1023,
{
    let span: int = range.1 - range.0;
    assert(0int * 1023 / span == 0) by (nonlinear_arith)
        requires
            span > 0,
    ;
    assert(span * 1023 / span == 1023) by (nonlinear_arith)
        requires
            span > 0,
    ;
}

/// Scaling keeps order: pushing a stick or trigger further never lowers its
/// reading, and readings stay within `i16` and `0..=1023`.
pub proof fn lemma_scaling_is_monotone(range: (i32, i32), v1: i32, v2: i32)
    requires
        v1 <= v2,
    ensures
        stick_value(v1, range) <= stick_value(v2, range),
        trigger_value(v1, range) <= trigger_value(v2, range),
        i16::MIN <= stick_value(v1, range) <= i16::MAX,
        0 <= trigger_value(v1, range) <= 1023,
{
    let (minimum, maximum) = range;
    if minimum < maximum {
        let p1 = clamp_int(v1 as int, minimum as int, maximum as int) - minimum;
        let p2 = clamp_int(v2 as int, minimum as int, maximum as int) - minimum;
        let span = maximum - minimum;
        assert(p1 <= p2);
        vstd::arithmetic::mul::lemma_mul_inequality(p1, p2, 65535);
        vstd::arithmetic::mul::lemma_mul_inequality(p1, p2, 1023);
        vstd::arithmetic::div_mod::lemma_div_is_ordered(p1 * 65535, p2 * 65535, span);
        vstd::arithmetic::div_mod::lemma_div_is_ordered(p1 * 1023, p2 * 1023, span);
    }
}

/// A hat-switch event never leaves opposite D-pad directions pressed on its axis.
pub proof fn lemma_hat_never_opposite(
    state: XboxControllerState,
    code: u16,
    value: i32,
    range: (i32, i32),
    xbox_ble_layout: bool,
)
    ensures
        code == ABS_HAT0X ==> !(axis_applied(state, code, value, range, xbox_ble_layout).buttons.dpad_left
            && axis_applied(state, code, value, range, xbox_ble_layout).buttons.dpad_right),
        code == ABS_HAT0Y ==> !(axis_applied(state, code, value, range, xbox_ble_layout).buttons.dpad_up
            && axis_applied(state, code, value, range, xbox_ble_layout).buttons.dpad_down),
{
}

/// Key events only touch buttons, and an unknown code touches nothing.
pub proof fn lemma_key_events_touch_buttons_only(state: XboxControllerState, code: u16, pressed: bool)
    ensures
        key_applied(state, code, pressed).sticks == state.sticks,
        key_applied(state, code, pressed).triggers == state.triggers,
{
}

/// Which button each Linux key code drives: a key event sets exactly that
/// button to "pressed" (value other than 0) and leaves the rest of the state
/// as it was; Share answers to both `KEY_RECORD` (167) and `KEY_F12` (88);
/// other codes, and events that are neither keys nor axes, change nothing.
pub proof fn lemma_key_codes(
    state: XboxControllerState,
    value: i32,
    code: u16,
    ranges: Map<u16, (i32, i32)>,
    layout: bool,
)
    ensures
        input_applied(state, InputEvent::Key { code: 0x130, value }, ranges, layout) == (XboxControllerState {
            buttons: XboxButtonState { a: value != 0, ..state.buttons },
            ..state
        }),
        input_applied(state, InputEvent::Key { code: 0x131, value }, ranges, layout) == (XboxControllerState {
            buttons: XboxButtonState { b: value != 0, ..state.buttons },
            ..state
        }),
        input_applied(state, InputEvent::Key { code: 0x133, value }, ranges, layout) == (XboxControllerState {
            buttons: XboxButtonState { x: value != 0, ..state.buttons },
            ..state
        }),
        input_applied(state, InputEvent::Key { code: 0x134, value }, ranges, layout) == (XboxControllerState {
            buttons: XboxButtonState { y: value != 0, ..state.buttons },
            ..state
        }),
        input_applied(state, InputEvent::Key { code: 0x136, value }, ranges, layout) == (XboxControllerState {
            buttons: XboxButtonState { lb: value != 0, ..state.buttons },
            ..state
        }),
        input_applied(state, InputEvent::Key { code: 0x137, value }, ranges, layout) == (XboxControllerState {
            buttons: XboxButtonState { rb: value != 0, ..state.buttons },
            ..state
        }),
        input_applied(state, InputEvent::Key { code: 0x13a, value }, ranges, layout) == (XboxControllerState {
            buttons: XboxButtonState { view: value != 0, ..state.buttons },
            ..state
        }),
        input_applied(state, InputEvent::Key { code: 0x13b, value }, ranges, layout) == (XboxControllerState {
            buttons: XboxButtonState { menu: value != 0, ..state.buttons },
            ..state
        }),
        input_applied(state, InputEvent::Key { code: 0x13c, value }, ranges, layout) == (XboxControllerState {
            buttons: XboxButtonState { xbox: value != 0, ..state.buttons },
            ..state
        }),
        input_applied(state, InputEvent::Key { code: 0x13d, value }, ranges, layout) == (XboxControllerState {
            buttons: XboxButtonState { left_stick_button: value != 0, ..state.buttons },
            ..state
        }),
        input_applied(state, InputEvent::Key { code: 0x13e, value }, ranges, layout) == (XboxControllerState {
            buttons: XboxButtonState { right_stick_button: value != 0, ..state.buttons },
            ..state
        }),
        input_applied(state, InputEvent::Key { code: 0x220, value }, ranges, layout) == (XboxControllerState {
            buttons: XboxButtonState { dpad_up: value != 0, ..state.buttons },
            ..state
        }),
        input_applied(state, InputEvent::Key { code: 0x221, value }, ranges, layout) == (XboxControllerState {
            buttons: XboxButtonState { dpad_down: value != 0, ..state.buttons },
            ..state
        }),
        input_applied(state, InputEvent::Key { code: 0x222, value }, ranges, layout) == (XboxControllerState {
            buttons: XboxButtonState { dpad_left: value != 0, ..state.buttons },
            ..state
        }),
        input_applied(state, InputEvent::Key { code: 0x223, value }, ranges, layout) == (XboxControllerState {
            buttons: XboxButtonState { dpad_right: value != 0, ..state.buttons },
            ..state
        }),
        input_applied(state, InputEvent::Key { code: 167, value }, ranges, layout) == (XboxControllerState {
            buttons: XboxButtonState { share: value != 0, ..state.buttons },
            ..state
        }),
        input_applied(state, InputEvent::Key { code: 88, value }, ranges, layout) == (XboxControllerState {
            buttons: XboxButtonState { share: value != 0, ..state.buttons },
            ..state
        }),
        code != 0x130 && code != 0x131 && code != 0x133 && code != 0x134 && code != 0x136 && code != 0x137 && code != 0x13a && code != 0x13b && code != 0x13c && code != 0x13d && code != 0x13e && code != 0x220 && code != 0x221 && code != 0x222 && code != 0x223 && code != 167 && code != 88 ==> input_applied(
            state,
            InputEvent::Key { code, value },
            ranges,
            layout,
        ) == state,
        input_applied(state, InputEvent::Other, ranges, layout) == state,
{
}

/// Which part of the state each absolute axis drives: `ABS_X`/`ABS_Y`
/// (0x00/0x01) the left stick; `ABS_BRAKE` (0x0a) the left trigger and
/// `ABS_GAS` (0x09) the right trigger; on the Xbox BLE layout `ABS_Z`/`ABS_RZ`
/// (0x02/0x05) the right stick and `ABS_RX`/`ABS_RY` (0x03/0x04) nothing,
/// otherwise `ABS_Z`/`ABS_RZ` the left/right trigger and `ABS_RX`/`ABS_RY`
/// the right stick; the hat axes (0x10/0x11) the D-pad directions by sign.
/// Each event sets its one target, scaled through the axis's device range,
/// and leaves everything else as it was.
pub proof fn lemma_axis_codes(
    state: XboxControllerState,
    value: i32,
    ranges: Map<u16, (i32, i32)>,
)
    ensures
        input_applied(state, InputEvent::AbsoluteAxis { code: 0x00, value }, ranges, true) == (XboxControllerState {
            sticks: XboxSticks { left_x: stick_value(value, range_for(ranges, 0x00)) as i16, ..state.sticks },
            ..state
        }),
        input_applied(state, InputEvent::AbsoluteAxis { code: 0x01, value }, ranges, true) == (XboxControllerState {
            sticks: XboxSticks { left_y: stick_value(value, range_for(ranges, 0x01)) as i16, ..state.sticks },
            ..state
        }),
        input_applied(state, InputEvent::AbsoluteAxis { code: 0x0a, value }, ranges, true) == (XboxControllerState {
            triggers: XboxTriggers { left: trigger_value(value, range_for(ranges, 0x0a)) as u16, ..state.triggers },
            ..state
        }),
        input_applied(state, InputEvent::AbsoluteAxis { code: 0x09, value }, ranges, true) == (XboxControllerState {
            triggers: XboxTriggers { right: trigger_value(value, range_for(ranges, 0x09)) as u16, ..state.triggers },
            ..state
        }),
        input_applied(state, InputEvent::AbsoluteAxis { code: 0x00, value }, ranges, false) == (XboxControllerState {
            sticks: XboxSticks { left_x: stick_value(value, range_for(ranges, 0x00)) as i16, ..state.sticks },
            ..state
        }),
        input_applied(state, InputEvent::AbsoluteAxis { code: 0x01, value }, ranges, false) == (XboxControllerState {
            sticks: XboxSticks { left_y: stick_value(value, range_for(ranges, 0x01)) as i16, ..state.sticks },
            ..state
        }),
        input_applied(state, InputEvent::AbsoluteAxis { code: 0x0a, value }, ranges, false) == (XboxControllerState {
            triggers: XboxTriggers { left: trigger_value(value, range_for(ranges, 0x0a)) as u16, ..state.triggers },
            ..state
        }),
        input_applied(state, InputEvent::AbsoluteAxis { code: 0x09, value }, ranges, false) == (XboxControllerState {
            triggers: XboxTriggers { right: trigger_value(value, range_for(ranges, 0x09)) as u16, ..state.triggers },
            ..state
        }),
        input_applied(state, InputEvent::AbsoluteAxis { code: 0x02, value }, ranges, true) == (XboxControllerState {
            sticks: XboxSticks { right_x: stick_value(value, range_for(ranges, 0x02)) as i16, ..state.sticks },
            ..state
        }),
        input_applied(state, InputEvent::AbsoluteAxis { code: 0x05, value }, ranges, true) == (XboxControllerState {
            sticks: XboxSticks { right_y: stick_value(value, range_for(ranges, 0x05)) as i16, ..state.sticks },
            ..state
        }),
        input_applied(state, InputEvent::AbsoluteAxis { code: 0x03, value }, ranges, false) == (XboxControllerState {
            sticks: XboxSticks { right_x: stick_value(value, range_for(ranges, 0x03)) as i16, ..state.sticks },
            ..state
        }),
        input_applied(state, InputEvent::AbsoluteAxis { code: 0x04, value }, ranges, false) == (XboxControllerState {
            sticks: XboxSticks { right_y: stick_value(value, range_for(ranges, 0x04)) as i16, ..state.sticks },
            ..state
        }),
        input_applied(state, InputEvent::AbsoluteAxis { code: 0x02, value }, ranges, false) == (XboxControllerState {
            triggers: XboxTriggers { left: trigger_value(value, range_for(ranges, 0x02)) as u16, ..state.triggers },
            ..state
        }),
        input_applied(state, InputEvent::AbsoluteAxis { code: 0x05, value }, ranges, false) == (XboxControllerState {
            triggers: XboxTriggers { right: trigger_value(value, range_for(ranges, 0x05)) as u16, ..state.triggers },
            ..state
        }),
        input_applied(state, InputEvent::AbsoluteAxis { code: 0x03, value }, ranges, true) == state,
        input_applied(state, InputEvent::AbsoluteAxis { code: 0x04, value }, ranges, true) == state,
        input_applied(state, InputEvent::AbsoluteAxis { code: 0x10, value }, ranges, true) == (XboxControllerState {
            buttons: XboxButtonState { dpad_left: value < 0, dpad_right: value > 0, ..state.buttons },
            ..state
        }),
        input_applied(state, InputEvent::AbsoluteAxis { code: 0x11, value }, ranges, true) == (XboxControllerState {
            buttons: XboxButtonState { dpad_up: value < 0, dpad_down: value > 0, ..state.buttons },
            ..state
        }),
        input_applied(state, InputEvent::AbsoluteAxis { code: 0x10, value }, ranges, false) == (XboxControllerState {
            buttons: XboxButtonState { dpad_left: value < 0, dpad_right: value > 0, ..state.buttons },
            ..state
        }),
        input_applied(state, InputEvent::AbsoluteAxis { code: 0x11, value }, ranges, false) == (XboxControllerState {
            buttons: XboxButtonState { dpad_up: value < 0, dpad_down: value > 0, ..state.buttons },
            ..state
        }),
{
}

/// Full deflection reads as the extremes: with a device range `lo < hi`, a
/// brake or gas event at or beyond `hi` reads 1023 on its trigger and one at
/// or below `lo` reads 0; a stick event at or beyond `hi` reads 32767 and one
/// at or below `lo` reads -32768.
pub proof fn lemma_full_deflection(
    state: XboxControllerState,
    value: i32,
    ranges: Map<u16, (i32, i32)>,
    code: u16,
    layout: bool,
)
    requires
        ranges.contains_key(code),
        ranges[code].0 < ranges[code].1,
        span_fits(ranges[code]),
    ensures
        code == 0x0a && value >= ranges[code].1 ==> input_applied(
            state,
            InputEvent::AbsoluteAxis { code, value },
            ranges,
            layout,
        ).triggers.left == 1023,
        code == 0x09 && value >= ranges[code].1 ==> input_applied(
            state,
            InputEvent::AbsoluteAxis { code, value },
            ranges,
            layout,
        ).triggers.right == 1023,
        code == 0x0a && value <= ranges[code].0 ==> input_applied(
            state,
            InputEvent::AbsoluteAxis { code, value },
            ranges,
            layout,
        ).triggers.left == 0,
        code == 0x00 && value >= ranges[code].1 ==> input_applied(
            state,
            InputEvent::AbsoluteAxis { code, value },
            ranges,
            layout,
        ).sticks.left_x == 32767,
        code == 0x00 && value <= ranges[code].0 ==> input_applied(
            state,
            InputEvent::AbsoluteAxis { code, value },
            ranges,
            layout,
        ).sticks.left_x == -32768,
{
    lemma_trigger_range_ends(ranges[code], value);
    lemma_stick_range_ends(ranges[code], value);
}

} // verus!
