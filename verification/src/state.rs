use vstd::prelude::*;

verus! {

/// Digital button state from one Xbox controller report.
#[derive(Debug, Clone, Copy, PartialEq, Eq, Structural)]
pub struct XboxButtonState {
    pub a: bool,
    pub b: bool,
    pub x: bool,
    pub y: bool,
    pub dpad_up: bool,
    pub dpad_down: bool,
    pub dpad_left: bool,
    pub dpad_right: bool,
    pub lb: bool,
    pub rb: bool,
    pub view: bool,
    pub menu: bool,
    pub xbox: bool,
    pub left_stick_button: bool,
    pub right_stick_button: bool,
    pub share: bool,
}

/// Stick positions centered around zero.
#[derive(Debug, Clone, Copy, PartialEq, Eq, Structural)]
pub struct XboxSticks {
    pub left_x: i16,
    pub left_y: i16,
    pub right_x: i16,
    pub right_y: i16,
}

/// Analog trigger values, normally in the range `0..=1023`.
#[derive(Debug, Clone, Copy, PartialEq, Eq, Structural)]
pub struct XboxTriggers {
    pub left: u16,
    pub right: u16,
}

/// The controller state represented by one BLE HID input notification.
#[derive(Debug, Clone, Copy, PartialEq, Eq, Structural)]
pub struct XboxControllerState {
    pub buttons: XboxButtonState,
    pub sticks: XboxSticks,
    pub triggers: XboxTriggers,
}

/// No button pressed.
pub open spec fn released_buttons() -> XboxButtonState {
    XboxButtonState {
        a: false,
        b: false,
        x: false,
        y: false,
        dpad_up: false,
        dpad_down: false,
        dpad_left: false,
        dpad_right: false,
        lb: false,
        rb: false,
        view: false,
        menu: false,
        xbox: false,
        left_stick_button: false,
        right_stick_button: false,
        share: false,
    }
}

/// Both sticks centered.
pub open spec fn centered_sticks() -> XboxSticks {
    XboxSticks { left_x: 0, left_y: 0, right_x: 0, right_y: 0 }
}

/// Both triggers released.
pub open spec fn released_triggers() -> XboxTriggers {
    XboxTriggers { left: 0, right: 0 }
}

/// The resting controller: nothing pressed, sticks centered, triggers released.
pub open spec fn resting_state() -> XboxControllerState {
    XboxControllerState {
        buttons: released_buttons(),
        sticks: centered_sticks(),
        triggers: released_triggers(),
    }
}

impl Default for XboxButtonState {
    fn default() -> (s: Self)
        ensures
            s == released_buttons(),
    {
        XboxButtonState {
            a: false,
            b: false,
            x: false,
            y: false,
            dpad_up: false,
            dpad_down: false,
            dpad_left: false,
            dpad_right: false,
            lb: false,
            rb: false,
            view: false,
            menu: false,
            xbox: false,
            left_stick_button: false,
            right_stick_button: false,
            share: false,
        }
    }
}

impl Default for XboxSticks {
    fn default() -> (s: Self)
        ensures
            s == centered_sticks(),
    {
        XboxSticks { left_x: 0, left_y: 0, right_x: 0, right_y: 0 }
    }
}

impl Default for XboxTriggers {
    fn default() -> (s: Self)
        ensures
            s == released_triggers(),
    {
        XboxTriggers { left: 0, right: 0 }
    }
}

impl Default for XboxControllerState {
    fn default() -> (s: Self)
        ensures
            s == resting_state(),
    {
        XboxControllerState {
            buttons: XboxButtonState::default(),
            sticks: XboxSticks::default(),
            triggers: XboxTriggers::default(),
        }
    }
}

} // verus!
