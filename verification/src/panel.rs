use vstd::prelude::*;

use crate::devices::battery_percent;
use crate::error::ParseError;
use crate::report::{parse_input_report, parse_result};
use crate::state::{resting_state, XboxControllerState};

verus! {

/// What the inspector shows of the controller: its latest state, the raw
/// report it came from, the last parse error, and the battery level.
pub struct ControllerPanel {
    pub state: XboxControllerState,
    pub raw_report: Vec<u8>,
    pub report_error: Option<ParseError>,
    pub battery: Option<u8>,
}

impl ControllerPanel {
    /// A panel showing the resting controller, no report and no battery level.
    pub fn new() -> (p: Self)
        ensures
            p.state == resting_state(),
            p.raw_report@.len() == 0,
            p.report_error is None,
            p.battery is None,
    {
        ControllerPanel {
            state: XboxControllerState::default(),
            raw_report: Vec::new(),
            report_error: None,
            battery: None,
        }
    }

    /// Shows a raw input report: a report that parses replaces the state and
    /// clears the error; one that does not keeps the state and records the error.
    pub fn show_report(&mut self, bytes: Vec<u8>)
        ensures
            final(self).raw_report@ == bytes@,
            final(self).battery == old(self).battery,
            match parse_result(bytes@) {
                Ok(s) => final(self).state == s && final(self).report_error is None,
                Err(e) => final(self).state == old(self).state && final(self).report_error == Some(
                    e,
                ),
            },
    {
        match parse_input_report(bytes.as_slice()) {
            Ok(state) => {
                self.state = state;
                self.report_error = None;
            },
            Err(error) => self.report_error = Some(error),
        }
        self.raw_report = bytes;
    }

    /// Shows a battery level, capped at 100%.
    pub fn show_battery(&mut self, level: u8)
        ensures
            final(self).battery == Some(if level > 100 { 100u8 } else { level }),
            final(self).state == old(self).state,
            final(self).raw_report@ == old(self).raw_report@,
            final(self).report_error == old(self).report_error,
    {
        self.battery = Some(battery_percent(level));
    }

    /// Shows the Share button, which Linux reports on a separate device.
    pub fn show_share(&mut self, pressed: bool)
        ensures
            final(self).state.buttons.share == pressed,
            final(self).state.buttons == (crate::state::XboxButtonState {
                share: pressed,
                ..old(self).state.buttons
            }),
            final(self).state.sticks == old(self).state.sticks,
            final(self).state.triggers == old(self).state.triggers,
            final(self).battery == old(self).battery,
            final(self).raw_report@ == old(self).raw_report@,
            final(self).report_error == old(self).report_error,
    {
        self.state.buttons.share = pressed;
    }

    /// Shows a state assembled from Linux input events, clearing any parse error.
    pub fn show_linux_state(&mut self, state: XboxControllerState)
        ensures
            final(self).state == state,
            final(self).report_error is None,
            final(self).battery == old(self).battery,
            final(self).raw_report@ == old(self).raw_report@,
    {
        self.state = state;
        self.report_error = None;
    }

    /// Forgets the battery level of a disconnected controller.
    pub fn controller_disconnected(&mut self)
        ensures
            final(self).battery is None,
            final(self).state == old(self).state,
            final(self).raw_report@ == old(self).raw_report@,
            final(self).report_error == old(self).report_error,
    {
        self.battery = None;
    }
}

} // verus!
