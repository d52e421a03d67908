use vstd::prelude::*;

use crate::advertisement::ControllerSelector;
use crate::error::ParseError;
use crate::idle::{deadline_after_report, report_restarts};
use crate::report::{parse_input_report, parse_result};
use crate::state::XboxControllerState;

verus! {

/// Interval between zero-power keepalive writes, in milliseconds.
pub const HID_IDLE_KEEPALIVE_INTERVAL_MS: u64 = 10_000;

/// Wait after an idle disconnection before rescanning, in milliseconds.
pub const IDLE_DISCONNECT_COOLDOWN_MS: u64 = 30_000;

/// Wait before rescanning after any other failure or disconnection, in milliseconds.
pub const RETRY_DELAY_MS: u64 = 1_000;

/// Settling pause after scan cancellation and after link establishment, in milliseconds.
pub const SETTLE_DELAY_MS: u64 = 100;

/// Application deadline for pairing, in milliseconds.
pub const PAIRING_DEADLINE_MS: u64 = 20_000;

/// Keepalive output report: selects all four actuators at zero power. A zero
/// selection mask is ignored by Xbox firmware and would not count as host activity.
pub fn idle_keepalive_report() -> (r: [u8; 8])
    ensures
        r@ == seq![0x0fu8, 0, 0, 0, 0, 0, 0, 0],
{
    [0x0f, 0, 0, 0, 0, 0, 0, 0]
}

/// Connection rumble output report (report ID 3 payload): all four motors at
/// 50% power for 0.20 seconds, no repeat.
pub fn connected_pulse() -> (r: [u8; 8])
    ensures
        r@ == seq![0x0fu8, 50, 50, 50, 50, 20, 0, 0],
{
    [0x0f, 50, 50, 50, 50, 20, 0, 0]
}

/// Connection behavior for an Xbox controller.
#[derive(Debug, Clone, Copy, PartialEq, Eq)]
pub struct ControllerConfig {
    /// Which compatible advertising controller may be connected.
    pub selector: ControllerSelector,
    /// Disconnect after this many milliseconds without a changed input report.
    /// `None` keeps the controller awake indefinitely.
    pub idle_disconnect_after: Option<u64>,
    /// BLE connection supervision timeout requested when connecting, in
    /// milliseconds. 500 keeps the earlier default.
    pub supervision_timeout: u64,
}

impl ControllerConfig {
    /// Creates a configuration for the selected controller.
    pub fn new(
        selector: ControllerSelector,
        idle_disconnect_after: Option<u64>,
        supervision_timeout: u64,
    ) -> (c: Self)
        ensures
            c.selector == selector,
            c.idle_disconnect_after == idle_disconnect_after,
            c.supervision_timeout == supervision_timeout,
    {
        ControllerConfig { selector, idle_disconnect_after, supervision_timeout }
    }
}

/// `now + d` when idle disconnection is enabled.
pub open spec fn idle_deadline_from(now: u64, idle_after: Option<u64>) -> Option<u64> {
    match idle_after {
        Some(d) => Some((now + d) as u64),
        None => None,
    }
}

/// Whether `now + d` fits in the tick counter.
pub open spec fn idle_deadline_fits(now: u64, idle_after: Option<u64>) -> bool {
    match idle_after {
        Some(d) => now + d <= u64::MAX,
        None => true,
    }
}

/// The next moment a timer must fire: the earlier of the idle and keepalive deadlines.
pub open spec fn next_wakeup(idle_deadline: Option<u64>, keepalive_deadline: u64) -> u64 {
    match idle_deadline {
        Some(idle) => if idle < keepalive_deadline {
            idle
        } else {
            keepalive_deadline
        },
        None => keepalive_deadline,
    }
}

/// Whether a parse result is a state that differs from the previous one.
pub open spec fn is_new_state(
    parsed: Result<XboxControllerState, ParseError>,
    previous: Option<XboxControllerState>,
) -> bool {
    match parsed {
        Ok(s) => previous != Some(s),
        Err(_) => false,
    }
}

/// What to do when a session timer fires.
#[derive(Debug, Clone, Copy, PartialEq, Eq, Structural)]
pub enum TimerAction {
    /// The controller has been idle too long: end the session for idle disconnection.
    IdleDisconnect,
    /// Write the keepalive report, then call `keepalive_written`; end the
    /// session if the write fails.
    WriteKeepalive,
    /// No output report to write: the keepalive timer was rearmed.
    Rearmed,
}

/// What a report session hands to its user.
#[derive(Debug, Clone, Copy, PartialEq, Eq)]
pub enum ControllerEvent {
    /// The parse result of one input-report notification.
    Report(Result<XboxControllerState, ParseError>),
    /// The controller session ended; `idle` when it ended for idle disconnection.
    SessionDisconnected { idle: bool },
}

/// What a timer firing at `now` means: idle disconnection once the idle
/// deadline has passed, otherwise a keepalive (written when there is an
/// output report to write it to).
pub open spec fn timer_action_of(idle_deadline: Option<u64>, now: u64, has_output_report: bool) -> TimerAction {
    match idle_deadline {
        Some(d) if now >= d => TimerAction::IdleDisconnect,
        _ => if has_output_report {
            TimerAction::WriteKeepalive
        } else {
            TimerAction::Rearmed
        },
    }
}

/// The decisions of one input-report session: idle tracking from changed
/// states and keepalive scheduling.
pub struct ReportSession {
    idle_after: Option<u64>,
    previous_state: Option<XboxControllerState>,
    idle_deadline: Option<u64>,
    keepalive_deadline: u64,
}

impl ReportSession {
    /// The configured idle duration.
    pub closed spec fn spec_idle_after(self) -> Option<u64> {
        self.idle_after
    }

    /// The last successfully parsed state that differed from its predecessor.
    pub closed spec fn spec_previous_state(self) -> Option<XboxControllerState> {
        self.previous_state
    }

    /// When the controller counts as idle, if idle disconnection is enabled.
    pub closed spec fn spec_idle_deadline(self) -> Option<u64> {
        self.idle_deadline
    }

    /// When the next keepalive is due.
    pub closed spec fn spec_keepalive_deadline(self) -> u64 {
        self.keepalive_deadline
    }

    /// Starts a session at `now`.
    pub fn new(now: u64, idle_after: Option<u64>) -> (s: Self)
        requires
            idle_deadline_fits(now, idle_after),
            now + HID_IDLE_KEEPALIVE_INTERVAL_MS <= u64::MAX,
        ensures
            s.spec_idle_after() == idle_after,
            s.spec_previous_state() is None,
            s.spec_idle_deadline() == idle_deadline_from(now, idle_after),
            s.spec_keepalive_deadline() == now + HID_IDLE_KEEPALIVE_INTERVAL_MS,
    {
        let idle_deadline = match idle_after {
            Some(d) => Some(now + d),
            None => None,
        };
        ReportSession {
            idle_after,
            previous_state: None,
            idle_deadline,
            keepalive_deadline: now + HID_IDLE_KEEPALIVE_INTERVAL_MS,
        }
    }

    /// The moment the session's timer should next fire.
    pub fn next_timer(&self) -> (t: u64)
        ensures
            t == next_wakeup(self.spec_idle_deadline(), self.spec_keepalive_deadline()),
    {
        match self.idle_deadline {
            Some(idle) => if idle < self.keepalive_deadline {
                idle
            } else {
                self.keepalive_deadline
            },
            None => self.keepalive_deadline,
        }
    }

    /// Whether the idle period has run out at `now`.
    pub fn idle_expired(&self, now: u64) -> (b: bool)
        ensures
            b == (self.spec_idle_deadline() matches Some(d) && now >= d),
    {
        match self.idle_deadline {
            Some(d) => now >= d,
            None => false,
        }
    }

    /// Decides what a timer firing at `now` means.
    pub fn on_timer(&mut self, now: u64, has_output_report: bool) -> (a: TimerAction)
        requires
            timer_action_of(old(self).spec_idle_deadline(), now, has_output_report)
                == TimerAction::Rearmed ==> now + HID_IDLE_KEEPALIVE_INTERVAL_MS <= u64::MAX,
        ensures
            final(self).spec_idle_after() == old(self).spec_idle_after(),
            final(self).spec_previous_state() == old(self).spec_previous_state(),
            final(self).spec_idle_deadline() == old(self).spec_idle_deadline(),
            a == timer_action_of(old(self).spec_idle_deadline(), now, has_output_report),
            a == TimerAction::Rearmed ==> final(self).spec_keepalive_deadline() == now
                + HID_IDLE_KEEPALIVE_INTERVAL_MS,
            a != TimerAction::Rearmed ==> final(self).spec_keepalive_deadline() == old(
                self,
            ).spec_keepalive_deadline(),
    {
        if let Some(deadline) = self.idle_deadline {
            if now >= deadline {
                return TimerAction::IdleDisconnect;
            }
        }
        if has_output_report {
            TimerAction::WriteKeepalive
        } else {
            self.keepalive_deadline = now + HID_IDLE_KEEPALIVE_INTERVAL_MS;
            TimerAction::Rearmed
        }
    }

    /// Rearms the keepalive timer after a successful keepalive write at `now`.
    pub fn keepalive_written(&mut self, now: u64)
        requires
            now + HID_IDLE_KEEPALIVE_INTERVAL_MS <= u64::MAX,
        ensures
            final(self).spec_idle_after() == old(self).spec_idle_after(),
            final(self).spec_previous_state() == old(self).spec_previous_state(),
            final(self).spec_idle_deadline() == old(self).spec_idle_deadline(),
            final(self).spec_keepalive_deadline() == now + HID_IDLE_KEEPALIVE_INTERVAL_MS,
    {
        self.keepalive_deadline = now + HID_IDLE_KEEPALIVE_INTERVAL_MS;
    }

    /// Whether a notification with `bytes` would restart the idle period in
    /// `on_notification`: it parses to a state other than the previous one.
    pub fn notification_restarts_idle(&self, bytes: &[u8]) -> (b: bool)
        ensures
            b == is_new_state(parse_result(bytes@), self.spec_previous_state()),
    {
        match parse_input_report(bytes) {
            Ok(state) => match self.previous_state {
                Some(previous) => previous != state,
                None => true,
            },
            Err(_) => false,
        }
    }

    /// Whether a notification with `bytes` would restart the idle period in
    /// `on_activity_notification` if its state is not held input: it parses
    /// to a state other than the previous one, or no idle period is running.
    pub fn released_notification_restarts_idle(&self, bytes: &[u8]) -> (b: bool)
        ensures
            b == (parse_result(bytes@) matches Ok(s) && report_restarts(
                self.spec_idle_deadline(),
                self.spec_previous_state() != Some(s),
                false,
            )),
    {
        match parse_input_report(bytes) {
            Ok(state) => {
                let changed = match self.previous_state {
                    Some(previous) => previous != state,
                    None => true,
                };
                changed || self.idle_deadline.is_none()
            },
            Err(_) => false,
        }
    }

    /// Parses a notification received at `now`. A successfully parsed state
    /// that differs from the previous one restarts the idle period; the parse
    /// result is returned for delivery either way.
    pub fn on_notification(&mut self, now: u64, bytes: &[u8]) -> (parsed: Result<
        XboxControllerState,
        ParseError,
    >)
        requires
            is_new_state(parse_result(bytes@), old(self).spec_previous_state())
                ==> idle_deadline_fits(now, old(self).spec_idle_after()),
        ensures
            parsed == parse_result(bytes@),
            final(self).spec_idle_after() == old(self).spec_idle_after(),
            final(self).spec_keepalive_deadline() == old(self).spec_keepalive_deadline(),
            is_new_state(parsed, old(self).spec_previous_state()) ==> {
                &&& final(self).spec_previous_state() == Some(parsed->Ok_0)
                &&& final(self).spec_idle_deadline() == idle_deadline_from(
                    now,
                    old(self).spec_idle_after(),
                )
            },
            !is_new_state(parsed, old(self).spec_previous_state()) ==> {
                &&& final(self).spec_previous_state() == old(self).spec_previous_state()
                &&& final(self).spec_idle_deadline() == old(self).spec_idle_deadline()
            },
    {
        let parsed = parse_input_report(bytes);
        if let Ok(state) = parsed {
            let changed = match self.previous_state {
                Some(previous) => previous != state,
                None => true,
            };
            if changed {
                self.previous_state = Some(state);
                self.idle_deadline =
                    match self.idle_after {
                        Some(d) => Some(now + d),
                        None => None,
                    };
            }
        }
        parsed
    }

    /// Parses a notification received at `now` and decides idle tracking
    /// with an activity predicate: a state that `is_active` counts as held
    /// input suspends idle disconnection; a released state restarts the idle
    /// period when it differs from the previous one, or when the period was
    /// suspended. The parse result is handed out as a report event.
    pub fn on_activity_notification<F: Fn(&XboxControllerState) -> bool>(
        &mut self,
        now: u64,
        bytes: &[u8],
        is_active: &F,
    ) -> (event: ControllerEvent)
        requires
            forall|s: XboxControllerState| #[trigger] is_active.requires((&s,)),
            parse_result(bytes@) matches Ok(s) && report_restarts(
                old(self).spec_idle_deadline(),
                old(self).spec_previous_state() != Some(s),
                false,
            ) ==> idle_deadline_fits(now, old(self).spec_idle_after()),
        ensures
            event == ControllerEvent::Report(parse_result(bytes@)),
            final(self).spec_idle_after() == old(self).spec_idle_after(),
            final(self).spec_keepalive_deadline() == old(self).spec_keepalive_deadline(),
            parse_result(bytes@) is Err ==> {
                &&& final(self).spec_previous_state() == old(self).spec_previous_state()
                &&& final(self).spec_idle_deadline() == old(self).spec_idle_deadline()
            },
            parse_result(bytes@) matches Ok(s) ==> {
                &&& final(self).spec_previous_state() == Some(s)
                &&& exists|active: bool|
                    #[trigger] is_active.ensures((&s,), active) && final(self).spec_idle_deadline()
                        == deadline_after_report(
                        old(self).spec_idle_after(),
                        old(self).spec_idle_deadline(),
                        now,
                        old(self).spec_previous_state() != Some(s),
                        active,
                    )
            },
    {
        let parsed = parse_input_report(bytes);
        if let Ok(state) = parsed {
            let changed = match self.previous_state {
                Some(previous) => previous != state,
                None => true,
            };
            let active = is_active(&state);
            if active {
                self.idle_deadline = None;
            } else if changed || self.idle_deadline.is_none() {
                self.idle_deadline =
                    match self.idle_after {
                        Some(d) => Some(now + d),
                        None => None,
                    };
            }
            self.previous_state = Some(state);
            assert(is_active.ensures((&state,), active));
        }
        ControllerEvent::Report(parsed)
    }
}

/// The session timer never sleeps past a deadline: it fires no later than
/// the keepalive deadline nor than the idle deadline.
pub proof fn lemma_wakeup_precedes_deadlines(idle_deadline: Option<u64>, keepalive_deadline: u64)
    ensures
        next_wakeup(idle_deadline, keepalive_deadline) <= keepalive_deadline,
        idle_deadline matches Some(d) ==> next_wakeup(idle_deadline, keepalive_deadline) <= d,
        next_wakeup(idle_deadline, keepalive_deadline) == keepalive_deadline || idle_deadline
            == Some(next_wakeup(idle_deadline, keepalive_deadline)),
{
}

/// A controller that keeps repeating its last state, or sends unparsable
/// notifications, does not restart the idle period.
pub proof fn lemma_repeats_do_not_restart(state: XboxControllerState, error: ParseError)
    ensures
        !is_new_state(Ok(state), Some(state)),
        forall|previous: Option<XboxControllerState>| !is_new_state(Err(error), previous),
{
}

/// The controller is disconnected for idleness exactly when the idle period
/// has passed since the last changed report (or the session start): with
/// idle time `d`, a timer at `later` disconnects iff `later >= t + d`. With
/// idle disconnection disabled it never does.
pub proof fn lemma_idle_disconnect_after_quiet_period(t: u64, d: u64, later: u64, has_output_report: bool)
    requires
        t + d <= u64::MAX,
    ensures
        (timer_action_of(idle_deadline_from(t, Some(d)), later, has_output_report)
            == TimerAction::IdleDisconnect) <==> later >= t + d,
        timer_action_of(idle_deadline_from(t, None), later, has_output_report)
            != TimerAction::IdleDisconnect,
{
}

/// Held input suspends idle disconnection: after a report whose state the
/// activity predicate counts as held, no timer disconnects for idleness,
/// however long the silence that follows.
pub proof fn lemma_held_input_suspends_idle_disconnect(
    idle_after: Option<u64>,
    deadline: Option<u64>,
    now: u64,
    changed: bool,
    later: u64,
    has_output_report: bool,
)
    ensures
        timer_action_of(
            deadline_after_report(idle_after, deadline, now, changed, true),
            later,
            has_output_report,
        ) != TimerAction::IdleDisconnect,
{
}

/// Releasing held input starts the full idle period: the first released
/// report after held input (changed or not), with idle time `d`, makes a
/// timer at `later` disconnect exactly when `later >= now + d`.
pub proof fn lemma_release_after_hold_starts_idle_period(
    d: u64,
    now: u64,
    changed: bool,
    later: u64,
    has_output_report: bool,
)
    requires
        now + d <= u64::MAX,
    ensures
        (timer_action_of(
            deadline_after_report(Some(d), None, now, changed, false),
            later,
            has_output_report,
        ) == TimerAction::IdleDisconnect) <==> later >= now + d,
{
}

/// Which reports restart the idle period in `on_notification`: any parsed
/// state that differs from the previous one in any field (buttons, sticks or
/// triggers), and the first parsed state of a session; never a repeat of the
/// previous state nor a parse error. A restart at `now` with idle time `d`
/// moves the deadline to `now + d`; with idle disconnection disabled there is
/// no deadline.
pub proof fn lemma_changed_reports_restart_idle(
    previous: XboxControllerState,
    state: XboxControllerState,
    error: ParseError,
    now: u64,
    d: u64,
)
    ensures
        previous != state ==> is_new_state(Ok(state), Some(previous)),
        previous.sticks != state.sticks ==> is_new_state(Ok(state), Some(previous)),
        previous.triggers != state.triggers ==> is_new_state(Ok(state), Some(previous)),
        previous.buttons != state.buttons ==> is_new_state(Ok(state), Some(previous)),
        is_new_state(Ok(state), None),
        !is_new_state(Ok(state), Some(state)),
        !is_new_state(Err(error), Some(previous)),
        !is_new_state(Err(error), None),
        now + d <= u64::MAX ==> (idle_deadline_from(now, Some(d)) matches Some(t) && t == now + d),
        idle_deadline_from(now, None) is None,
{
}

/// How a session timer is read: it disconnects for idleness exactly when an
/// idle deadline is set and reached; otherwise it writes a keepalive when
/// there is an output report to write it to, and only rearms when there is
/// none. The timer is set for the earlier of the two deadlines.
pub proof fn lemma_timer_rules(
    idle_deadline: Option<u64>,
    keepalive_deadline: u64,
    now: u64,
    has_output_report: bool,
)
    ensures
        (timer_action_of(idle_deadline, now, has_output_report) == TimerAction::IdleDisconnect)
            <==> (idle_deadline matches Some(d) && now >= d),
        (timer_action_of(idle_deadline, now, has_output_report) == TimerAction::WriteKeepalive)
            <==> (!(idle_deadline matches Some(d) && now >= d) && has_output_report),
        (timer_action_of(idle_deadline, now, has_output_report) == TimerAction::Rearmed) <==> (!(
        idle_deadline matches Some(d) && now >= d) && !has_output_report),
        idle_deadline matches Some(d) ==> next_wakeup(idle_deadline, keepalive_deadline) == (if d
            <= keepalive_deadline {
            d
        } else {
            keepalive_deadline
        }),
        idle_deadline is None ==> next_wakeup(idle_deadline, keepalive_deadline)
            == keepalive_deadline,
{
}

} // verus!
