use vstd::prelude::*;

verus! {

/// The deadline that a timeout started at `now` sets: `now + timeout`, or
/// none when idle disconnection is disabled.
pub open spec fn deadline_from(now: u64, timeout: Option<u64>) -> Option<u64> {
    match timeout {
        Some(duration) => Some((now + duration) as u64),
        None => None,
    }
}

/// Whether `now + timeout` fits in a tick counter.
pub open spec fn deadline_fits(now: u64, timeout: Option<u64>) -> bool {
    match timeout {
        Some(duration) => now + duration <= u64::MAX,
        None => true,
    }
}

/// The deadline after a report at `now`: held input clears it; changed input,
/// or any report while no deadline runs, restarts it; an unchanged released
/// report leaves it as it was.
pub open spec fn deadline_after_report(
    timeout: Option<u64>,
    deadline: Option<u64>,
    now: u64,
    changed: bool,
    active: bool,
) -> Option<u64> {
    if active {
        None
    } else if changed || deadline is None {
        deadline_from(now, timeout)
    } else {
        deadline
    }
}

/// Whether a report at `now` restarts the idle period.
pub open spec fn report_restarts(deadline: Option<u64>, changed: bool, active: bool) -> bool {
    !active && (changed || deadline is None)
}

/// Whether the idle period has run out at `now`.
pub open spec fn deadline_reached(deadline: Option<u64>, now: u64) -> bool {
    match deadline {
        Some(d) => now >= d,
        None => false,
    }
}

/// Tick-based idle policy, independent of the BLE runtime.
pub struct IdleTimeout {
    timeout: Option<u64>,
    deadline: Option<u64>,
}

impl IdleTimeout {
    /// A disabled timeout never holds a deadline.
    #[verifier::type_invariant]
    spec fn disabled_has_no_deadline(self) -> bool {
        self.timeout is None ==> self.deadline is None
    }

    /// The configured idle duration, if idle disconnection is enabled.
    pub closed spec fn spec_timeout(self) -> Option<u64> {
        self.timeout
    }

    /// The tick at which the controller counts as idle, if one is running.
    pub closed spec fn spec_deadline(self) -> Option<u64> {
        self.deadline
    }

    /// Starts the idle period at `now`.
    pub fn new(now: u64, timeout: Option<u64>) -> (idle: Self)
        requires
            deadline_fits(now, timeout),
        ensures
            idle.spec_timeout() == timeout,
            idle.spec_deadline() == deadline_from(now, timeout),
    {
        let deadline = match timeout {
            Some(duration) => Some(now + duration),
            None => None,
        };
        IdleTimeout { timeout, deadline }
    }

    /// Records a report at `now`: `changed` when it differs from the previous
    /// state, `active` when relevant input is still held.
    pub fn report(&mut self, now: u64, changed: bool, active: bool)
        requires
            report_restarts(old(self).spec_deadline(), changed, active) ==> deadline_fits(
                now,
                old(self).spec_timeout(),
            ),
        ensures
            final(self).spec_timeout() == old(self).spec_timeout(),
            final(self).spec_deadline() == deadline_after_report(
                old(self).spec_timeout(),
                old(self).spec_deadline(),
                now,
                changed,
                active,
            ),
    {
        if active {
            self.deadline = None;
        } else if changed || self.deadline.is_none() {
            let deadline = match self.timeout {
                Some(duration) => Some(now + duration),
                None => None,
            };
            self.deadline = deadline;
        }
    }

    /// The running deadline, if any.
    pub fn deadline(&self) -> (d: Option<u64>)
        ensures
            d == self.spec_deadline(),
    {
        self.deadline
    }

    /// Whether the idle period has run out at `now`. A disabled timeout never
    /// expires.
    pub fn expired(&self, now: u64) -> (b: bool)
        ensures
            b == deadline_reached(self.spec_deadline(), now),
            self.spec_timeout() is None ==> !b,
    {
        proof {
            use_type_invariant(self);
        }
        match self.deadline {
            Some(deadline) => now >= deadline,
            None => false,
        }
    }
}

/// Held input keeps the controller awake: after an active report nothing
/// expires, however long the silence that follows.
pub proof fn lemma_held_input_never_expires(
    timeout: Option<u64>,
    deadline: Option<u64>,
    now: u64,
    changed: bool,
    later: u64,
)
    ensures
        !deadline_reached(deadline_after_report(timeout, deadline, now, changed, true), later),
{
}

/// A changed released report restarts the full idle period: with timeout `d`,
/// the controller is idle at `t` exactly when `t >= now + d`.
pub proof fn lemma_changed_release_restarts_period(
    d: u64,
    deadline: Option<u64>,
    now: u64,
    later: u64,
)
    requires
        now + d <= u64::MAX,
    ensures
        deadline_reached(deadline_after_report(Some(d), deadline, now, true, false), later)
            <==> later >= now + d,
{
}

/// Unchanged released reports do not keep the controller awake: a running
/// deadline stays where it was.
pub proof fn lemma_unchanged_release_keeps_deadline(
    timeout: Option<u64>,
    d: u64,
    now: u64,
)
    ensures
        deadline_after_report(timeout, Some(d), now, false, false) == Some(d),
{
}

/// Once idle, a controller stays idle as time goes on (until a report).
pub proof fn lemma_expiry_is_monotone(deadline: Option<u64>, t1: u64, t2: u64)
    requires
        deadline_reached(deadline, t1),
        t1 <= t2,
    ensures
        deadline_reached(deadline, t2),
{
}

/// With idle disconnection disabled, no report ever starts a deadline.
pub proof fn lemma_disabled_never_starts(
    deadline: Option<u64>,
    now: u64,
    changed: bool,
    active: bool,
)
    requires
        deadline is None,
    ensures
        deadline_after_report(None, deadline, now, changed, active) is None,
{
}

} // verus!
