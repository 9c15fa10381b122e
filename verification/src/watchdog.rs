//! The watchdog of the input hook.
//!
//! The operating system may switch an input hook off without notice. Once
//! per period the watchdog asks whether the hook is still enabled; if it is
//! not, it tries once to enable it again and reports how that went. A
//! failure is not remembered: the next tick asks and tries again.
//!
//! Asking and enabling are done by the caller. The functions here decide
//! what is done next, from what the caller found.

use vstd::prelude::*;
use crate::events::{UiEvent, UiEventView};

verus! {

/// The time between two ticks of the watchdog, in milliseconds.
pub const WATCHDOG_PERIOD_MS: u64 = 2000;

/// The health of the hook is reported once in this many checks.
pub const STATUS_REPORT_EVERY: u64 = 15;

/// How a tick begins.
#[derive(Clone, Copy, Debug, PartialEq, Eq, Structural)]
pub enum TickStart {
    /// The listener is stopping: the watchdog ends.
    Exit,
    /// No hook is registered: nothing to check in this tick.
    Skip,
    /// Ask the hook whether it is enabled.
    Check,
}

/// What to do once the hook has said whether it is enabled.
#[derive(Clone, Copy, Debug, PartialEq, Eq, Structural)]
pub struct HealthPlan {
    /// Whether this check is one of those whose result is reported.
    pub report_status: bool,
    /// Whether to try, once, to enable the hook again.
    pub reenable: bool,
}

/// How a tick begins for a listener that is or is not stopping and has or
/// has not registered a hook.
pub open spec fn tick_start(stop_requested: bool, hook_registered: bool) -> TickStart {
    if stop_requested {
        TickStart::Exit
    } else if !hook_registered {
        TickStart::Skip
    } else {
        TickStart::Check
    }
}

/// The number of checks after a tick that began with `start`.
pub open spec fn checks_after(checks: u64, start: TickStart) -> u64 {
    if start == TickStart::Check {
        if checks == u64::MAX {
            0
        } else {
            (checks + 1) as u64
        }
    } else {
        checks
    }
}

/// What to do after check number `checks` found the hook enabled or not.
pub open spec fn health_plan(checks: u64, enabled: bool) -> HealthPlan {
    HealthPlan { report_status: checks % STATUS_REPORT_EVERY == 0, reenable: !enabled }
}

/// The event that reports how the attempt to enable the hook went.
pub open spec fn reenable_event(enabled_now: bool) -> UiEventView {
    if enabled_now {
        UiEventView::ListenerRecovered { message: "Hotkey listener recovered"@ }
    } else {
        UiEventView::ListenerError {
            message: "Event tap disabled by system (check Accessibility permissions)"@,
        }
    }
}

/// The number of attempts to enable the hook in one tick, for a hook that is
/// found `enabled` or not.
pub open spec fn reenable_attempts(
    checks: u64,
    stop_requested: bool,
    hook_registered: bool,
    enabled: bool,
) -> nat {
    let start = tick_start(stop_requested, hook_registered);
    if start == TickStart::Check && health_plan(checks_after(checks, start), enabled).reenable {
        1
    } else {
        0
    }
}

/// A hook that is found disabled is tried exactly once per tick, whatever
/// the earlier ticks did, so a failed attempt is tried again by the next
/// tick. The attempt is followed by a recovery event if the hook is enabled
/// afterwards and by an error event if it is not.
pub proof fn lemma_disabled_hook_is_tried_once_per_tick(checks: u64)
    ensures
        reenable_attempts(checks, false, true, false) == 1,
        reenable_attempts(checks, false, true, true) == 0,
        reenable_event(true) is ListenerRecovered,
        reenable_event(false) is ListenerError,
{
}

/// A watchdog that is stopping or has no hook tries nothing.
pub proof fn lemma_no_attempt_without_check(checks: u64, hook_registered: bool, enabled: bool)
    ensures
        reenable_attempts(checks, true, hook_registered, enabled) == 0,
        reenable_attempts(checks, false, false, enabled) == 0,
{
}

/// The watchdog: counts its checks, and keeps nothing else from tick to tick.
#[derive(Clone, Copy, Debug)]
pub struct WatchdogMonitor {
    checks: u64,
}

impl WatchdogMonitor {
    /// The number of checks so far; starts again at zero after `u64::MAX`.
    pub closed spec fn checks(&self) -> u64 {
        self.checks
    }

    /// A watchdog that has checked nothing yet.
    pub fn new() -> (watchdog: WatchdogMonitor)
        ensures
            watchdog.checks() == 0,
    {
        WatchdogMonitor { checks: 0 }
    }

    /// The number of checks so far.
    pub fn check_count(&self) -> (checks: u64)
        ensures
            checks == self.checks(),
    {
        self.checks
    }

    /// Begins a tick: says whether to end, to skip this tick or to ask the
    /// hook, and counts the check in the last case.
    pub fn begin_tick(&mut self, stop_requested: bool, hook_registered: bool) -> (start: TickStart)
        ensures
            start == tick_start(stop_requested, hook_registered),
            final(self).checks() == checks_after(old(self).checks(), start),
    {
        if stop_requested {
            TickStart::Exit
        } else if !hook_registered {
            TickStart::Skip
        } else {
            self.checks = if self.checks == u64::MAX {
                0
            } else {
                self.checks + 1
            };
            TickStart::Check
        }
    }

    /// Takes the answer of the hook to the check that `begin_tick` counted
    /// last, and says what to do about it.
    pub fn on_health(&self, enabled: bool) -> (plan: HealthPlan)
        ensures
            plan == health_plan(self.checks(), enabled),
    {
        HealthPlan { report_status: self.checks % STATUS_REPORT_EVERY == 0, reenable: !enabled }
    }

    /// Takes the state of the hook after the attempt to enable it, and
    /// returns the event that reports it.
    pub fn on_reenabled(&self, enabled_now: bool) -> (event: UiEvent)
        ensures
            event@ == reenable_event(enabled_now),
    {
        if enabled_now {
            UiEvent::ListenerRecovered { message: "Hotkey listener recovered".to_owned() }
        } else {
            UiEvent::ListenerError {
                message: "Event tap disabled by system (check Accessibility permissions)".to_owned(),
            }
        }
    }
}

} // verus!
