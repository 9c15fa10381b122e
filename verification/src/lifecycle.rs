//! Start and stop of the listener as a whole.
//!
//! One pair of flags governs the listener: `started`, which makes a second
//! start a no-op, and `should_stop`, which the processing loop and the
//! watchdog look at once per cycle. A stop raises `should_stop`, waits for a
//! grace period so that both can see it, and then resets the two flags
//! together, which makes the listener ready for a fresh start.

use vstd::prelude::*;

verus! {

/// How long a stop waits, in milliseconds, for the loops to see the request.
pub const STOP_GRACE_MS: u64 = 100;

/// The flags that govern start and stop of the listener.
#[derive(Clone, Copy, Debug)]
pub struct ListenerLifecycleFlags {
    started: bool,
    should_stop: bool,
}

impl ListenerLifecycleFlags {
    /// Whether a listener is started.
    pub closed spec fn started(&self) -> bool {
        self.started
    }

    /// Whether the loops are asked to stop.
    pub closed spec fn stop_requested(&self) -> bool {
        self.should_stop
    }

    /// The flags of a listener that was never started.
    pub fn new() -> (flags: ListenerLifecycleFlags)
        ensures
            !flags.started(),
            !flags.stop_requested(),
    {
        ListenerLifecycleFlags { started: false, should_stop: false }
    }

    /// Whether a listener is started.
    pub fn is_started(&self) -> (started: bool)
        ensures
            started == self.started(),
    {
        self.started
    }

    /// Whether the loops are asked to stop.
    pub fn should_stop(&self) -> (stop: bool)
        ensures
            stop == self.stop_requested(),
    {
        self.should_stop
    }

    /// Claims the start. Returns `true` if no listener was started, and the
    /// caller is to start one; `false` if one is started already, and the
    /// caller is to do nothing. Either way the listener counts as started
    /// afterwards.
    pub fn try_start(&mut self) -> (claimed: bool)
        ensures
            claimed == !old(self).started(),
            final(self).started(),
            final(self).stop_requested() == old(self).stop_requested(),
    {
        let was_started = self.started;
        self.started = true;
        !was_started
    }

    /// Gives a claimed start back after the input hook could not be set up,
    /// so that a later start is tried afresh.
    pub fn abort_start(&mut self)
        ensures
            !final(self).started(),
            final(self).stop_requested() == old(self).stop_requested(),
    {
        self.started = false;
    }

    /// First half of a stop: asks the loops to stop. Returns the grace
    /// period, in milliseconds, to wait before `finish_stop`.
    pub fn begin_stop(&mut self) -> (grace_ms: u64)
        ensures
            final(self).stop_requested(),
            final(self).started() == old(self).started(),
            grace_ms == STOP_GRACE_MS,
    {
        self.should_stop = true;
        STOP_GRACE_MS
    }

    /// Second half of a stop: resets both flags together.
    pub fn finish_stop(&mut self)
        ensures
            !final(self).started(),
            !final(self).stop_requested(),
    {
        self.started = false;
        self.should_stop = false;
    }
}

} // verus!
