//! The recording state that the hotkey source writes and the processing loop
//! reads, and the relay that applies the source's signals to it.

use vstd::prelude::*;
use crate::events::{UiEvent, UiEventView};
use crate::hotkey::HotkeyEvent;

verus! {

/// Whether a recording is running, and when the latest one started.
///
/// Times are milliseconds on a clock that never runs backwards. The start
/// time is written by each press and stays readable after the release, until
/// the next press replaces it: the processing loop takes the duration of a
/// recording from it once the recording has ended.
#[derive(Clone, Copy, Debug)]
pub struct RecordingState {
    active: bool,
    started_at: Option<u64>,
}

impl RecordingState {
    /// Whether a recording is running.
    pub closed spec fn active(&self) -> bool {
        self.active
    }

    /// When the latest recording started, if there was one.
    pub closed spec fn started(&self) -> Option<u64> {
        self.started_at
    }

    /// A running recording always has a start time.
    pub open spec fn wf(&self) -> bool {
        self.active() ==> self.started() is Some
    }

    /// The state before anything was recorded.
    pub fn new() -> (state: RecordingState)
        ensures
            !state.active(),
            state.started() is None,
            state.wf(),
    {
        RecordingState { active: false, started_at: None }
    }

    /// Switches recording on or off. Switching on notes `now_ms` as the start
    /// time; switching off keeps the start time.
    pub fn set_recording(&mut self, value: bool, now_ms: u64)
        ensures
            final(self).active() == value,
            final(self).started() == if value {
                Some(now_ms)
            } else {
                old(self).started()
            },
            old(self).wf() || value ==> final(self).wf(),
    {
        self.active = value;
        if value {
            self.started_at = Some(now_ms);
        }
    }

    /// Whether a recording is running.
    pub fn get_recording(&self) -> (active: bool)
        ensures
            active == self.active(),
    {
        self.active
    }

    /// When the latest recording started.
    pub fn started_at(&self) -> (started: Option<u64>)
        ensures
            started == self.started(),
    {
        self.started_at
    }

    /// The time since the latest recording started, at the time `now_ms`:
    /// zero if nothing was recorded yet or the start lies after `now_ms`.
    pub fn get_recording_duration_ms(&self, now_ms: u64) -> (duration: u64)
        ensures
            duration == elapsed_ms(self.started(), now_ms),
    {
        match self.started_at {
            Some(start) => if now_ms >= start {
                now_ms - start
            } else {
                0
            },
            None => 0,
        }
    }
}

/// The time from `started` to `now_ms`, zero where there is no start or it
/// lies after `now_ms`.
pub open spec fn elapsed_ms(started: Option<u64>, now_ms: u64) -> u64 {
    match started {
        Some(start) => if now_ms >= start {
            (now_ms - start) as u64
        } else {
            0
        },
        None => 0,
    }
}

/// The event that tells the user interface of a signal.
pub open spec fn relayed_event(signal: HotkeyEvent) -> UiEventView {
    match signal {
        HotkeyEvent::RecordingStarted => UiEventView::RecordingStarted,
        HotkeyEvent::RecordingStopped => UiEventView::RecordingStopped,
    }
}

/// Whether `signal` switches recording on.
pub open spec fn switches_on(signal: HotkeyEvent) -> bool {
    signal == HotkeyEvent::RecordingStarted
}

/// Applies one signal of the hotkey source, received at `now_ms`: updates the
/// recording state and returns the event for the user interface.
pub fn relay(state: &mut RecordingState, signal: HotkeyEvent, now_ms: u64) -> (event: UiEvent)
    ensures
        final(state).active() == switches_on(signal),
        final(state).started() == if switches_on(signal) {
            Some(now_ms)
        } else {
            old(state).started()
        },
        old(state).wf() ==> final(state).wf(),
        event@ == relayed_event(signal),
{
    match signal {
        HotkeyEvent::RecordingStarted => {
            state.set_recording(true, now_ms);
            UiEvent::RecordingStarted
        },
        HotkeyEvent::RecordingStopped => {
            state.set_recording(false, now_ms);
            UiEvent::RecordingStopped
        },
    }
}

} // verus!
