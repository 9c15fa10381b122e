//! The state of the application that its commands read and change.

use vstd::prelude::*;
use vstd::string::*;
use crate::recording::{elapsed_ms, RecordingState};

verus! {

/// What the application knows of itself: whether it listens for the hotkey,
/// whether it records, which model and hotkey are in use, and whether it
/// runs in test mode.
#[derive(Clone, Debug)]
pub struct AppState {
    pub is_listening: bool,
    pub recording: RecordingState,
    pub current_model: String,
    pub current_hotkey: String,
    pub test_mode: bool,
}

impl AppState {
    /// The state of an application that has just started: it neither
    /// listens nor records, no model and no hotkey are set, and test mode
    /// is off.
    pub fn new() -> (state: AppState)
        ensures
            !state.is_listening,
            !state.recording.active(),
            state.recording.started() is None,
            state.current_model@ == Seq::<char>::empty(),
            state.current_hotkey@ == Seq::<char>::empty(),
            !state.test_mode,
    {
        AppState {
            is_listening: false,
            recording: RecordingState::new(),
            current_model: String::new(),
            current_hotkey: String::new(),
            test_mode: false,
        }
    }

    /// Notes whether the application listens for the hotkey.
    pub fn set_listening(&mut self, value: bool)
        ensures
            final(self).is_listening == value,
            final(self).recording == old(self).recording,
            final(self).current_model == old(self).current_model,
            final(self).current_hotkey == old(self).current_hotkey,
            final(self).test_mode == old(self).test_mode,
    {
        self.is_listening = value;
    }

    /// Whether the application listens for the hotkey.
    pub fn get_listening(&self) -> (listening: bool)
        ensures
            listening == self.is_listening,
    {
        self.is_listening
    }

    /// Switches recording on or off at the time `now_ms`. Switching on
    /// notes the time as the start of the recording.
    pub fn set_recording(&mut self, value: bool, now_ms: u64)
        ensures
            final(self).recording.active() == value,
            final(self).recording.started() == if value {
                Some(now_ms)
            } else {
                old(self).recording.started()
            },
            final(self).is_listening == old(self).is_listening,
            final(self).current_model == old(self).current_model,
            final(self).current_hotkey == old(self).current_hotkey,
            final(self).test_mode == old(self).test_mode,
    {
        self.recording.set_recording(value, now_ms);
    }

    /// Whether a recording is running.
    pub fn get_recording(&self) -> (recording: bool)
        ensures
            recording == self.recording.active(),
    {
        self.recording.get_recording()
    }

    /// The time since the latest recording started, at the time `now_ms`;
    /// zero if nothing was recorded yet.
    pub fn get_recording_duration_ms(&self, now_ms: u64) -> (duration: u64)
        ensures
            duration == elapsed_ms(self.recording.started(), now_ms),
    {
        self.recording.get_recording_duration_ms(now_ms)
    }
}

/// The theme to show, given the stored setting, if there is one: the stored
/// theme, or "system" where none is stored.
pub fn get_theme(stored: Option<String>) -> (theme: String)
    ensures
        theme@ == match stored {
            Some(theme) => theme@,
            None => "system"@,
        },
{
    match stored {
        Some(theme) => theme,
        None => "system".to_owned(),
    }
}

} // verus!
