//! The events that the listener shows to a user interface, with their
//! payloads.

use vstd::prelude::*;

verus! {

/// A finished transcription: the trimmed text, how long the key was held,
/// and the number of words in the text.
#[derive(Clone, Debug, PartialEq, Eq)]
pub struct TranscriptionResult {
    pub text: String,
    pub duration_ms: u64,
    pub word_count: usize,
}

/// What a `TranscriptionResult` holds.
pub struct TranscriptionResultView {
    pub text: Seq<char>,
    pub duration_ms: u64,
    pub word_count: usize,
}

impl View for TranscriptionResult {
    type V = TranscriptionResultView;

    open spec fn view(&self) -> TranscriptionResultView {
        TranscriptionResultView {
            text: self.text@,
            duration_ms: self.duration_ms,
            word_count: self.word_count,
        }
    }
}

/// An event for the user interface.
#[derive(Clone, Debug, PartialEq, Eq)]
pub enum UiEvent {
    RecordingStarted,
    RecordingStopped,
    TranscriptionProcessing,
    TranscriptionComplete(TranscriptionResult),
    TranscriptionError { message: String },
    ListenerStarted { hotkey: String, code: u16 },
    ListenerError { message: String },
    ListenerRecovered { message: String },
    PermissionError { permission: String, message: String },
}

/// What a `UiEvent` holds.
pub enum UiEventView {
    RecordingStarted,
    RecordingStopped,
    TranscriptionProcessing,
    TranscriptionComplete(TranscriptionResultView),
    TranscriptionError { message: Seq<char> },
    ListenerStarted { hotkey: Seq<char>, code: u16 },
    ListenerError { message: Seq<char> },
    ListenerRecovered { message: Seq<char> },
    PermissionError { permission: Seq<char>, message: Seq<char> },
}

impl View for UiEvent {
    type V = UiEventView;

    open spec fn view(&self) -> UiEventView {
        match self {
            UiEvent::RecordingStarted => UiEventView::RecordingStarted,
            UiEvent::RecordingStopped => UiEventView::RecordingStopped,
            UiEvent::TranscriptionProcessing => UiEventView::TranscriptionProcessing,
            UiEvent::TranscriptionComplete(result) => UiEventView::TranscriptionComplete(result@),
            UiEvent::TranscriptionError { message } => UiEventView::TranscriptionError {
                message: message@,
            },
            UiEvent::ListenerStarted { hotkey, code } => UiEventView::ListenerStarted {
                hotkey: hotkey@,
                code: *code,
            },
            UiEvent::ListenerError { message } => UiEventView::ListenerError { message: message@ },
            UiEvent::ListenerRecovered { message } => UiEventView::ListenerRecovered {
                message: message@,
            },
            UiEvent::PermissionError { permission, message } => UiEventView::PermissionError {
                permission: permission@,
                message: message@,
            },
        }
    }
}

/// The name under which an event is shown.
pub open spec fn event_name(event: UiEventView) -> Seq<char> {
    match event {
        UiEventView::RecordingStarted => "recording-started"@,
        UiEventView::RecordingStopped => "recording-stopped"@,
        UiEventView::TranscriptionProcessing => "transcription-processing"@,
        UiEventView::TranscriptionComplete(_) => "transcription-complete"@,
        UiEventView::TranscriptionError { .. } => "transcription-error"@,
        UiEventView::ListenerStarted { .. } => "listener-started"@,
        UiEventView::ListenerError { .. } => "listener-error"@,
        UiEventView::ListenerRecovered { .. } => "listener-recovered"@,
        UiEventView::PermissionError { .. } => "permission-error"@,
    }
}

impl UiEvent {
    /// The name under which this event is shown.
    pub fn name(&self) -> (name: &'static str)
        ensures
            name@ == event_name(self@),
    {
        match self {
            UiEvent::RecordingStarted => "recording-started",
            UiEvent::RecordingStopped => "recording-stopped",
            UiEvent::TranscriptionProcessing => "transcription-processing",
            UiEvent::TranscriptionComplete(_) => "transcription-complete",
            UiEvent::TranscriptionError { .. } => "transcription-error",
            UiEvent::ListenerStarted { .. } => "listener-started",
            UiEvent::ListenerError { .. } => "listener-error",
            UiEvent::ListenerRecovered { .. } => "listener-recovered",
            UiEvent::PermissionError { .. } => "permission-error",
        }
    }

    /// A transcription error with the given message.
    pub fn transcription_error(message: &str) -> (event: UiEvent)
        ensures
            event@ == (UiEventView::TranscriptionError { message: message@ }),
    {
        UiEvent::TranscriptionError { message: message.to_owned() }
    }

    /// A listener error with the given message.
    pub fn listener_error(message: &str) -> (event: UiEvent)
        ensures
            event@ == (UiEventView::ListenerError { message: message@ }),
    {
        UiEvent::ListenerError { message: message.to_owned() }
    }
}

/// The views of the events in `events`, in order.
pub open spec fn event_views(events: Seq<UiEvent>) -> Seq<UiEventView> {
    events.map_values(|event: UiEvent| event@)
}

} // verus!
