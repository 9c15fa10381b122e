//! The processing loop and the output dispatcher.
//!
//! The loop looks at the recording flag once per poll interval and acts on
//! one change only: the end of a recording. It then drains the audio
//! buffer, has the audio transcribed unless there is none, and hands a
//! finished transcription to the dispatcher.
//!
//! Draining, transcribing, typing and writing are done by the caller. The
//! functions here decide what is done next, from what the caller found.

use vstd::prelude::*;
use vstd::string::*;
use crate::events::{
    event_views,
    TranscriptionResult,
    TranscriptionResultView,
    UiEvent,
    UiEventView,
};
use crate::text::{trim, trim_spec, word_count, word_count_spec};

verus! {

/// The time between two looks at the recording flag, in milliseconds.
pub const POLL_INTERVAL_MS: u64 = 50;

/// The time to wait after a key release before text is typed, in
/// milliseconds, so that typing does not run into the release itself.
pub const INJECTION_DELAY_MS: u64 = 100;

/// The state of the loop: what it saw of the recording flag last.
#[derive(Clone, Copy, Debug, PartialEq, Eq, Structural)]
pub enum PipelineState {
    /// The flag was off.
    Idle,
    /// The flag was on.
    Recording,
}

/// What the loop does after a look at the flags.
#[derive(Clone, Copy, Debug, PartialEq, Eq, Structural)]
pub enum PollOutcome {
    /// The listener is stopping: the loop ends.
    Stop,
    /// Nothing to do until the next poll.
    Wait,
    /// A recording has just ended: process it.
    Process,
}

/// The state that matches the recording flag.
pub open spec fn state_of(recording: bool) -> PipelineState {
    if recording {
        PipelineState::Recording
    } else {
        PipelineState::Idle
    }
}

/// What the loop does in the state `state` when it sees the two flags.
pub open spec fn poll_outcome(state: PipelineState, stop_requested: bool, recording: bool)
    -> PollOutcome {
    if stop_requested {
        PollOutcome::Stop
    } else if state == PipelineState::Recording && !recording {
        PollOutcome::Process
    } else {
        PollOutcome::Wait
    }
}

/// The state of the loop after it saw the two flags.
pub open spec fn state_after_poll(state: PipelineState, stop_requested: bool, recording: bool)
    -> PipelineState {
    if stop_requested {
        state
    } else {
        state_of(recording)
    }
}

/// What to do with the audio of a recording that has ended.
#[derive(Clone, Debug, PartialEq, Eq)]
pub struct ProcessingPlan {
    /// The events to show, in order.
    pub events: Vec<UiEvent>,
    /// The sample rate to hand to the transcription engine together with the
    /// audio, or `None` if the engine is not to be called.
    pub transcribe: Option<u32>,
}

/// The events of the plan for `samples` drained samples.
pub open spec fn planned_events(samples: int, engine_loaded: bool) -> Seq<UiEventView> {
    if samples == 0 {
        seq![UiEventView::TranscriptionError { message: "No audio captured"@ }]
    } else if !engine_loaded {
        seq![
            UiEventView::TranscriptionProcessing,
            UiEventView::TranscriptionError { message: "No model loaded"@ },
        ]
    } else {
        seq![UiEventView::TranscriptionProcessing]
    }
}

/// Whether the engine is called for `samples` drained samples.
pub open spec fn engine_is_called(samples: int, engine_loaded: bool) -> bool {
    samples > 0 && engine_loaded
}

/// The event for what the engine returned for a recording of `duration_ms`.
pub open spec fn transcribed_event(outcome: Result<Seq<char>, Seq<char>>, duration_ms: u64)
    -> UiEventView {
    match outcome {
        Ok(text) => match completed_result(text, duration_ms) {
            Some(result) => UiEventView::TranscriptionComplete(result),
            None => UiEventView::TranscriptionError { message: "No speech detected"@ },
        },
        Err(message) => UiEventView::TranscriptionError { message },
    }
}

/// The result for the text that the engine returned: the trimmed text with
/// the number of its words, or `None` if nothing is left after trimming.
pub open spec fn completed_result(text: Seq<char>, duration_ms: u64) -> Option<
    TranscriptionResultView,
> {
    let trimmed = trim_spec(text);
    if trimmed.len() == 0 {
        None
    } else {
        Some(
            TranscriptionResultView {
                text: trimmed,
                duration_ms,
                word_count: word_count_spec(trimmed) as usize,
            },
        )
    }
}

/// The result that follows what the engine returned, if a transcription was
/// completed.
pub open spec fn transcribed_result(outcome: Result<Seq<char>, Seq<char>>, duration_ms: u64)
    -> Option<TranscriptionResultView> {
    match outcome {
        Ok(text) => completed_result(text, duration_ms),
        Err(_) => None,
    }
}

/// The processing loop.
#[derive(Clone, Copy, Debug)]
pub struct TranscriptionPipeline {
    state: PipelineState,
    sample_rate: u32,
}

impl TranscriptionPipeline {
    /// What the loop saw of the recording flag last.
    pub closed spec fn state(&self) -> PipelineState {
        self.state
    }

    /// The sample rate of the audio source.
    pub closed spec fn source_rate(&self) -> u32 {
        self.sample_rate
    }

    /// A loop for audio of the sample rate `sample_rate`, which starts idle.
    pub fn new(sample_rate: u32) -> (pipeline: TranscriptionPipeline)
        ensures
            pipeline.state() == PipelineState::Idle,
            pipeline.source_rate() == sample_rate,
    {
        TranscriptionPipeline { state: PipelineState::Idle, sample_rate }
    }

    /// What the loop saw of the recording flag last.
    pub fn current_state(&self) -> (state: PipelineState)
        ensures
            state == self.state(),
    {
        self.state
    }

    /// The sample rate of the audio source.
    pub fn sample_rate(&self) -> (rate: u32)
        ensures
            rate == self.source_rate(),
    {
        self.sample_rate
    }

    /// Takes one look at the flags. The end of a recording, and nothing
    /// else, asks for processing; a stop request ends the loop before the
    /// recording flag is looked at.
    pub fn poll(&mut self, stop_requested: bool, recording: bool) -> (outcome: PollOutcome)
        ensures
            outcome == poll_outcome(old(self).state(), stop_requested, recording),
            final(self).state() == state_after_poll(old(self).state(), stop_requested, recording),
            final(self).source_rate() == old(self).source_rate(),
    {
        if stop_requested {
            return PollOutcome::Stop;
        }
        let was_recording = match self.state {
            PipelineState::Recording => true,
            PipelineState::Idle => false,
        };
        self.state = if recording {
            PipelineState::Recording
        } else {
            PipelineState::Idle
        };
        if was_recording && !recording {
            PollOutcome::Process
        } else {
            PollOutcome::Wait
        }
    }

    /// Decides what to do with the drained audio, given the number of
    /// samples in it and whether a transcription engine is loaded.
    ///
    /// Without samples the engine is never called, and the missing audio is
    /// reported. With samples, processing is announced; the engine is then
    /// called with the source's sample rate, or its absence is reported.
    pub fn plan_processing(&self, samples: usize, engine_loaded: bool) -> (plan: ProcessingPlan)
        ensures
            event_views(plan.events@) == planned_events(samples as int, engine_loaded),
            plan.transcribe == if engine_is_called(samples as int, engine_loaded) {
                Some(self.source_rate())
            } else {
                None
            },
    {
        let mut events: Vec<UiEvent> = Vec::new();
        if samples == 0 {
            events.push(UiEvent::transcription_error("No audio captured"));
            assert(event_views(events@) =~= planned_events(samples as int, engine_loaded));
            return ProcessingPlan { events, transcribe: None };
        }
        events.push(UiEvent::TranscriptionProcessing);
        if !engine_loaded {
            events.push(UiEvent::transcription_error("No model loaded"));
            assert(event_views(events@) =~= planned_events(samples as int, engine_loaded));
            return ProcessingPlan { events, transcribe: None };
        }
        assert(event_views(events@) =~= planned_events(samples as int, engine_loaded));
        ProcessingPlan { events, transcribe: Some(self.sample_rate) }
    }

    /// Takes what the engine returned for a recording that lasted
    /// `duration_ms`: the text, or the message of its error.
    ///
    /// Returns the event to show and, where a transcription was completed,
    /// its result for the dispatcher. Text that is empty after trimming
    /// means that nothing was said; an error of the engine is reported with
    /// its message. Nothing is tried again.
    pub fn on_transcribed(&self, outcome: Result<String, String>, duration_ms: u64) -> (done: (
        UiEvent,
        Option<TranscriptionResult>,
    ))
        ensures
            done.0@ == transcribed_event(outcome_view(outcome), duration_ms),
            match transcribed_result(outcome_view(outcome), duration_ms) {
                Some(result) => done.1 is Some && done.1->0@ == result,
                None => done.1 is None,
            },
    {
        match outcome {
            Ok(text) => {
                let trimmed = trim(text.as_str());
                if trimmed.as_str().unicode_len() == 0 {
                    (UiEvent::transcription_error("No speech detected"), None)
                } else {
                    let words = word_count(trimmed.as_str());
                    let shown = TranscriptionResult {
                        text: trimmed.clone(),
                        duration_ms,
                        word_count: words,
                    };
                    let result = TranscriptionResult {
                        text: trimmed,
                        duration_ms,
                        word_count: words,
                    };
                    (UiEvent::TranscriptionComplete(shown), Some(result))
                }
            },
            Err(message) => (UiEvent::TranscriptionError { message }, None),
        }
    }
}

/// What the engine returned, by the characters of the text or the message.
pub open spec fn outcome_view(outcome: Result<String, String>) -> Result<Seq<char>, Seq<char>> {
    match outcome {
        Ok(text) => Ok(text@),
        Err(message) => Err(message@),
    }
}

/// One thing the dispatcher asks for.
#[derive(Clone, Debug, PartialEq, Eq)]
pub enum OutputAction {
    /// Append the transcription to the history.
    AppendHistory { text: String, duration_ms: u64, model: String },
    /// Wait `delay_ms` milliseconds, then type the text into the application
    /// in front.
    InjectText { text: String, delay_ms: u64 },
}

/// What an `OutputAction` holds.
pub enum OutputActionView {
    AppendHistory { text: Seq<char>, duration_ms: u64, model: Seq<char> },
    InjectText { text: Seq<char>, delay_ms: u64 },
}

impl View for OutputAction {
    type V = OutputActionView;

    open spec fn view(&self) -> OutputActionView {
        match self {
            OutputAction::AppendHistory { text, duration_ms, model } => {
                OutputActionView::AppendHistory {
                    text: text@,
                    duration_ms: *duration_ms,
                    model: model@,
                }
            },
            OutputAction::InjectText { text, delay_ms } => OutputActionView::InjectText {
                text: text@,
                delay_ms: *delay_ms,
            },
        }
    }
}

/// The views of the actions in `actions`, in order.
pub open spec fn action_views(actions: Seq<OutputAction>) -> Seq<OutputActionView> {
    actions.map_values(|action: OutputAction| action@)
}

/// The consumers of a finished transcription, and the test mode that keeps
/// all of them off.
#[derive(Clone, Debug, PartialEq, Eq)]
pub struct OutputDispatcher {
    /// In test mode nothing is written and nothing is typed.
    pub test_mode: bool,
    /// Whether transcriptions go to the history.
    pub history_enabled: bool,
    /// Whether transcriptions are typed into the application in front.
    pub auto_type: bool,
    /// The name of the model, noted with each history entry.
    pub model: String,
}

/// What `OutputDispatcher` holds.
pub struct OutputDispatcherView {
    pub test_mode: bool,
    pub history_enabled: bool,
    pub auto_type: bool,
    pub model: Seq<char>,
}

impl View for OutputDispatcher {
    type V = OutputDispatcherView;

    open spec fn view(&self) -> OutputDispatcherView {
        OutputDispatcherView {
            test_mode: self.test_mode,
            history_enabled: self.history_enabled,
            auto_type: self.auto_type,
            model: self.model@,
        }
    }
}

/// The actions for one finished transcription: the history first, then the
/// typing, each only if it is switched on and test mode is off.
pub open spec fn dispatched(dispatcher: OutputDispatcherView, result: TranscriptionResultView)
    -> Seq<OutputActionView> {
    let history = if !dispatcher.test_mode && dispatcher.history_enabled {
        seq![
            OutputActionView::AppendHistory {
                text: result.text,
                duration_ms: result.duration_ms,
                model: dispatcher.model,
            },
        ]
    } else {
        Seq::empty()
    };
    let typing = if !dispatcher.test_mode && dispatcher.auto_type {
        seq![OutputActionView::InjectText { text: result.text, delay_ms: INJECTION_DELAY_MS }]
    } else {
        Seq::empty()
    };
    history + typing
}

/// In test mode a finished transcription has no effect besides its event.
pub proof fn lemma_test_mode_has_no_side_effects(
    dispatcher: OutputDispatcherView,
    result: TranscriptionResultView,
)
    requires
        dispatcher.test_mode,
    ensures
        dispatched(dispatcher, result) == Seq::<OutputActionView>::empty(),
{
    assert(dispatched(dispatcher, result) =~= Seq::<OutputActionView>::empty());
}

impl OutputDispatcher {
    /// A dispatcher that writes the history and types, for the model `model`.
    pub fn new(model: String) -> (dispatcher: OutputDispatcher)
        ensures
            dispatcher@ == (OutputDispatcherView {
                test_mode: false,
                history_enabled: true,
                auto_type: true,
                model: model@,
            }),
    {
        OutputDispatcher { test_mode: false, history_enabled: true, auto_type: true, model }
    }

    /// Switches test mode on or off.
    pub fn set_test_mode(&mut self, enabled: bool)
        ensures
            final(self)@ == (OutputDispatcherView { test_mode: enabled, ..old(self)@ }),
    {
        self.test_mode = enabled;
    }

    /// Whether test mode is on.
    pub fn get_test_mode(&self) -> (enabled: bool)
        ensures
            enabled == self@.test_mode,
    {
        self.test_mode
    }

    /// Lists what is to be done with a finished transcription. The caller
    /// does it in order; a failure of one action is reported and does not
    /// keep the next from being tried.
    pub fn dispatch(&self, result: &TranscriptionResult) -> (actions: Vec<OutputAction>)
        ensures
            action_views(actions@) == dispatched(self@, result@),
    {
        let mut actions: Vec<OutputAction> = Vec::new();
        if !self.test_mode && self.history_enabled {
            actions.push(
                OutputAction::AppendHistory {
                    text: result.text.clone(),
                    duration_ms: result.duration_ms,
                    model: self.model.clone(),
                },
            );
        }
        if !self.test_mode && self.auto_type {
            actions.push(
                OutputAction::InjectText { text: result.text.clone(), delay_ms: INJECTION_DELAY_MS },
            );
        }
        assert(action_views(actions@) =~= dispatched(self@, result@));
        actions
    }
}

} // verus!
