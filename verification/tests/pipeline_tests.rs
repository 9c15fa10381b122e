use transcribble::audio::AudioBuffer;
use transcribble::events::{TranscriptionResult, UiEvent};
use transcribble::hotkey::{HotkeyEvent, HotkeyEventSource, KeyEvent};
use transcribble::pipeline::{
    OutputAction, OutputDispatcher, PipelineState, PollOutcome, TranscriptionPipeline,
    INJECTION_DELAY_MS, POLL_INTERVAL_MS,
};
use transcribble::recording::{relay, RecordingState};

fn error(message: &str) -> UiEvent {
    UiEvent::TranscriptionError { message: message.to_string() }
}

/// One press and release of the key 0x31, with `samples` arriving in between.
fn record(
    source: &mut HotkeyEventSource,
    state: &mut RecordingState,
    buffer: &mut AudioBuffer<f32>,
    pipeline: &mut TranscriptionPipeline,
    pressed_at: u64,
    released_at: u64,
    samples: Vec<f32>,
) -> PollOutcome {
    assert_eq!(pipeline.poll(false, state.get_recording()), PollOutcome::Wait);
    let signal = source.handle(&KeyEvent::key_down(0x31)).unwrap();
    assert_eq!(relay(state, signal, pressed_at), UiEvent::RecordingStarted);
    assert_eq!(pipeline.poll(false, state.get_recording()), PollOutcome::Wait);
    buffer.append(state.get_recording(), samples);
    let signal = source.handle(&KeyEvent::key_up(0x31)).unwrap();
    assert_eq!(relay(state, signal, released_at), UiEvent::RecordingStopped);
    pipeline.poll(false, state.get_recording())
}

#[test]
fn poll_acts_on_the_falling_edge_only() {
    let mut pipeline = TranscriptionPipeline::new(16000);
    assert_eq!(pipeline.current_state(), PipelineState::Idle);
    assert_eq!(pipeline.sample_rate(), 16000);
    assert_eq!(pipeline.poll(false, false), PollOutcome::Wait);
    assert_eq!(pipeline.poll(false, true), PollOutcome::Wait);
    assert_eq!(pipeline.current_state(), PipelineState::Recording);
    assert_eq!(pipeline.poll(false, true), PollOutcome::Wait);
    assert_eq!(pipeline.poll(false, false), PollOutcome::Process);
    assert_eq!(pipeline.current_state(), PipelineState::Idle);
    assert_eq!(pipeline.poll(false, false), PollOutcome::Wait);
}

#[test]
fn poll_stops_on_request() {
    let mut pipeline = TranscriptionPipeline::new(16000);
    assert_eq!(pipeline.poll(false, true), PollOutcome::Wait);
    assert_eq!(pipeline.poll(true, false), PollOutcome::Stop);
    // A stop request is seen before the recording flag is.
    assert_eq!(pipeline.current_state(), PipelineState::Recording);
    assert_eq!(pipeline.poll(true, true), PollOutcome::Stop);
}

#[test]
fn intervals_are_fixed() {
    assert_eq!(POLL_INTERVAL_MS, 50);
    assert_eq!(INJECTION_DELAY_MS, 100);
}

#[test]
fn scenario_recording_is_transcribed() {
    let mut source = HotkeyEventSource::new(0x31);
    let mut state = RecordingState::new();
    let mut buffer: AudioBuffer<f32> = AudioBuffer::new();
    let mut pipeline = TranscriptionPipeline::new(16000);
    // 800 ms of mono audio at 16 kHz.
    let samples = vec![0.25f32; 12800];
    let outcome =
        record(&mut source, &mut state, &mut buffer, &mut pipeline, 1000, 1800, samples.clone());
    assert_eq!(outcome, PollOutcome::Process);
    let duration = state.get_recording_duration_ms(1800);
    assert_eq!(duration, 800);
    let audio = buffer.take_audio();
    assert_eq!(audio.len(), 12800);
    assert_eq!(audio, samples);
    let plan = pipeline.plan_processing(audio.len(), true);
    assert_eq!(plan.events, vec![UiEvent::TranscriptionProcessing]);
    assert_eq!(plan.transcribe, Some(16000));
    let text = "  hello there,   general\tkenobi \n";
    let (event, result) = pipeline.on_transcribed(Ok(text.to_string()), duration);
    let expected = TranscriptionResult {
        text: "hello there,   general\tkenobi".to_string(),
        duration_ms: 800,
        word_count: text.trim().split_whitespace().count(),
    };
    assert_eq!(expected.word_count, 4);
    assert_eq!(event, UiEvent::TranscriptionComplete(expected.clone()));
    assert_eq!(event.name(), "transcription-complete");
    assert_eq!(result, Some(expected));
}

#[test]
fn scenario_no_audio_captured() {
    let mut source = HotkeyEventSource::new(0x31);
    let mut state = RecordingState::new();
    let mut buffer: AudioBuffer<f32> = AudioBuffer::new();
    let mut pipeline = TranscriptionPipeline::new(48000);
    // Press and release within one poll interval: the loop never saw the
    // flag on, so nothing is processed.
    let signal = source.handle(&KeyEvent::key_down(0x31)).unwrap();
    relay(&mut state, signal, 10);
    let signal = source.handle(&KeyEvent::key_up(0x31)).unwrap();
    relay(&mut state, signal, 20);
    assert_eq!(pipeline.poll(false, state.get_recording()), PollOutcome::Wait);
    // Seen by the loop, but without any audio callback in between.
    let outcome = record(&mut source, &mut state, &mut buffer, &mut pipeline, 100, 130, vec![]);
    assert_eq!(outcome, PollOutcome::Process);
    let audio = buffer.take_audio();
    assert!(audio.is_empty());
    let plan = pipeline.plan_processing(audio.len(), true);
    assert_eq!(plan.events, vec![error("No audio captured")]);
    assert_eq!(plan.events[0].name(), "transcription-error");
    assert_eq!(plan.transcribe, None);
    assert_eq!(pipeline.current_state(), PipelineState::Idle);
}

#[test]
fn empty_audio_never_reaches_the_engine() {
    let pipeline = TranscriptionPipeline::new(44100);
    for engine_loaded in [false, true] {
        let plan = pipeline.plan_processing(0, engine_loaded);
        assert_eq!(plan.transcribe, None);
        assert_eq!(plan.events, vec![error("No audio captured")]);
    }
}

#[test]
fn missing_engine_is_reported() {
    let pipeline = TranscriptionPipeline::new(44100);
    let plan = pipeline.plan_processing(1, false);
    assert_eq!(plan.transcribe, None);
    assert_eq!(plan.events, vec![UiEvent::TranscriptionProcessing, error("No model loaded")]);
    let plan = pipeline.plan_processing(1, true);
    assert_eq!(plan.transcribe, Some(44100));
}

#[test]
fn scenario_engine_error_is_reported_and_next_cycle_proceeds() {
    let mut source = HotkeyEventSource::new(0x31);
    let mut state = RecordingState::new();
    let mut buffer: AudioBuffer<f32> = AudioBuffer::new();
    let mut pipeline = TranscriptionPipeline::new(16000);
    let outcome =
        record(&mut source, &mut state, &mut buffer, &mut pipeline, 0, 500, vec![0.0; 8000]);
    assert_eq!(outcome, PollOutcome::Process);
    let audio = buffer.take_audio();
    assert_eq!(pipeline.plan_processing(audio.len(), true).transcribe, Some(16000));
    let (event, result) =
        pipeline.on_transcribed(Err("Transcription failed: out of memory".to_string()), 500);
    assert_eq!(event, error("Transcription failed: out of memory"));
    assert_eq!(event.name(), "transcription-error");
    assert_eq!(result, None);
    assert_eq!(pipeline.current_state(), PipelineState::Idle);
    // The next press and release is processed as usual.
    let outcome =
        record(&mut source, &mut state, &mut buffer, &mut pipeline, 900, 1200, vec![0.0; 4800]);
    assert_eq!(outcome, PollOutcome::Process);
    assert_eq!(state.get_recording_duration_ms(1200), 300);
    assert_eq!(buffer.take_audio().len(), 4800);
    let (event, result) = pipeline.on_transcribed(Ok("second try".to_string()), 300);
    let expected =
        TranscriptionResult { text: "second try".to_string(), duration_ms: 300, word_count: 2 };
    assert_eq!(event, UiEvent::TranscriptionComplete(expected.clone()));
    assert_eq!(result, Some(expected));
}

#[test]
fn silence_is_no_speech() {
    let pipeline = TranscriptionPipeline::new(16000);
    for text in ["", " ", "\n\t  \r\n", "\u{a0}\u{2003}"] {
        let (event, result) = pipeline.on_transcribed(Ok(text.to_string()), 10);
        assert_eq!(event, error("No speech detected"));
        assert_eq!(result, None);
    }
}

#[test]
fn scenario_test_mode_has_no_side_effects() {
    let pipeline = TranscriptionPipeline::new(16000);
    let (event, result) = pipeline.on_transcribed(Ok("testing one two".to_string()), 1500);
    let result = result.unwrap();
    assert_eq!(event, UiEvent::TranscriptionComplete(result.clone()));
    let mut dispatcher = OutputDispatcher::new("base.en".to_string());
    assert!(!dispatcher.get_test_mode());
    dispatcher.set_test_mode(true);
    assert!(dispatcher.get_test_mode());
    assert_eq!(dispatcher.dispatch(&result), Vec::<OutputAction>::new());
}

#[test]
fn dispatch_appends_then_types() {
    let result =
        TranscriptionResult { text: "hello world".to_string(), duration_ms: 1200, word_count: 2 };
    let dispatcher = OutputDispatcher::new("tiny.en".to_string());
    assert_eq!(
        dispatcher.dispatch(&result),
        vec![
            OutputAction::AppendHistory {
                text: "hello world".to_string(),
                duration_ms: 1200,
                model: "tiny.en".to_string(),
            },
            OutputAction::InjectText { text: "hello world".to_string(), delay_ms: 100 },
        ]
    );
}

#[test]
fn dispatch_follows_the_switches() {
    let result = TranscriptionResult { text: "a".to_string(), duration_ms: 1, word_count: 1 };
    let history = OutputAction::AppendHistory {
        text: "a".to_string(),
        duration_ms: 1,
        model: "m".to_string(),
    };
    let typing = OutputAction::InjectText { text: "a".to_string(), delay_ms: 100 };
    for test_mode in [false, true] {
        for history_enabled in [false, true] {
            for auto_type in [false, true] {
                let dispatcher = OutputDispatcher {
                    test_mode,
                    history_enabled,
                    auto_type,
                    model: "m".to_string(),
                };
                let mut expected = Vec::new();
                if !test_mode && history_enabled {
                    expected.push(history.clone());
                }
                if !test_mode && auto_type {
                    expected.push(typing.clone());
                }
                assert_eq!(dispatcher.dispatch(&result), expected);
            }
        }
    }
}

#[test]
fn test_test_mode_default_false() {
    let dispatcher = OutputDispatcher::new(String::new());
    assert!(!dispatcher.get_test_mode());
}

#[test]
fn test_set_and_get_test_mode() {
    let mut dispatcher = OutputDispatcher::new(String::new());

    // Initially false
    assert!(!dispatcher.get_test_mode());

    // Set to true
    dispatcher.set_test_mode(true);
    assert!(dispatcher.get_test_mode());

    // Set back to false
    dispatcher.set_test_mode(false);
    assert!(!dispatcher.get_test_mode());
}

#[test]
fn test_test_mode_skip_history_logic() {
    let result = TranscriptionResult { text: "a b".to_string(), duration_ms: 5, word_count: 2 };
    let mut dispatcher = OutputDispatcher::new("base.en".to_string());
    let appends = |actions: &Vec<OutputAction>| {
        actions.iter().any(|action| matches!(action, OutputAction::AppendHistory { .. }))
    };

    // When test_mode is false, history should be appended
    let history_append_called = appends(&dispatcher.dispatch(&result));
    assert!(history_append_called, "History should be appended when test_mode is false");

    // When test_mode is true, history should NOT be appended
    dispatcher.set_test_mode(true);
    let history_append_called = appends(&dispatcher.dispatch(&result));
    assert!(!history_append_called, "History should NOT be appended when test_mode is true");
}

#[test]
fn recording_state_keeps_the_start_after_the_release() {
    let mut state = RecordingState::new();
    assert!(!state.get_recording());
    assert_eq!(state.started_at(), None);
    assert_eq!(state.get_recording_duration_ms(123), 0);
    state.set_recording(true, 1000);
    assert!(state.get_recording());
    assert_eq!(state.started_at(), Some(1000));
    assert_eq!(state.get_recording_duration_ms(1250), 250);
    state.set_recording(false, 1300);
    assert!(!state.get_recording());
    assert_eq!(state.started_at(), Some(1000));
    assert_eq!(state.get_recording_duration_ms(1300), 300);
    // A start that lies ahead counts as no time at all.
    assert_eq!(state.get_recording_duration_ms(999), 0);
    state.set_recording(true, 5000);
    assert_eq!(state.started_at(), Some(5000));
}

#[test]
fn relay_applies_signals_in_order() {
    let mut state = RecordingState::new();
    let event = relay(&mut state, HotkeyEvent::RecordingStarted, 40);
    assert_eq!(event, UiEvent::RecordingStarted);
    assert_eq!(event.name(), "recording-started");
    assert!(state.get_recording());
    assert_eq!(state.started_at(), Some(40));
    let event = relay(&mut state, HotkeyEvent::RecordingStopped, 90);
    assert_eq!(event, UiEvent::RecordingStopped);
    assert_eq!(event.name(), "recording-stopped");
    assert!(!state.get_recording());
    assert_eq!(state.started_at(), Some(40));
}
