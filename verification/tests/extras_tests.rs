use transcribble::audio::AudioBuffer;
use transcribble::cli::{
    check_use_model, is_confirmation, is_yes, needs_setup, proposed_hotkey_index,
    proposed_model_index, reconfigure, resolve_run_settings, shown_count, transcription_stats,
    RECOMMENDED_MODEL_INDEX,
};
use transcribble::config::{Config, HistoryConfig, OutputConfig};
use transcribble::download::{
    download_failed_message, plan_download, DownloadPlan, DownloadProgress,
};
use transcribble::engine::{
    engine_error, join_segments, needs_resample, EngineStep, ENGINE_SAMPLE_RATE,
};
use transcribble::history::{Timestamp, TranscriptionEntry};
use transcribble::listing::{has_history_extension, list_history_files, sorts_before};
use transcribble::records::{
    get_history, get_statistics, history_record, matching, search_history, text_contains,
    text_counts, HistoryTotals, ModelRecord, TextCounts, TranscriptionRecord,
};
use transcribble::state::{get_theme, AppState};

fn entry(text: &str, duration_ms: u64, secs: i64) -> TranscriptionEntry {
    TranscriptionEntry::new(
        text.to_string(),
        duration_ms,
        "base.en".to_string(),
        Timestamp { secs, nanos: 0 },
    )
}

fn strings(names: &[&str]) -> Vec<String> {
    names.iter().map(|n| n.to_string()).collect()
}

#[test]
fn frames_are_mixed_to_mono() {
    let mean = |frame: &[f32]| frame.iter().sum::<f32>() / frame.len() as f32;
    let mut buffer: AudioBuffer<f32> = AudioBuffer::new();
    // Stereo: one sample per frame, the mean of its channels.
    buffer.append_frames(true, &[0.5, 0.25, -1.0, 1.0, 0.125, 0.375], 2, mean);
    assert_eq!(buffer.len(), 3);
    // Nothing is kept while idle.
    buffer.append_frames(false, &[1.0, 1.0], 2, mean);
    // Samples after the last whole frame are dropped.
    buffer.append_frames(true, &[0.5, 0.5, 0.75], 2, mean);
    // Mono: every sample is a frame.
    buffer.append_frames(true, &[0.0625, 0.03125], 1, mean);
    assert_eq!(buffer.take_audio(), vec![0.375, 0.0, 0.25, 0.5, 0.0625, 0.03125]);
}

#[test]
fn frames_of_integer_samples_are_converted() {
    let to_float = |frame: &[i16]| {
        frame.iter().map(|&s| s as f32 / 32768.0).sum::<f32>() / frame.len() as f32
    };
    let mut buffer: AudioBuffer<f32> = AudioBuffer::new();
    buffer.append_frames(true, &[16384i16, -16384, 32767, 32767, 0, 0], 3, to_float);
    assert_eq!(buffer.len(), 2);
    let audio = buffer.take_audio();
    assert!((audio[0] - 0.33333).abs() < 0.001);
    assert!((audio[1] - 0.33333).abs() < 0.001);
}

#[test]
fn history_files_have_the_extension_jsonl() {
    assert!(has_history_extension("transcriptions-2024-01.jsonl"));
    assert!(has_history_extension("a.jsonl"));
    assert!(has_history_extension("..jsonl"));
    assert!(has_history_extension("a.b.jsonl"));
    assert!(!has_history_extension(".jsonl"));
    assert!(!has_history_extension("jsonl"));
    assert!(!has_history_extension("a.json"));
    assert!(!has_history_extension("a.jsonl.bak"));
    assert!(!has_history_extension("a.JSONL"));
    assert!(!has_history_extension(""));
    assert!(!has_history_extension("ajsonl"));
    for name in ["a.jsonl", ".jsonl", "x.jsonl.gz", "notes.txt", "..jsonl", "\u{e9}.jsonl"] {
        let expected = std::path::Path::new(name).extension().map(|e| e == "jsonl").unwrap_or(false);
        assert_eq!(has_history_extension(name), expected, "{}", name);
    }
}

#[test]
fn names_are_ordered_by_their_bytes() {
    assert!(sorts_before("a", "b"));
    assert!(!sorts_before("b", "a"));
    assert!(!sorts_before("a", "a"));
    assert!(sorts_before("", "a"));
    assert!(!sorts_before("a", ""));
    assert!(!sorts_before("", ""));
    assert!(sorts_before("abc", "abd"));
    assert!(sorts_before("ab", "abc"));
    assert!(sorts_before("Z", "a"));
    assert!(sorts_before("z", "\u{e9}"));
    let names = ["", "a", "ab", "b", "B", "10", "9", "\u{e9}", "e\u{301}", "transcriptions-2024-01.jsonl"];
    for a in names {
        for b in names {
            assert_eq!(sorts_before(a, b), a < b, "{:?} {:?}", a, b);
        }
    }
}

#[test]
fn history_files_are_listed_newest_first() {
    let names = strings(&[
        "transcriptions-2024-01.jsonl",
        "notes.txt",
        "transcriptions-2024-03.jsonl",
        ".jsonl",
        "transcriptions-2023-12.jsonl",
        "transcriptions-2024-02.jsonl",
        "transcriptions-2024-02.jsonl.bak",
    ]);
    assert_eq!(
        list_history_files(&names),
        strings(&[
            "transcriptions-2024-03.jsonl",
            "transcriptions-2024-02.jsonl",
            "transcriptions-2024-01.jsonl",
            "transcriptions-2023-12.jsonl",
        ])
    );
    assert_eq!(list_history_files(&Vec::new()), Vec::<String>::new());
    assert_eq!(list_history_files(&strings(&["readme"])), Vec::<String>::new());
    let mut expected = strings(&["b.jsonl", "a.jsonl", "c.jsonl", "aa.jsonl"]);
    let listed = list_history_files(&expected);
    expected.sort_by(|a, b| b.cmp(a));
    assert_eq!(listed, expected);
}

#[test]
fn run_settings_prefer_the_command_line() {
    let mut stored = Config::new("/m/base.bin".to_string(), "base".to_string(), "F1".to_string());
    stored.output.verbose = true;
    stored.history = HistoryConfig { enabled: false, max_entries: 7 };
    let settings = resolve_run_settings(Some(stored.clone()), None, None, false).unwrap();
    assert_eq!(settings.config, stored);
    assert_eq!(settings.model_path, "/m/base.bin");
    assert_eq!(settings.hotkey, "F1");
    assert_eq!(settings.model_name, "base");
    assert!(settings.verbose);
    let settings = resolve_run_settings(
        Some(stored.clone()),
        Some("/tmp/other.bin".to_string()),
        Some("F9".to_string()),
        false,
    )
    .unwrap();
    assert_eq!(settings.config, stored);
    assert_eq!(settings.model_path, "/tmp/other.bin");
    assert_eq!(settings.hotkey, "F9");
    // The name stays that of the configured model.
    assert_eq!(settings.model_name, "base");
}

#[test]
fn run_without_a_stored_config_needs_a_model() {
    let settings =
        resolve_run_settings(None, Some("/tmp/m.bin".to_string()), None, true).unwrap();
    assert_eq!(
        settings.config,
        Config::new("/tmp/m.bin".to_string(), "custom".to_string(), "RightAlt".to_string())
    );
    assert_eq!(settings.model_path, "/tmp/m.bin");
    assert_eq!(settings.hotkey, "RightAlt");
    assert_eq!(settings.model_name, "custom");
    assert!(settings.verbose);
    let settings = resolve_run_settings(
        None,
        Some("/tmp/m.bin".to_string()),
        Some("LeftShift".to_string()),
        false,
    )
    .unwrap();
    assert_eq!(settings.config.input.hotkey, "LeftShift");
    assert_eq!(settings.hotkey, "LeftShift");
    assert!(!settings.verbose);
    assert_eq!(
        resolve_run_settings(None, None, Some("F1".to_string()), true),
        Err("No configuration found. Run 'transcribble setup' or provide --model flag."
            .to_string())
    );
}

#[test]
fn setup_comes_first_without_config_and_model() {
    assert!(needs_setup(false, false));
    assert!(!needs_setup(true, false));
    assert!(!needs_setup(false, true));
    assert!(!needs_setup(true, true));
}

#[test]
fn only_y_confirms() {
    for input in ["y", "Y", " y\n", "\tY \r\n"] {
        assert!(is_confirmation(input), "{:?}", input);
    }
    for input in ["", "n", "yes", "y y", "N", "\n"] {
        assert!(!is_confirmation(input), "{:?}", input);
    }
    assert!(is_yes("y"));
    assert!(!is_yes("Y"));
    assert!(!is_yes(" y"));
}

#[test]
fn a_model_in_use_must_be_downloaded_and_configured() {
    assert_eq!(check_use_model("small", true, true), Ok(()));
    assert_eq!(
        check_use_model("small", false, true),
        Err("Model 'small' is not downloaded. Run 'transcribble models --download small' first."
            .to_string())
    );
    assert_eq!(
        check_use_model("small", false, false),
        Err("Model 'small' is not downloaded. Run 'transcribble models --download small' first."
            .to_string())
    );
    assert_eq!(
        check_use_model("small", true, false),
        Err("No configuration found. Run 'transcribble setup' first.".to_string())
    );
}

#[test]
fn selection_lists_propose_the_current_choice() {
    assert_eq!(RECOMMENDED_MODEL_INDEX, 2);
    assert_eq!(proposed_model_index(Some("base.en"), 0), 2);
    assert_eq!(proposed_model_index(Some("tiny.en"), 2), 0);
    assert_eq!(proposed_model_index(Some("medium"), 2), 7);
    assert_eq!(proposed_model_index(Some("custom"), 2), 2);
    assert_eq!(proposed_model_index(Some("custom"), 0), 0);
    assert_eq!(proposed_model_index(None, 2), 2);
    assert_eq!(proposed_hotkey_index(Some("RightAlt")), 0);
    assert_eq!(proposed_hotkey_index(Some("Function")), 6);
    assert_eq!(proposed_hotkey_index(Some("F12")), 18);
    assert_eq!(proposed_hotkey_index(Some("Fn")), 0);
    assert_eq!(proposed_hotkey_index(None), 0);
}

#[test]
fn reconfiguring_keeps_the_other_settings() {
    let mut existing = Config::new("/m/a.bin".to_string(), "a".to_string(), "F1".to_string());
    existing.output = OutputConfig {
        show_word_count: false,
        show_duration: true,
        auto_type: false,
        verbose: true,
    };
    existing.history = HistoryConfig { enabled: false, max_entries: 5 };
    let config = reconfigure(
        Some(existing.clone()),
        "/m/b.bin".to_string(),
        "b".to_string(),
        "F2".to_string(),
    );
    assert_eq!(config.model.path, "/m/b.bin");
    assert_eq!(config.model.name, "b");
    assert_eq!(config.input.hotkey, "F2");
    assert_eq!(config.output, existing.output);
    assert_eq!(config.history, existing.history);
    let config = reconfigure(None, "/m/b.bin".to_string(), "b".to_string(), "F2".to_string());
    assert_eq!(config, Config::new("/m/b.bin".to_string(), "b".to_string(), "F2".to_string()));
}

#[test]
fn stats_follow_the_switches() {
    let both = OutputConfig::default();
    assert_eq!(transcription_stats(&both, "3.5s", "two words"), Some("3.5s, 2 words".to_string()));
    let duration_only = OutputConfig { show_word_count: false, ..both };
    assert_eq!(transcription_stats(&duration_only, "3.5s", "two words"), Some("3.5s".to_string()));
    let words_only = OutputConfig { show_duration: false, ..both };
    assert_eq!(transcription_stats(&words_only, "3.5s", "just one "), Some("2 words".to_string()));
    assert_eq!(transcription_stats(&words_only, "3.5s", ""), Some("0 words".to_string()));
    let neither = OutputConfig { show_duration: false, show_word_count: false, ..both };
    assert_eq!(transcription_stats(&neither, "3.5s", "two words"), None);
    assert_eq!(shown_count(3, 10), 3);
    assert_eq!(shown_count(10, 10), 10);
    assert_eq!(shown_count(12, 10), 10);
}

#[test]
fn records_carry_the_entry() {
    let e = entry("h\u{e9}llo world", 2500, 1_704_067_200);
    let record = history_record(3, &e, "stamp".to_string());
    assert_eq!(
        record,
        TranscriptionRecord {
            id: 3,
            timestamp: "stamp".to_string(),
            text: "h\u{e9}llo world".to_string(),
            duration_ms: 2500,
            word_count: 2,
            // Bytes, not characters.
            character_count: 12,
            keystrokes_saved: 12,
            model_name: "base.en".to_string(),
        }
    );
}

#[test]
fn history_is_shown_with_written_times() {
    let entries = vec![entry("newest", 100, 1_704_067_200), entry("older", 200, 0)];
    let records = get_history(&entries).unwrap();
    assert_eq!(records.len(), 2);
    assert_eq!(records[0].id, 0);
    assert_eq!(records[0].timestamp, "2024-01-01T00:00:00+00:00");
    assert_eq!(records[0].text, "newest");
    assert_eq!(records[1].id, 1);
    assert_eq!(records[1].timestamp, "1970-01-01T00:00:00+00:00");
    assert_eq!(records[1].duration_ms, 200);
    let with_nanos = TranscriptionEntry::new(
        "n".to_string(),
        1,
        "m".to_string(),
        Timestamp { secs: 1_704_067_200, nanos: 123_456_789 },
    );
    assert_eq!(
        get_history(&vec![with_nanos]).unwrap()[0].timestamp,
        "2024-01-01T00:00:00.123456789+00:00"
    );
    assert_eq!(get_history(&Vec::new()), Some(Vec::new()));
    // A time beyond every calendar cannot be written.
    assert_eq!(get_history(&vec![entry("x", 1, 0), entry("y", 1, i64::MAX)]), None);
}

#[test]
fn text_is_searched_for_the_query() {
    assert!(text_contains("hello world", "lo w"));
    assert!(text_contains("hello world", "hello world"));
    assert!(text_contains("hello world", ""));
    assert!(text_contains("", ""));
    assert!(text_contains("hello", "o"));
    assert!(text_contains("hello", "h"));
    assert!(!text_contains("hello world", "worlds"));
    assert!(!text_contains("", "a"));
    assert!(!text_contains("aab", "abb"));
    assert!(text_contains("aaab", "aab"));
    assert!(text_contains("caf\u{e9} au lait", "\u{e9} au"));
    for text in ["", "a", "abcabd", "aaaa", "the quick brown fox"] {
        for needle in ["", "a", "abd", "aa", "aaaaa", "quick", "fox", "x "] {
            assert_eq!(text_contains(text, needle), text.contains(needle), "{:?} {:?}", text, needle);
        }
    }
}

#[test]
fn search_ignores_letter_case() {
    let entries = vec![
        entry("Hello world", 1000, 30),
        entry("Goodbye world", 1000, 20),
        entry("HELLO there", 1000, 10),
    ];
    let found = matching(&entries, "hello");
    assert_eq!(found, vec![entries[0].clone(), entries[2].clone()]);
    assert_eq!(matching(&entries, "WORLD").len(), 2);
    assert_eq!(matching(&entries, "").len(), 3);
    assert_eq!(matching(&entries, "nothing").len(), 0);
    let records = search_history(&entries, "Hello").unwrap();
    assert_eq!(records.len(), 2);
    assert_eq!(records[0].id, 0);
    assert_eq!(records[0].text, "Hello world");
    assert_eq!(records[1].id, 1);
    assert_eq!(records[1].text, "HELLO there");
    assert_eq!(records[1].timestamp, "1970-01-01T00:00:10+00:00");
}

#[test]
fn totals_are_added_up() {
    let entries = vec![entry("Hello world", 1000, 2), entry("Testing one two three", 2000, 1)];
    assert_eq!(
        get_statistics(&entries),
        Some(HistoryTotals {
            total_transcriptions: 2,
            total_words: 6,
            total_duration_ms: 3000,
            total_keystrokes_saved: 32,
        })
    );
    assert_eq!(
        get_statistics(&Vec::new()),
        Some(HistoryTotals {
            total_transcriptions: 0,
            total_words: 0,
            total_duration_ms: 0,
            total_keystrokes_saved: 0,
        })
    );
    // A total that does not fit is no total.
    let long = vec![entry("a", u64::MAX / 2, 0), entry("b", 1, 0)];
    assert_eq!(get_statistics(&long), None);
    let fits = vec![entry("a", u64::MAX / 2 - 1, 0), entry("b", 1, 0)];
    assert_eq!(get_statistics(&fits).unwrap().total_duration_ms, i64::MAX);
}

#[test]
fn model_rows_mark_the_model_in_use() {
    let record = ModelRecord::from_row(
        "base.en".to_string(),
        "ggml-base.en.bin".to_string(),
        148_000_000,
        Some("2024-01-01 00:00:00".to_string()),
        1,
    );
    assert!(record.is_active);
    assert_eq!(record.name, "base.en");
    assert_eq!(record.filename, "ggml-base.en.bin");
    assert_eq!(record.size_bytes, 148_000_000);
    assert_eq!(record.downloaded_at, Some("2024-01-01 00:00:00".to_string()));
    let record = ModelRecord::from_row("tiny".to_string(), "ggml-tiny.bin".to_string(), 1, None, 0);
    assert!(!record.is_active);
    let record = ModelRecord::from_row("tiny".to_string(), "ggml-tiny.bin".to_string(), 1, None, -3);
    assert!(record.is_active);
}

#[test]
fn downloads_are_planned_from_the_catalog() {
    let files = strings(&["ggml-tiny.bin", "config.toml"]);
    assert_eq!(
        plan_download("base.en", "/home/u/.transcribble", &files),
        Ok(DownloadPlan {
            url: "https://huggingface.co/ggerganov/whisper.cpp/resolve/main/ggml-base.en.bin"
                .to_string(),
            path: "/home/u/.transcribble/ggml-base.en.bin".to_string(),
            already_present: false,
        })
    );
    assert_eq!(
        plan_download("tiny", "/home/u/.transcribble", &files),
        Ok(DownloadPlan {
            url: "https://huggingface.co/ggerganov/whisper.cpp/resolve/main/ggml-tiny.bin"
                .to_string(),
            path: "/home/u/.transcribble/ggml-tiny.bin".to_string(),
            already_present: true,
        })
    );
    assert_eq!(
        plan_download("huge", "/home/u/.transcribble", &files),
        Err("Unknown model: huge. Available models: tiny.en, tiny, base.en, base, small.en, small, medium.en, medium".to_string())
    );
    assert_eq!(download_failed_message("404 Not Found"), "Failed to download: HTTP 404 Not Found");
}

#[test]
fn download_progress_counts_chunks() {
    let mut progress = DownloadProgress::new(Some(1000));
    assert_eq!(progress, DownloadProgress { downloaded: 0, total: 1000 });
    progress.advance(300);
    progress.advance(0);
    progress.advance(700);
    assert_eq!(progress, DownloadProgress { downloaded: 1000, total: 1000 });
    assert_eq!(DownloadProgress::new(None), DownloadProgress { downloaded: 0, total: 0 });
}

#[test]
fn engine_takes_sixteen_kilohertz() {
    assert_eq!(ENGINE_SAMPLE_RATE, 16000);
    assert!(!needs_resample(16000));
    assert!(needs_resample(44100));
    assert!(needs_resample(48000));
    assert!(needs_resample(0));
}

#[test]
fn segments_are_joined_in_order() {
    assert_eq!(join_segments(&strings(&[" Hello", " world.", "", " Bye"])), " Hello world. Bye");
    assert_eq!(join_segments(&Vec::new()), "");
}

#[test]
fn engine_failures_are_worded() {
    assert_eq!(
        engine_error(EngineStep::LoadModel, "file not found"),
        "Failed to load Whisper model: file not found"
    );
    assert_eq!(engine_error(EngineStep::CreateState, "oom"), "Failed to create Whisper state: oom");
    assert_eq!(engine_error(EngineStep::Run, "bad audio"), "Transcription failed: bad audio");
    assert_eq!(engine_error(EngineStep::CountSegments, "x"), "Failed to get segments: x");
    assert_eq!(engine_error(EngineStep::Segment(0), "x"), "Failed to get segment 0: x");
    assert_eq!(engine_error(EngineStep::Segment(12), "null"), "Failed to get segment 12: null");
}

#[test]
fn app_state_starts_idle() {
    let mut state = AppState::new();
    assert!(!state.get_listening());
    assert!(!state.get_recording());
    assert!(!state.test_mode);
    assert_eq!(state.current_model, "");
    assert_eq!(state.current_hotkey, "");
    assert_eq!(state.get_recording_duration_ms(50), 0);
    state.set_listening(true);
    assert!(state.get_listening());
    state.set_recording(true, 100);
    assert!(state.get_recording());
    assert_eq!(state.get_recording_duration_ms(350), 250);
    state.set_recording(false, 400);
    assert!(!state.get_recording());
    assert_eq!(state.get_recording_duration_ms(400), 300);
    assert!(state.get_listening());
    state.set_listening(false);
    assert!(!state.get_listening());
}

#[test]
fn theme_defaults_to_system() {
    assert_eq!(get_theme(None), "system");
    assert_eq!(get_theme(Some("dark".to_string())), "dark");
    assert_eq!(get_theme(Some(String::new())), "");
}

#[test]
fn texts_are_counted_for_the_database() {
    assert_eq!(
        text_counts("Hello world test"),
        TextCounts { word_count: 3, character_count: 16, keystrokes_saved: 16 }
    );
    // Characters, not bytes.
    assert_eq!(
        text_counts("h\u{e9}llo  w\u{f6}rld "),
        TextCounts { word_count: 2, character_count: 13, keystrokes_saved: 13 }
    );
    assert_eq!(text_counts(""), TextCounts { word_count: 0, character_count: 0, keystrokes_saved: 0 });
}
