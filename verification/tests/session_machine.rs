//! Recording session state machine and its helpers.

use audioshift::error::PipelineError;
use audioshift::frontmost::parse_frontmost;
use audioshift::escape_monitor::{self, MonitorFlag, PollAction};
use audioshift::session::{
    cancel_recording, finish_transcribing, hotkey_action, ingest_frame, language_option,
    monitor_device, recording_duration_ms, resolve_input_device, should_store_history,
    start_monitor, start_recording, stop_monitor, stop_recording, EmitThrottle, MonitorState,
    ToggleAction,
};
use audioshift::state::{AppState, Status};

fn devices() -> Vec<String> {
    vec![String::from("USB Mic"), String::from("Built-in")]
}

#[test]
fn start_while_recording_is_rejected_and_status_stays() {
    let mut state = AppState::new();
    let fallback = String::from("Built-in");
    start_recording(&mut state, &devices(), None, Some(&fallback)).unwrap();
    assert!(matches!(state.status(), Status::Recording));

    let second = start_recording(&mut state, &devices(), None, Some(&fallback));
    assert!(matches!(second, Err(PipelineError::AlreadyRecording)));
    assert_eq!(
        PipelineError::AlreadyRecording.message(),
        "Already recording"
    );
    assert!(matches!(state.status(), Status::Recording));
}

#[test]
fn start_resolves_requested_device_with_fallback() {
    let available = devices();
    let usb = String::from("USB Mic");
    let ghost_dev = String::from("Unplugged");
    let fallback = String::from("Built-in");

    assert_eq!(
        resolve_input_device(&available, Some(&usb), Some(&fallback)),
        Some(String::from("USB Mic"))
    );
    assert_eq!(
        resolve_input_device(&available, Some(&ghost_dev), Some(&fallback)),
        Some(String::from("Built-in"))
    );
    assert_eq!(resolve_input_device(&available, None, None), None);

    let mut state = AppState::new();
    let err = start_recording(&mut state, &available, Some(&ghost_dev), None);
    assert!(matches!(err, Err(PipelineError::NoInputDevice)));
    assert!(matches!(state.status(), Status::Idle));
}

#[test]
fn stop_with_empty_buffer_errors_and_returns_to_idle() {
    let mut state = AppState::new();
    let fallback = String::from("Built-in");
    start_recording(&mut state, &devices(), None, Some(&fallback)).unwrap();

    let r = stop_recording(&mut state);
    assert!(matches!(r, Err(PipelineError::NoAudioRecorded)));
    assert!(matches!(state.status(), Status::Idle));
}

#[test]
fn stop_while_idle_is_rejected() {
    let mut state = AppState::new();
    let r = stop_recording(&mut state);
    assert!(matches!(r, Err(PipelineError::NotRecording)));
    assert!(matches!(state.status(), Status::Idle));
}

#[test]
fn recording_captures_frames_and_drains_on_stop() {
    let mut state = AppState::new();
    let fallback = String::from("Built-in");
    start_recording(&mut state, &devices(), None, Some(&fallback)).unwrap();

    let frame = vec![200, -200, 400, -400];
    let amp = ingest_frame(&mut state, &frame, 1, 16000);
    assert_eq!(amp, Some(300));
    assert_eq!(state.audio_buffer, frame);

    let taken = stop_recording(&mut state).unwrap();
    assert_eq!(taken, frame);
    assert!(matches!(state.status(), Status::Transcribing));
    assert!(state.audio_buffer.is_empty());

    finish_transcribing(&mut state);
    assert!(matches!(state.status(), Status::Idle));
}

#[test]
fn cancel_discards_the_buffer() {
    let mut state = AppState::new();
    let fallback = String::from("Built-in");
    start_recording(&mut state, &devices(), None, Some(&fallback)).unwrap();
    ingest_frame(&mut state, &vec![1, 2, 3], 1, 16000);
    cancel_recording(&mut state).unwrap();
    assert!(matches!(state.status(), Status::Idle));
    assert!(state.audio_buffer.is_empty());
}

#[test]
fn silent_ten_second_buffer_through_engine_b() {
    // End-to-end shape of a live dictation: 10 s of silence at 16 kHz,
    // engine B, language unset, translate off, empty result.
    let mut state = AppState::new();
    let fallback = String::from("Built-in");
    assert!(matches!(state.status(), Status::Idle));
    start_recording(&mut state, &devices(), None, Some(&fallback)).unwrap();
    assert!(matches!(state.status(), Status::Recording));

    let silence = vec![0i32; 160_000];
    let amp = ingest_frame(&mut state, &silence, 1, 16000);
    assert_eq!(amp, Some(0));

    let samples = stop_recording(&mut state).unwrap();
    assert!(matches!(state.status(), Status::Transcribing));
    assert_eq!(samples.len(), 160_000);
    assert_eq!(recording_duration_ms(samples.len()), 10_000);

    let def = audioshift::registry::find_model("whisper-small-q5_1").unwrap();
    let req = audioshift::engine::inference_request(&def, language_option("auto"), false);
    assert!(matches!(req.engine, audioshift::registry::Engine::Whisper));
    assert_eq!(req.language, None);
    assert!(!req.translate);

    // The engine returned an empty transcript: no history entry, and
    // the session still returns to Idle cleanly.
    let text = String::new();
    assert!(!should_store_history(&text, true));
    finish_transcribing(&mut state);
    assert!(matches!(state.status(), Status::Idle));
}

#[test]
fn history_is_stored_only_for_nonempty_text_when_enabled() {
    assert!(should_store_history("hello", true));
    assert!(!should_store_history("hello", false));
    assert!(!should_store_history("", true));
    assert!(!should_store_history("", false));
}

#[test]
fn language_auto_means_no_hint() {
    assert_eq!(language_option("auto"), None);
    assert_eq!(language_option("en"), Some(String::from("en")));
    assert_eq!(language_option("de"), Some(String::from("de")));
}

#[test]
fn hotkey_toggle_per_status() {
    assert_eq!(
        hotkey_action(Status::Idle),
        Some(ToggleAction::StartRecording)
    );
    assert_eq!(
        hotkey_action(Status::Recording),
        Some(ToggleAction::StopRecording)
    );
    assert_eq!(hotkey_action(Status::Transcribing), None);
}

#[test]
fn amplitude_events_are_throttled_to_20_per_second() {
    let mut t = EmitThrottle::new(0);
    assert!(!t.should_emit(10));
    assert!(!t.should_emit(49));
    assert!(t.should_emit(50));
    assert!(!t.should_emit(99));
    assert!(t.should_emit(100));
    assert!(t.should_emit(1000));
}

#[test]
fn monitor_device_requires_the_requested_device() {
    let available = devices();
    let usb = String::from("USB Mic");
    let missing = String::from("Unplugged");
    let fallback = String::from("Built-in");
    assert_eq!(
        monitor_device(&available, Some(&usb), Some(&fallback)),
        Ok(String::from("USB Mic"))
    );
    assert!(matches!(
        monitor_device(&available, Some(&missing), Some(&fallback)),
        Err(PipelineError::NoInputDevice)
    ));
    assert_eq!(
        monitor_device(&available, None, Some(&fallback)),
        Ok(String::from("Built-in"))
    );
    assert!(matches!(
        monitor_device(&available, None, None),
        Err(PipelineError::NoInputDevice)
    ));
}

#[test]
fn monitor_state_toggles() {
    let mut m = MonitorState::new();
    assert!(!m.running);
    start_monitor(&mut m);
    assert!(m.running);
    stop_monitor(&mut m);
    assert!(!m.running);
}

#[test]
fn escape_monitor_single_flight_and_polling() {
    let mut flag = MonitorFlag::new();
    assert!(escape_monitor::start(&mut flag));
    assert!(!escape_monitor::start(&mut flag));
    assert!(flag.active);

    assert_eq!(
        escape_monitor::poll_action(true, Status::Recording, false),
        PollAction::Continue
    );
    assert_eq!(
        escape_monitor::poll_action(true, Status::Recording, true),
        PollAction::Cancel
    );
    assert_eq!(
        escape_monitor::poll_action(true, Status::Idle, false),
        PollAction::Stop
    );
    assert_eq!(
        escape_monitor::poll_action(false, Status::Recording, false),
        PollAction::Stop
    );

    escape_monitor::stop(&mut flag);
    assert!(!flag.active);
}

#[test]
fn frontmost_probe_line_is_split_at_the_marker() {
    assert_eq!(
        parse_frontmost("Editor|||draft.txt"),
        (Some(String::from("Editor")), Some(String::from("draft.txt")))
    );
    assert_eq!(
        parse_frontmost("Editor|||"),
        (Some(String::from("Editor")), None)
    );
    assert_eq!(
        parse_frontmost("|||Window"),
        (None, Some(String::from("Window")))
    );
    assert_eq!(
        parse_frontmost("Terminal"),
        (Some(String::from("Terminal")), None)
    );
    assert_eq!(parse_frontmost(""), (None, None));
    // Only the first marker splits.
    assert_eq!(
        parse_frontmost("a|||b|||c"),
        (Some(String::from("a")), Some(String::from("b|||c")))
    );
}
