//! Batch file pipeline: guard, cancellation, speed ratio, naming.

use audioshift::error::PipelineError;
use audioshift::filejob::{
    begin_file_job, cancellation_checkpoint, estimated_secs, file_progress_percent,
    finish_file_job, is_media_file, is_processing, observe_ratio, output_stem,
    pick_output_name, ratio_micros_of, request_file_cancel, unique_output_name,
    FilePhase, FileTranscriptionStatus,
};
use audioshift::state::AppState;

#[test]
fn media_extensions_are_recognized_case_insensitively() {
    assert!(is_media_file("song.mp3"));
    assert!(is_media_file("SONG.MP3"));
    assert!(is_media_file("a/b/track.FLAC"));
    assert!(is_media_file("movie.mkv"));
    assert!(is_media_file("talk.Opus"));
    assert!(is_media_file("clip.webm"));
    assert!(!is_media_file("notes.txt"));
    assert!(!is_media_file("noextension"));
    assert!(!is_media_file(".hidden"));
    assert!(!is_media_file("dir.mp3/file"));
    assert!(!is_media_file(""));
}

#[test]
fn second_request_is_rejected_while_processing() {
    let mut state = AppState::new();
    begin_file_job(&mut state, true, true).unwrap();
    assert!(is_processing(&state));
    let second = begin_file_job(&mut state, true, true);
    assert!(matches!(second, Err(PipelineError::AlreadyProcessing)));
    assert_eq!(
        PipelineError::AlreadyProcessing.message(),
        "Already processing a file"
    );
    finish_file_job(&mut state);
    assert!(!is_processing(&state));
    assert!(begin_file_job(&mut state, true, true).is_ok());
}

#[test]
fn invalid_requests_are_rejected_up_front() {
    let mut state = AppState::new();
    assert!(matches!(
        begin_file_job(&mut state, false, true),
        Err(PipelineError::FileNotFound)
    ));
    assert!(matches!(
        begin_file_job(&mut state, true, false),
        Err(PipelineError::UnsupportedMediaFile)
    ));
    assert!(!is_processing(&state));
}

#[test]
fn cancellation_takes_effect_at_the_checkpoint() {
    let mut state = AppState::new();
    begin_file_job(&mut state, true, true).unwrap();
    assert!(!cancellation_checkpoint(&mut state));
    request_file_cancel(&mut state);
    assert!(cancellation_checkpoint(&mut state));
    assert!(!is_processing(&state));
    // The final step clears both flags unconditionally.
    finish_file_job(&mut state);
    assert!(!state.file_processing);
    assert!(!state.file_cancel_requested);
}

#[test]
fn speed_ratio_blends_30_70() {
    let mut state = AppState::new();
    // 1.7 observing 1.0 blends to 1.21.
    state.speed_ratio_micros = 1_700_000;
    observe_ratio(&mut state, 1_000_000);
    assert_eq!(state.speed_ratio_micros, 1_210_000);
    // Another observation of 2.0: 1.21*0.3 + 2.0*0.7 = 1.763.
    observe_ratio(&mut state, 2_000_000);
    assert_eq!(state.speed_ratio_micros, 1_763_000);
}

#[test]
fn first_observation_replaces_the_pristine_ratio() {
    let mut state = AppState::new();
    assert_eq!(state.speed_ratio_micros, 1_000_000);
    observe_ratio(&mut state, 2_000_000);
    assert_eq!(state.speed_ratio_micros, 2_000_000);
}

#[test]
fn observed_ratio_is_processing_time_over_audio_time() {
    // 5 s of processing for 10 s of audio: ratio 0.5.
    assert_eq!(ratio_micros_of(5_000_000, 10_000), 500_000);
    // 20 s of processing for 10 s of audio: ratio 2.0.
    assert_eq!(ratio_micros_of(20_000_000, 10_000), 2_000_000);
}

#[test]
fn estimate_is_duration_times_ratio_with_a_floor() {
    // 10 s of audio at ratio 1.0: 10 s.
    assert_eq!(estimated_secs(10_000, 1_000_000), 10);
    // 10 s of audio at ratio 1.7: 17 s.
    assert_eq!(estimated_secs(10_000, 1_700_000), 17);
    // Tiny job: never below one second.
    assert_eq!(estimated_secs(100, 1_000_000), 1);
    assert_eq!(estimated_secs(0, 1_000_000), 1);
}

#[test]
fn progress_is_capped_below_completion() {
    assert_eq!(file_progress_percent(0, 10), 0);
    assert_eq!(file_progress_percent(5, 10), 50);
    assert_eq!(file_progress_percent(10, 10), 95);
    assert_eq!(file_progress_percent(100, 10), 95);
}

#[test]
fn output_stem_strips_the_extension() {
    assert_eq!(output_stem("audio.mp3"), "audio");
    assert_eq!(output_stem("archive.tar.gz"), "archive.tar");
    assert_eq!(output_stem(".bashrc"), ".bashrc");
    assert_eq!(output_stem("noext"), "noext");
    assert_eq!(output_stem(""), "transcription");
}

#[test]
fn third_transcript_gets_suffix_three() {
    let taken = vec![String::from("notes.txt"), String::from("notes (2).txt")];
    assert_eq!(
        pick_output_name("notes", &taken),
        Some(String::from("notes (3).txt"))
    );
}

#[test]
fn output_naming_prefers_the_plain_name() {
    let empty: Vec<String> = Vec::new();
    assert_eq!(pick_output_name("notes", &empty), Some(String::from("notes.txt")));
    let one = vec![String::from("notes.txt")];
    assert_eq!(
        pick_output_name("notes", &one),
        Some(String::from("notes (2).txt"))
    );
}

#[test]
fn exhausted_numbering_falls_back_to_a_random_suffix() {
    let mut taken = vec![String::from("x.txt")];
    for i in 2..=999u32 {
        taken.push(format!("x ({}).txt", i));
    }
    assert_eq!(pick_output_name("x", &taken), None);
    let fallback = unique_output_name("x", &taken);
    assert!(fallback.starts_with("x ("));
    assert!(fallback.ends_with(").txt"));
    // "x (" + 36 random characters + ").txt"
    assert_eq!(fallback.chars().count(), 3 + 36 + 5);
    assert!(!taken.contains(&fallback));
}

#[test]
fn idle_status_template_is_empty() {
    let s = FileTranscriptionStatus::default();
    assert!(matches!(s.status, FilePhase::Idle));
    assert_eq!(s.status.as_str(), "idle");
    assert_eq!(FilePhase::Converting.as_str(), "converting");
    assert_eq!(FilePhase::Transcribing.as_str(), "transcribing");
    assert_eq!(FilePhase::Completed.as_str(), "completed");
    assert_eq!(FilePhase::Error.as_str(), "error");
    assert_eq!(s.progress, 0);
    assert!(s.file_name.is_none());
    assert!(s.error.is_none());
}
