//! Acquisition: single-flight guard, download planning, progress.

use audioshift::acquire::{
    end_download, ensure_decision, file_percent, is_downloading, overall_percent,
    plan_downloads, rename_decision, DownloadSession, EnsureAction,
};
use audioshift::registry::{find_model, DEFAULT_MODEL_ID};
use audioshift::state::AppState;

#[test]
fn ensure_already_ready_skips_the_network() {
    let mut state = AppState::new();
    let action = ensure_decision(&mut state, true);
    assert!(matches!(action, EnsureAction::AlreadyReady));
    assert!(!is_downloading(&state));
}

#[test]
fn two_ensure_calls_download_exactly_once() {
    let mut state = AppState::new();
    let first = ensure_decision(&mut state, false);
    let second = ensure_decision(&mut state, false);
    assert!(matches!(first, EnsureAction::Download));
    assert!(matches!(second, EnsureAction::GuardBusy));
    assert!(is_downloading(&state));
    end_download(&mut state);
    assert!(!is_downloading(&state));
    // After the guard is released the next call downloads again.
    assert!(matches!(
        ensure_decision(&mut state, false),
        EnsureAction::Download
    ));
}

#[test]
fn plan_skips_files_already_present() {
    let def = find_model(DEFAULT_MODEL_ID).unwrap();
    let present = vec![true, false, true, false, true];
    assert_eq!(plan_downloads(&def, &present), vec![1, 3]);
    let none = vec![false; 5];
    assert_eq!(plan_downloads(&def, &none), vec![0, 1, 2, 3, 4]);
    let all = vec![true; 5];
    assert_eq!(plan_downloads(&def, &all), Vec::<usize>::new());
}

#[test]
fn rename_applies_only_when_needed() {
    let def = find_model(DEFAULT_MODEL_ID).unwrap();
    // Saved under the URL name, target free: rename.
    assert_eq!(
        rename_decision(&def.files[0], "encoder-model.int8.onnx", false),
        Some(String::from("encoder-model.onnx"))
    );
    // Target already exists: keep the saved name.
    assert_eq!(
        rename_decision(&def.files[0], "encoder-model.int8.onnx", true),
        None
    );
    // Already saved under the target name.
    assert_eq!(rename_decision(&def.files[0], "encoder-model.onnx", false), None);
    // No rename declared.
    assert_eq!(rename_decision(&def.files[2], "vocab.txt", false), None);
}

#[test]
fn overall_percent_is_capped_at_99() {
    assert_eq!(overall_percent(0, 1000), 0);
    assert_eq!(overall_percent(500, 1000), 50);
    assert_eq!(overall_percent(999, 1000), 99);
    assert_eq!(overall_percent(1000, 1000), 99);
    assert_eq!(overall_percent(5000, 1000), 99);
}

#[test]
fn file_percent_handles_unknown_length() {
    assert_eq!(file_percent(123, 0), 0);
    assert_eq!(file_percent(50, 200), 25);
    assert_eq!(file_percent(400, 200), 100);
}

#[test]
fn progress_is_monotone_and_only_100_at_the_end() {
    let mut s = DownloadSession::begin(2, 1000);
    assert_eq!(s.last_overall_pct, 0);
    let mut last = 0u32;
    let mut emitted = Vec::new();
    for _ in 0..10 {
        if let Some(p) = s.on_chunk(55) {
            assert!(p > last, "percent must move forward");
            assert!(p <= 99);
            last = p;
            emitted.push(p);
        }
    }
    // 550 of 1000 bytes: at most 55 percent so far.
    assert_eq!(last, 55);
    s.file_complete();
    // A chunk too small to move the rounded percent emits nothing.
    assert_eq!(s.on_chunk(1), None);
    // Even far past the estimate the percent stays below 100.
    assert_eq!(s.on_chunk(1_000_000), Some(99));
    s.file_complete();
    let terminal = s.finish();
    assert_eq!(terminal, 100);
}
