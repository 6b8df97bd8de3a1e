//! Engine control: cache idempotence, eviction, fallback, dispatch.

use audioshift::engine::{
    concat_segments, evict_for_delete, execution_provider_label, fallback_after_failure,
    inference_request,
    load_attempts, note_parakeet_loaded, note_whisper_loaded, parakeet_load_action,
    preload_action, thread_count_for, trim_whitespace, whisper_load_action,
    whisper_params, whisper_thread_count, EngineCaches, ExecBackend, LoadAction,
};
use audioshift::registry::{find_model, Engine, DEFAULT_MODEL_ID};

#[test]
fn parakeet_load_is_idempotent() {
    let mut caches = EngineCaches::new();
    assert_eq!(
        parakeet_load_action(&caches),
        LoadAction::Load { evict_previous: false }
    );
    note_parakeet_loaded(&mut caches);
    assert_eq!(parakeet_load_action(&caches), LoadAction::AlreadyLoaded);
}

#[test]
fn whisper_load_is_idempotent_per_id_and_evicts_others() {
    let mut caches = EngineCaches::new();
    assert_eq!(
        whisper_load_action(&caches, "whisper-small-q5_1"),
        LoadAction::Load { evict_previous: false }
    );
    note_whisper_loaded(&mut caches, "whisper-small-q5_1");
    assert_eq!(
        whisper_load_action(&caches, "whisper-small-q5_1"),
        LoadAction::AlreadyLoaded
    );
    assert_eq!(
        whisper_load_action(&caches, "whisper-medium-q5_0"),
        LoadAction::Load { evict_previous: true }
    );
}

#[test]
fn engine_caches_are_independent() {
    let mut caches = EngineCaches::new();
    note_parakeet_loaded(&mut caches);
    note_whisper_loaded(&mut caches, "whisper-small-q5_1");
    assert!(caches.parakeet_loaded);
    assert_eq!(caches.whisper_loaded, Some(String::from("whisper-small-q5_1")));

    // Deleting a whisper model only clears its own matching slot.
    evict_for_delete(&mut caches, Engine::Whisper, "whisper-medium-q5_0");
    assert_eq!(caches.whisper_loaded, Some(String::from("whisper-small-q5_1")));
    evict_for_delete(&mut caches, Engine::Whisper, "whisper-small-q5_1");
    assert_eq!(caches.whisper_loaded, None);
    assert!(caches.parakeet_loaded);

    evict_for_delete(&mut caches, Engine::Parakeet, DEFAULT_MODEL_ID);
    assert!(!caches.parakeet_loaded);
}

#[test]
fn preload_only_touches_known_ready_models() {
    assert!(preload_action(true, true));
    assert!(!preload_action(true, false));
    assert!(!preload_action(false, true));
    assert!(!preload_action(false, false));
}

#[test]
fn accelerated_path_falls_back_to_cpu() {
    let attempts = load_attempts(true);
    assert_eq!(attempts, vec![ExecBackend::Accelerated, ExecBackend::Cpu]);
    let cpu_only = load_attempts(false);
    assert_eq!(cpu_only, vec![ExecBackend::Cpu]);
    assert_eq!(
        fallback_after_failure(ExecBackend::Accelerated),
        Some(ExecBackend::Cpu)
    );
    assert_eq!(fallback_after_failure(ExecBackend::Cpu), None);
}

#[test]
fn thread_count_uses_all_cpus_up_to_eight() {
    assert_eq!(thread_count_for(1), 1);
    assert_eq!(thread_count_for(4), 4);
    assert_eq!(thread_count_for(8), 8);
    assert_eq!(thread_count_for(16), 8);
    let n = whisper_thread_count();
    assert!((1..=8).contains(&n));
}

#[test]
fn whisper_params_forward_language_and_translate() {
    let p = whisper_params(Some(String::from("de")), true);
    assert_eq!(p.language, Some(String::from("de")));
    assert!(p.translate);
    assert!(!p.print_progress && !p.print_realtime && !p.print_timestamps);
    assert!(p.suppress_blank && p.suppress_non_speech_tokens);

    let q = whisper_params(None, false);
    assert_eq!(q.language, None);
    assert!(!q.translate);
}

#[test]
fn dispatch_drops_options_for_the_monolingual_engine() {
    let parakeet = find_model(DEFAULT_MODEL_ID).unwrap();
    let req = inference_request(&parakeet, Some(String::from("de")), true);
    assert!(matches!(req.engine, Engine::Parakeet));
    assert_eq!(req.model_id, DEFAULT_MODEL_ID);
    assert_eq!(req.language, None);
    assert!(!req.translate);

    let whisper = find_model("whisper-medium-q5_0").unwrap();
    let req2 = inference_request(&whisper, Some(String::from("de")), true);
    assert!(matches!(req2.engine, Engine::Whisper));
    assert_eq!(req2.language, Some(String::from("de")));
    assert!(req2.translate);
}

#[test]
fn segments_are_joined_and_trimmed() {
    let segs = vec![String::from(" Hello"), String::from(" world. ")];
    let joined = concat_segments(&segs);
    assert_eq!(joined, " Hello world. ");
    assert_eq!(trim_whitespace(&joined), "Hello world.");
    assert_eq!(trim_whitespace("  \t\n  "), "");
    assert_eq!(trim_whitespace(""), "");
    assert_eq!(trim_whitespace("x"), "x");
}

#[test]
fn execution_provider_labels() {
    assert_eq!(execution_provider_label(ExecBackend::Accelerated), "DirectML");
    assert_eq!(execution_provider_label(ExecBackend::Cpu), "CPU");
}
