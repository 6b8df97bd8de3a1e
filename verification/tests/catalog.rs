//! Model catalog: lookup, destination names, readiness, size labels.

use audioshift::error::PipelineError;
use audioshift::registry::{
    any_ready_given, delete_model_plan, file_dest_name, find_model, get_all_models_status,
    model_dir_in, model_ready, models, path_file_name, ready_given, size_label, Engine,
    DEFAULT_MODEL_ID,
};

#[test]
fn catalog_has_five_models_with_unique_ids() {
    let all = models();
    assert_eq!(all.len(), 5);
    for i in 0..all.len() {
        for j in 0..i {
            assert_ne!(all[i].id, all[j].id);
        }
    }
    assert_eq!(all[0].id, "parakeet-tdt-0.6b-v3");
    assert!(matches!(all[0].engine, Engine::Parakeet));
    for m in all.iter().skip(1) {
        assert!(matches!(m.engine, Engine::Whisper));
    }
}

#[test]
fn find_model_returns_matching_definition() {
    let d = find_model(DEFAULT_MODEL_ID).unwrap();
    assert_eq!(d.id, "parakeet-tdt-0.6b-v3");
    assert_eq!(d.files.len(), 5);
    assert_eq!(d.approx_bytes, 680_000_000);

    let w = find_model("whisper-small-q5_1").unwrap();
    assert!(matches!(w.engine, Engine::Whisper));
    assert_eq!(w.files.len(), 1);
}

#[test]
fn find_model_unknown_id_is_none() {
    assert!(find_model("no-such-model").is_none());
    assert!(find_model("").is_none());
}

#[test]
fn dest_name_prefers_rename_target() {
    let d = find_model(DEFAULT_MODEL_ID).unwrap();
    assert_eq!(file_dest_name(&d.files[0]), "encoder-model.onnx");
    assert_eq!(file_dest_name(&d.files[1]), "decoder_joint-model.onnx");
}

#[test]
fn dest_name_falls_back_to_url_tail() {
    let d = find_model(DEFAULT_MODEL_ID).unwrap();
    assert_eq!(file_dest_name(&d.files[2]), "vocab.txt");
    assert_eq!(file_dest_name(&d.files[3]), "config.json");
    assert_eq!(file_dest_name(&d.files[4]), "nemo128.onnx");
}

#[test]
fn path_file_name_takes_trailing_segment() {
    assert_eq!(path_file_name("a/b/c.wav"), "c.wav");
    assert_eq!(path_file_name("plain.mp3"), "plain.mp3");
    assert_eq!(path_file_name("dir/"), "");
}

#[test]
fn model_dir_is_under_the_data_root() {
    assert_eq!(
        model_dir_in("/data", "m1"),
        "/data/com.aarsla.audioshift/models/m1"
    );
}

#[test]
fn readiness_requires_every_file() {
    let d = find_model(DEFAULT_MODEL_ID).unwrap();
    let all_present = vec![true; 5];
    assert!(ready_given(&d, &all_present));
    for missing in 0..5 {
        let mut present = vec![true; 5];
        present[missing] = false;
        assert!(!ready_given(&d, &present));
    }
    let none_present = vec![false; 5];
    assert!(!ready_given(&d, &none_present));
}

#[test]
fn unknown_model_is_never_ready() {
    assert!(!model_ready("no-such-model"));
}

#[test]
fn size_labels_render_megabytes_and_gigabytes() {
    assert_eq!(size_label(680_000_000), "680 MB");
    assert_eq!(size_label(190_000_000), "190 MB");
    assert_eq!(size_label(999_999_999), "999 MB");
    assert_eq!(size_label(1_000_000_000), "1.0 GB");
    assert_eq!(size_label(1_550_000_000), "1.6 GB");
    assert_eq!(size_label(2_340_000_000), "2.3 GB");
}

#[test]
fn model_status_report_covers_the_catalog() {
    let rows = get_all_models_status();
    assert_eq!(rows.len(), 5);
    assert_eq!(rows[0].id, "parakeet-tdt-0.6b-v3");
    assert_eq!(rows[0].size_label, "680 MB");
    assert_eq!(rows[1].size_label, "574 MB");
    assert!(rows[0].path.ends_with("/com.aarsla.audioshift/models/parakeet-tdt-0.6b-v3"));
}

#[test]
fn delete_plan_rejects_unknown_ids() {
    assert!(matches!(
        delete_model_plan("nope"),
        Err(PipelineError::UnknownModel)
    ));
    let (engine, dir) = delete_model_plan(DEFAULT_MODEL_ID).unwrap();
    assert!(matches!(engine, Engine::Parakeet));
    assert!(dir.ends_with("/com.aarsla.audioshift/models/parakeet-tdt-0.6b-v3"));
}

#[test]
fn any_readiness_is_a_disjunction() {
    assert!(!any_ready_given(&vec![]));
    assert!(!any_ready_given(&vec![false, false, false]));
    assert!(any_ready_given(&vec![false, true, false]));
    assert!(any_ready_given(&vec![true; 5]));
}
