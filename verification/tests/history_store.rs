//! History records: construction, conversion, ordering.

use audioshift::history::{
    entry_from_meta, meta_from_info, sort_by_timestamp_desc, RecordingInfo, RecordingMeta,
};
use audioshift::os::random_name;

fn meta(id: &str, timestamp: i64) -> RecordingMeta {
    RecordingMeta {
        id: String::from(id),
        text: String::from("hi"),
        timestamp,
        app_name: None,
        window_title: None,
        char_count: 2,
        duration_ms: 1000,
        processing_time_ms: 500,
        model_id: String::from("parakeet-tdt-0.6b-v3"),
        language: None,
        translate: false,
        app_version: String::from("1.0.0"),
    }
}

#[test]
fn meta_records_the_recording() {
    let info = RecordingInfo {
        samples: vec![1, 2, 3],
        text: String::from("hello there"),
        app_name: Some(String::from("Editor")),
        window_title: None,
        duration_ms: 2000,
        processing_time_ms: 800,
        model_id: String::from("whisper-small-q5_1"),
        language: Some(String::from("en")),
        translate: true,
    };
    let (m, samples) = meta_from_info(info, String::from("123"), 456789, String::from("2.0"));
    assert_eq!(m.id, "123");
    assert_eq!(m.text, "hello there");
    assert_eq!(m.char_count, 11);
    assert_eq!(m.timestamp, 456789);
    assert_eq!(m.app_name, Some(String::from("Editor")));
    assert_eq!(m.duration_ms, 2000);
    assert_eq!(m.processing_time_ms, 800);
    assert_eq!(m.model_id, "whisper-small-q5_1");
    assert_eq!(m.language, Some(String::from("en")));
    assert!(m.translate);
    assert_eq!(m.app_version, "2.0");
    assert_eq!(samples, vec![1, 2, 3]);
}

#[test]
fn entry_carries_its_directory() {
    let e = entry_from_meta(meta("abc", 7), "/docs/Recordings");
    assert_eq!(e.dir_path, Some(String::from("/docs/Recordings/abc")));
    assert_eq!(e.id, "abc");
    assert_eq!(e.timestamp, 7);
    assert_eq!(e.char_count, 2);
}

#[test]
fn recordings_sort_newest_first() {
    let mut metas = vec![meta("a", 1), meta("c", 3), meta("b", 2)];
    sort_by_timestamp_desc(&mut metas);
    let ids: Vec<&str> = metas.iter().map(|m| m.id.as_str()).collect();
    assert_eq!(ids, vec!["c", "b", "a"]);

    let mut more = vec![
        meta("x", 5),
        meta("y", 5),
        meta("z", -1),
        meta("w", 100),
    ];
    sort_by_timestamp_desc(&mut more);
    let stamps: Vec<i64> = more.iter().map(|m| m.timestamp).collect();
    assert_eq!(stamps, vec![100, 5, 5, -1]);
}

#[test]
fn empty_and_single_lists_sort_trivially() {
    let mut none: Vec<RecordingMeta> = Vec::new();
    sort_by_timestamp_desc(&mut none);
    assert!(none.is_empty());
    let mut one = vec![meta("a", 9)];
    sort_by_timestamp_desc(&mut one);
    assert_eq!(one.len(), 1);
}

#[test]
fn random_names_are_uuid_shaped() {
    let a = random_name();
    let b = random_name();
    assert_eq!(a.chars().count(), 36);
    assert_eq!(b.chars().count(), 36);
    assert_ne!(a, b);
}

#[test]
fn wav_encoding_has_riff_header_and_pcm16_payload() {
    let samples = vec![0, 1_000_000, -1_000_000, 500_000, 2_000_000];
    let bytes = audioshift::history::wav_bytes(&samples);
    assert_eq!(bytes.len(), 44 + 2 * samples.len());
    assert_eq!(&bytes[0..4], b"RIFF");
    assert_eq!(&bytes[8..12], b"WAVE");
    assert_eq!(&bytes[12..16], b"fmt ");
    assert_eq!(&bytes[36..40], b"data");
    // File size field: 36 + data bytes.
    assert_eq!(&bytes[4..8], &(36u32 + 10).to_le_bytes());
    // PCM format, mono, 16 kHz, 32 kB/s, block align 2, 16 bits.
    assert_eq!(&bytes[20..22], &1u16.to_le_bytes());
    assert_eq!(&bytes[22..24], &1u16.to_le_bytes());
    assert_eq!(&bytes[24..28], &16000u32.to_le_bytes());
    assert_eq!(&bytes[28..32], &32000u32.to_le_bytes());
    assert_eq!(&bytes[32..34], &2u16.to_le_bytes());
    assert_eq!(&bytes[34..36], &16u16.to_le_bytes());
    assert_eq!(&bytes[40..44], &10u32.to_le_bytes());
    // Samples: 0, full scale, negative full scale, half scale, clamped.
    assert_eq!(&bytes[44..46], &0i16.to_le_bytes());
    assert_eq!(&bytes[46..48], &32767i16.to_le_bytes());
    assert_eq!(&bytes[48..50], &(-32767i16).to_le_bytes());
    assert_eq!(&bytes[50..52], &16383i16.to_le_bytes());
    assert_eq!(&bytes[52..54], &32767i16.to_le_bytes());
}

#[test]
fn empty_recording_is_header_only() {
    let bytes = audioshift::history::wav_bytes(&Vec::new());
    assert_eq!(bytes.len(), 44);
    assert_eq!(&bytes[40..44], &0u32.to_le_bytes());
}
