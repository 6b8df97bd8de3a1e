//! Sample normalizer behavior: downmix, resample, amplitude.

use audioshift::samples::{amplitude_of, convert_samples, mix_to_mono, resample_linear};

#[test]
fn downmix_stereo_frame_averages_channels() {
    // Two stereo frames [1.0, -1.0] and [0.5, 0.5] in micro-units.
    let data = vec![1_000_000, -1_000_000, 500_000, 500_000];
    let mono = mix_to_mono(&data, 2);
    assert_eq!(mono, vec![0, 500_000]);
}

#[test]
fn downmix_mono_is_identity() {
    let data = vec![3, -7, 11];
    assert_eq!(mix_to_mono(&data, 1), data);
}

#[test]
fn downmix_drops_trailing_partial_frame() {
    let data = vec![10, 20, 30];
    assert_eq!(mix_to_mono(&data, 2), vec![15]);
}

#[test]
fn downmix_four_channels() {
    let data = vec![100, 200, 300, 400];
    assert_eq!(mix_to_mono(&data, 4), vec![250]);
}

#[test]
fn resample_same_rate_is_identity() {
    let data = vec![1, 2, 3, 4, 5];
    let out = resample_linear(&data, 16000, 16000);
    assert_eq!(out, data);
}

#[test]
fn resample_empty_input_is_empty() {
    let data: Vec<i32> = Vec::new();
    assert_eq!(resample_linear(&data, 8000, 16000), Vec::<i32>::new());
    assert_eq!(resample_linear(&data, 16000, 16000), Vec::<i32>::new());
}

#[test]
fn resample_doubles_length_with_interpolation() {
    let data = vec![0, 1_000_000];
    let out = resample_linear(&data, 8000, 16000);
    assert_eq!(out, vec![0, 500_000, 1_000_000, 1_000_000]);
}

#[test]
fn resample_halves_length() {
    let data = vec![0, 100, 200, 300];
    let out = resample_linear(&data, 16000, 8000);
    // Positions 0 and 2 of the source.
    assert_eq!(out, vec![0, 200]);
}

#[test]
fn convert_passes_through_canonical_input() {
    let data = vec![5, 6, 7];
    assert_eq!(convert_samples(&data, 1, 16000), data);
}

#[test]
fn convert_downmixes_then_resamples() {
    // Stereo at 8 kHz: downmix to [0, 1_000_000], then upsample x2.
    let data = vec![-500_000, 500_000, 1_000_000, 1_000_000];
    let out = convert_samples(&data, 2, 8000);
    assert_eq!(out, vec![0, 500_000, 1_000_000, 1_000_000]);
}

#[test]
fn amplitude_is_mean_absolute_value() {
    let data = vec![1000, -1000];
    assert_eq!(amplitude_of(&data), 1000);
    let silent = vec![0i32; 16000];
    assert_eq!(amplitude_of(&silent), 0);
    let mixed = vec![300, -600, 0];
    assert_eq!(amplitude_of(&mixed), 300);
}
