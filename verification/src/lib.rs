//! Core of a dictation pipeline: audio sample normalization, a model
//! catalog with on-demand acquisition, engine dispatch, the recording
//! session state machine, and the batch file-transcription pipeline.
//!
//! Audio samples are carried as fixed-point integers (micro-units,
//! where 1_000_000 stands for a full-scale sample), so every
//! arithmetic step of the normalizer is stated and proved exactly.
//! Capture streams, network transfers, inference and the filesystem
//! live outside the library; they hand plain values in and obey the
//! decisions proved here.

// Shared helpers.
pub mod num;
pub mod os;
pub mod text;

// The pipeline.
pub mod acquire;
pub mod engine;
pub mod error;
pub mod escape_monitor;
pub mod events;
pub mod filejob;
pub mod frontmost;
pub mod history;
pub mod registry;
pub mod samples;
pub mod session;
pub mod state;
pub mod tray;
