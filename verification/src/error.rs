//! The library's error taxonomy.  Every operation entry point returns
//! a `Result` with one of these; none of them panics.

use vstd::prelude::*;
use vstd::string::StringExecFns;

verus! {

/// Why an operation was rejected or failed.
#[derive(Clone, Copy, PartialEq, Eq, Structural, Debug)]
pub enum PipelineError {
    /// `start` was called while a recording was active.
    AlreadyRecording,
    /// `stop` was called while no recording was active.
    NotRecording,
    /// `stop` found an empty capture buffer.
    NoAudioRecorded,
    /// No input device could be resolved.
    NoInputDevice,
    /// A second file job was requested while one was in flight.
    AlreadyProcessing,
    /// The requested source file does not exist.
    FileNotFound,
    /// The source file's extension is not a recognized media type.
    UnsupportedMediaFile,
    /// The requested model id is not in the catalog.
    UnknownModel,
    /// The model's files are not present on disk.
    ModelNotReady,
    /// Decoding the source media failed.
    DecodeFailed,
    /// Fetching a model file failed.
    DownloadFailed,
    /// Loading a model or running inference failed.
    InferenceFailed,
}

/// The user-visible message of each error.
pub open spec fn message_spec(e: PipelineError) -> Seq<char> {
    match e {
        PipelineError::AlreadyRecording => "Already recording"@,
        PipelineError::NotRecording => "Not recording"@,
        PipelineError::NoAudioRecorded => "No audio recorded"@,
        PipelineError::NoInputDevice => "No input device available"@,
        PipelineError::AlreadyProcessing => "Already processing a file"@,
        PipelineError::FileNotFound => "File not found"@,
        PipelineError::UnsupportedMediaFile => "Not a supported media file"@,
        PipelineError::UnknownModel => "Unknown model"@,
        PipelineError::ModelNotReady => "Model files are missing"@,
        PipelineError::DecodeFailed => "Failed to decode audio"@,
        PipelineError::DownloadFailed => "Download failed"@,
        PipelineError::InferenceFailed => "Transcription failed"@,
    }
}

impl PipelineError {
    /// Render the error for display.
    pub fn message(&self) -> (r: String)
        ensures
            r@ == message_spec(*self),
    {
        match self {
            PipelineError::AlreadyRecording => String::from_str("Already recording"),
            PipelineError::NotRecording => String::from_str("Not recording"),
            PipelineError::NoAudioRecorded => String::from_str("No audio recorded"),
            PipelineError::NoInputDevice => String::from_str("No input device available"),
            PipelineError::AlreadyProcessing => String::from_str("Already processing a file"),
            PipelineError::FileNotFound => String::from_str("File not found"),
            PipelineError::UnsupportedMediaFile => String::from_str("Not a supported media file"),
            PipelineError::UnknownModel => String::from_str("Unknown model"),
            PipelineError::ModelNotReady => String::from_str("Model files are missing"),
            PipelineError::DecodeFailed => String::from_str("Failed to decode audio"),
            PipelineError::DownloadFailed => String::from_str("Download failed"),
            PipelineError::InferenceFailed => String::from_str("Transcription failed"),
        }
    }
}

} // verus!
