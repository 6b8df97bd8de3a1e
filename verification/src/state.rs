//! The process-scoped application state: the session status, the
//! capture buffer, the configured hotkey, and the single-flight guards
//! of the downloader and the file pipeline.  All global mutable state
//! of the pipeline lives in this one injected context object.

use vstd::prelude::*;
use vstd::string::StringExecFns;

verus! {

/// The recording session's status.  Exactly one instance exists per
/// process; transitions are the only way it changes.
#[derive(Clone, Copy, PartialEq, Eq, Structural, Debug)]
pub enum Status {
    Idle,
    Recording,
    Transcribing,
}

/// The event label for each status.
pub open spec fn status_label_spec(s: Status) -> Seq<char> {
    match s {
        Status::Idle => "idle"@,
        Status::Recording => "recording"@,
        Status::Transcribing => "transcribing"@,
    }
}

impl Status {
    /// The label carried by `status-changed` events.
    pub fn as_str(&self) -> (r: &'static str)
        ensures
            r@ == status_label_spec(*self),
    {
        match self {
            Status::Idle => "idle",
            Status::Recording => "recording",
            Status::Transcribing => "transcribing",
        }
    }
}

/// Process-scoped context holding the pipeline's mutable state.
pub struct AppState {
    /// Current session status.
    pub status: Status,
    /// Accumulated mono 16 kHz samples of the active recording.
    pub audio_buffer: Vec<i32>,
    /// The configured global hotkey.
    pub hotkey: String,
    /// Single-flight guard of model acquisition (any id).
    pub download_in_progress: bool,
    /// Single-flight guard of the batch file pipeline.
    pub file_processing: bool,
    /// Cooperative cancellation request of the active file job.
    pub file_cancel_requested: bool,
    /// Learned processing speed: microseconds of processing per second
    /// of audio; 1_000_000 is the pristine 1:1 ratio.
    pub speed_ratio_micros: u64,
}

/// The pristine 1:1 speed ratio.
pub const INITIAL_SPEED_RATIO_MICROS: u64 = 1_000_000;

impl AppState {
    /// A fresh context: idle, empty buffer, default hotkey, no
    /// operation in flight, pristine speed ratio.
    pub fn new() -> (r: AppState)
        ensures
            r.status == Status::Idle,
            r.audio_buffer@ == Seq::<i32>::empty(),
            r.hotkey@ == "Alt+Space"@,
            !r.download_in_progress,
            !r.file_processing,
            !r.file_cancel_requested,
            r.speed_ratio_micros == INITIAL_SPEED_RATIO_MICROS,
    {
        AppState {
            status: Status::Idle,
            audio_buffer: Vec::new(),
            hotkey: String::from_str("Alt+Space"),
            download_in_progress: false,
            file_processing: false,
            file_cancel_requested: false,
            speed_ratio_micros: 1_000_000,
        }
    }

    /// Current status.
    pub fn status(&self) -> (r: Status)
        ensures
            r == self.status,
    {
        self.status
    }

    /// Overwrite the status.
    pub fn set_status(&mut self, status: Status)
        ensures
            *final(self) == (AppState { status, ..*old(self) }),
    {
        self.status = status;
    }

    /// The configured hotkey.
    pub fn hotkey(&self) -> (r: String)
        ensures
            r@ == self.hotkey@,
    {
        self.hotkey.clone()
    }

    /// Overwrite the configured hotkey.
    pub fn set_hotkey(&mut self, hotkey: String)
        ensures
            *final(self) == (AppState { hotkey, ..*old(self) }),
    {
        self.hotkey = hotkey;
    }
}

} // verus!
