//! Recording session: the Idle / Recording / Transcribing state
//! machine around live capture, plus input-device resolution, the
//! amplitude-event throttle and the toggle decision of the global
//! hotkey.  Capture itself (the platform audio stream) lives outside;
//! it hands raw frames to `ingest_frame` and obeys the decisions made
//! here.

use vstd::prelude::*;
use vstd::string::StringExecFns;
use crate::error::PipelineError;
use crate::samples;
use crate::state::{AppState, Status};

verus! {

/// View of an optional owned string.
pub open spec fn opt_view(o: Option<String>) -> Option<Seq<char>> {
    match o {
        Some(s) => Some(s@),
        None => None,
    }
}

/// Whether some entry of `v` reads `s`.
pub open spec fn contains_str(v: Seq<String>, s: Seq<char>) -> bool {
    exists|i: int| 0 <= i < v.len() && v[i]@ == s
}

/// Which device a capture stream should open: the requested device if
/// it is available, else the default.
pub open spec fn resolved_device(
    available: Seq<String>,
    requested: Option<Seq<char>>,
    fallback: Option<Seq<char>>,
) -> Option<Seq<char>> {
    match requested {
        Some(name) => if contains_str(available, name) {
            Some(name)
        } else {
            fallback
        },
        None => fallback,
    }
}

/// Resolve the input device for a new stream: the requested name when
/// the device list has it, else the system default (`fallback`).
pub fn resolve_input_device(
    available: &Vec<String>,
    requested: Option<&String>,
    fallback: Option<&String>,
) -> (r: Option<String>)
    ensures
        opt_view(r) == resolved_device(
            available@,
            match requested {
                Some(s) => Some(s@),
                None => None,
            },
            match fallback {
                Some(s) => Some(s@),
                None => None,
            },
        ),
{
    let chosen: Option<&String> = match requested {
        Some(name) => {
            if device_list_contains(available, name) {
                Some(name)
            } else {
                fallback
            }
        },
        None => fallback,
    };
    match chosen {
        Some(s) => Some(s.clone()),
        None => None,
    }
}

/// Whether a device of the given name is in the list.
fn device_list_contains(available: &Vec<String>, name: &String) -> (r: bool)
    ensures
        r == contains_str(available@, name@),
{
    let mut i: usize = 0;
    let n = available.len();
    while i < n
        invariant
            n == available@.len(),
            i <= n,
            forall|k: int| 0 <= k < i ==> available@[k]@ != name@,
        decreases n - i,
    {
        if crate::text::str_eq(available[i].as_str(), name.as_str()) {
            return true;
        }
        i = i + 1;
    }
    false
}

/// Begin a recording.  Rejected unless the session is idle; on
/// success the capture buffer is cleared and the status becomes
/// Recording.  The chosen device name is returned so the caller can
/// open the stream on it.
pub fn start_recording(
    state: &mut AppState,
    available: &Vec<String>,
    requested: Option<&String>,
    fallback: Option<&String>,
) -> (r: Result<String, PipelineError>)
    ensures
        old(state).status != Status::Idle ==> {
            &&& r == Result::<String, PipelineError>::Err(PipelineError::AlreadyRecording)
            &&& *final(state) == *old(state)
        },
        old(state).status == Status::Idle ==> match resolved_device(
            available@,
            match requested { Some(s) => Some(s@), None => None },
            match fallback { Some(s) => Some(s@), None => None },
        ) {
            Some(name) => {
                &&& r is Ok
                &&& r->Ok_0@ == name
                &&& *final(state) == (AppState {
                    status: Status::Recording,
                    audio_buffer: final(state).audio_buffer,
                    ..*old(state)
                })
                &&& final(state).audio_buffer@ == Seq::<i32>::empty()
            },
            None => {
                &&& r == Result::<String, PipelineError>::Err(PipelineError::NoInputDevice)
                &&& *final(state) == *old(state)
            },
        },
{
    if state.status != Status::Idle {
        return Err(PipelineError::AlreadyRecording);
    }
    let device = match resolve_input_device(available, requested, fallback) {
        Some(d) => d,
        None => {
            return Err(PipelineError::NoInputDevice);
        },
    };
    state.audio_buffer = Vec::new();
    state.status = Status::Recording;
    Ok(device)
}

/// Normalize one raw capture frame, append it to the session buffer,
/// and report the frame's mean amplitude for the level meter (None for
/// a frame that contributed no samples).
pub fn ingest_frame(
    state: &mut AppState,
    data: &Vec<i32>,
    channels: u16,
    sample_rate: u32,
) -> (r: Option<u32>)
    requires
        sample_rate >= 1,
        samples::resampled_len(data@.len() as int, sample_rate as int, 16000) <= usize::MAX,
        old(state).audio_buffer@.len()
            + samples::converted(data@, channels as int, sample_rate as int).len() <= usize::MAX,
    ensures
        ({
            let conv = samples::converted(data@, channels as int, sample_rate as int);
            &&& *final(state) == (AppState {
                audio_buffer: final(state).audio_buffer,
                ..*old(state)
            })
            &&& final(state).audio_buffer@ == old(state).audio_buffer@ + conv
            &&& r == (if conv.len() == 0 {
                Option::<u32>::None
            } else {
                Option::<u32>::Some((samples::abs_sum(conv) / conv.len() as int) as u32)
            })
        }),
{
    let mut conv = samples::convert_samples(data, channels, sample_rate);
    let amplitude: Option<u32> = if conv.len() == 0 {
        None
    } else {
        Some(samples::amplitude_of(&conv))
    };
    state.audio_buffer.append(&mut conv);
    amplitude
}

/// Stop a recording and take the captured samples.  Valid only while
/// Recording.  An empty buffer is an error: the session returns to
/// Idle without entering Transcribing.  Otherwise the buffer is
/// drained and the session enters Transcribing.
pub fn stop_recording(state: &mut AppState) -> (r: Result<Vec<i32>, PipelineError>)
    ensures
        old(state).status != Status::Recording ==> {
            &&& r == Result::<Vec<i32>, PipelineError>::Err(PipelineError::NotRecording)
            &&& *final(state) == *old(state)
        },
        old(state).status == Status::Recording && old(state).audio_buffer@.len() == 0 ==> {
            &&& r == Result::<Vec<i32>, PipelineError>::Err(PipelineError::NoAudioRecorded)
            &&& *final(state) == (AppState { status: Status::Idle, ..*old(state) })
        },
        old(state).status == Status::Recording && old(state).audio_buffer@.len() > 0 ==> {
            &&& r is Ok
            &&& r->Ok_0@ == old(state).audio_buffer@
            &&& *final(state) == (AppState {
                status: Status::Transcribing,
                audio_buffer: final(state).audio_buffer,
                ..*old(state)
            })
            &&& final(state).audio_buffer@ == Seq::<i32>::empty()
        },
{
    if state.status != Status::Recording {
        return Err(PipelineError::NotRecording);
    }
    if state.audio_buffer.len() == 0 {
        state.status = Status::Idle;
        return Err(PipelineError::NoAudioRecorded);
    }
    let mut taken: Vec<i32> = Vec::new();
    core::mem::swap(&mut taken, &mut state.audio_buffer);
    state.status = Status::Transcribing;
    Ok(taken)
}

/// Mark the end of transcription: back to Idle.
pub fn finish_transcribing(state: &mut AppState)
    ensures
        *final(state) == (AppState { status: Status::Idle, ..*old(state) }),
{
    state.status = Status::Idle;
}

/// Cancel whatever the session is doing: discard the buffer and
/// return to Idle without emitting a result.
pub fn cancel_recording(state: &mut AppState) -> (r: Result<(), PipelineError>)
    ensures
        r is Ok,
        *final(state) == (AppState {
            status: Status::Idle,
            audio_buffer: final(state).audio_buffer,
            ..*old(state)
        }),
        final(state).audio_buffer@ == Seq::<i32>::empty(),
{
    state.audio_buffer = Vec::new();
    state.status = Status::Idle;
    Ok(())
}

/// Whether the level-metering monitor stream is open.
pub struct MonitorState {
    pub running: bool,
}

impl MonitorState {
    /// No monitor stream open.
    pub fn new() -> (r: MonitorState)
        ensures
            !r.running,
    {
        MonitorState { running: false }
    }
}

/// Resolve the device for a monitor stream.  Unlike recording, a
/// requested device that is absent is an error rather than a silent
/// fallback.
pub fn monitor_device(
    available: &Vec<String>,
    requested: Option<&String>,
    fallback: Option<&String>,
) -> (r: Result<String, PipelineError>)
    ensures
        match requested {
            Some(name) => if contains_str(available@, name@) {
                r is Ok && r->Ok_0@ == name@
            } else {
                r == Result::<String, PipelineError>::Err(PipelineError::NoInputDevice)
            },
            None => match fallback {
                Some(d) => r is Ok && r->Ok_0@ == d@,
                None => r == Result::<String, PipelineError>::Err(PipelineError::NoInputDevice),
            },
        },
{
    match requested {
        Some(name) => {
            if device_list_contains(available, name) {
                Ok(name.clone())
            } else {
                Err(PipelineError::NoInputDevice)
            }
        },
        None => match fallback {
            Some(d) => Ok(d.clone()),
            None => Err(PipelineError::NoInputDevice),
        },
    }
}

/// Note that a monitor stream opened (any previous one is stopped
/// first by the caller).
pub fn start_monitor(monitor: &mut MonitorState)
    ensures
        final(monitor).running,
{
    monitor.running = true;
}

/// Stop the monitor stream.
pub fn stop_monitor(monitor: &mut MonitorState)
    ensures
        !final(monitor).running,
{
    monitor.running = false;
}

/// A non-empty transcript is stored in history only when the user
/// keeps history on; empty results are benign no-ops.
pub fn should_store_history(text: &str, save_history: bool) -> (r: bool)
    ensures
        r == (text@.len() > 0 && save_history),
{
    !text.is_empty() && save_history
}

/// Duration in milliseconds of `n` samples at the canonical 16 kHz.
pub fn recording_duration_ms(n: usize) -> (r: u64)
    ensures
        r == n as int * 1000 / 16000,
{
    (((n as u128) * 1000) / 16000) as u64
}

/// The configured language, as handed to the engine: "auto" means
/// auto-detect, i.e. no hint.
pub fn language_option(raw: &str) -> (r: Option<String>)
    ensures
        match r {
            Some(s) => raw@ != "auto"@ && s@ == raw@,
            None => raw@ == "auto"@,
        },
{
    if crate::text::str_eq(raw, "auto") {
        None
    } else {
        Some(String::from_str(raw))
    }
}

/// What a press of the global hotkey should do in each status: start
/// from Idle, stop from Recording, nothing while Transcribing.
#[derive(Clone, Copy, PartialEq, Eq, Structural, Debug)]
pub enum ToggleAction {
    StartRecording,
    StopRecording,
}

/// Decide the hotkey toggle for the current status.
pub fn hotkey_action(status: Status) -> (r: Option<ToggleAction>)
    ensures
        r == match status {
            Status::Idle => Some(ToggleAction::StartRecording),
            Status::Recording => Some(ToggleAction::StopRecording),
            Status::Transcribing => Option::<ToggleAction>::None,
        },
{
    match status {
        Status::Idle => Some(ToggleAction::StartRecording),
        Status::Recording => Some(ToggleAction::StopRecording),
        Status::Transcribing => None,
    }
}

/// Throttle for amplitude events: at most one emission per 50 ms,
/// i.e. at most 20 updates per second.
pub struct EmitThrottle {
    /// Time of the last emission, in milliseconds.
    pub last_emit_ms: u64,
}

impl EmitThrottle {
    /// A throttle that counts from `now_ms`.
    pub fn new(now_ms: u64) -> (r: EmitThrottle)
        ensures
            r.last_emit_ms == now_ms,
    {
        EmitThrottle { last_emit_ms: now_ms }
    }

    /// Whether an event may be emitted at `now_ms`; emitting resets
    /// the window.
    pub fn should_emit(&mut self, now_ms: u64) -> (r: bool)
        ensures
            r == (now_ms >= old(self).last_emit_ms + 50),
            r ==> final(self).last_emit_ms == now_ms,
            !r ==> *final(self) == *old(self),
    {
        if now_ms >= 50 && now_ms - 50 >= self.last_emit_ms {
            self.last_emit_ms = now_ms;
            true
        } else {
            false
        }
    }
}

} // verus!
