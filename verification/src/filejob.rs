//! Batch file transcription: the single-flight pipeline guard with
//! its cooperative cancellation checkpoints, the learned SpeedRatio
//! and the progress estimate derived from it, media-file detection,
//! and the unique naming of the output transcript.
//!
//! Decode, inference and the filesystem writes run outside; they call
//! in here at every decision point.

use vstd::prelude::*;
use vstd::arithmetic::div_mod::{lemma_div_is_ordered, lemma_div_pos_is_pos, lemma_div_multiples_vanish};
use vstd::string::StringExecFns;
use crate::error::PipelineError;
use crate::state::AppState;
use crate::text::{dec_str, u64_to_string};

verus! {

/// Lifecycle phase of the (at most one) active file job.
#[derive(Clone, Copy, PartialEq, Eq, Structural, Debug)]
pub enum FilePhase {
    Idle,
    Converting,
    Transcribing,
    Completed,
    Error,
}

/// The label each phase carries in status events.
pub open spec fn phase_label_spec(p: FilePhase) -> Seq<char> {
    match p {
        FilePhase::Idle => "idle"@,
        FilePhase::Converting => "converting"@,
        FilePhase::Transcribing => "transcribing"@,
        FilePhase::Completed => "completed"@,
        FilePhase::Error => "error"@,
    }
}

impl FilePhase {
    /// The event label of this phase.
    pub fn as_str(&self) -> (r: &'static str)
        ensures
            r@ == phase_label_spec(*self),
    {
        match self {
            FilePhase::Idle => "idle",
            FilePhase::Converting => "converting",
            FilePhase::Transcribing => "transcribing",
            FilePhase::Completed => "completed",
            FilePhase::Error => "error",
        }
    }
}

/// Payload of a `file-transcription-status` event.  Durations are in
/// milliseconds.
pub struct FileTranscriptionStatus {
    pub status: FilePhase,
    pub file_name: Option<String>,
    pub source_path: Option<String>,
    /// 0 through 100.
    pub progress: u32,
    pub elapsed_secs: u64,
    pub estimated_secs: u64,
    /// Audio duration of the decoded file.
    pub duration_ms: Option<u64>,
    /// Time spent decoding and resampling.
    pub decode_ms: Option<u64>,
    pub result_text: Option<String>,
    pub output_path: Option<String>,
    pub error: Option<String>,
}

impl Default for FileTranscriptionStatus {
    /// The idle template every job resets to.
    fn default() -> (r: FileTranscriptionStatus)
        ensures
            r.status == FilePhase::Idle,
            r.file_name is None,
            r.source_path is None,
            r.progress == 0,
            r.elapsed_secs == 0,
            r.estimated_secs == 0,
            r.duration_ms is None,
            r.decode_ms is None,
            r.result_text is None,
            r.output_path is None,
            r.error is None,
    {
        FileTranscriptionStatus {
            status: FilePhase::Idle,
            file_name: None,
            source_path: None,
            progress: 0,
            elapsed_secs: 0,
            estimated_secs: 0,
            duration_ms: None,
            decode_ms: None,
            result_text: None,
            output_path: None,
            error: None,
        }
    }
}

/// Admit a file-transcription request: the path must exist and carry
/// a recognized media extension, and no other job may be in flight.
/// On success the single-flight guard is taken and any stale
/// cancellation request is cleared.
pub fn begin_file_job(state: &mut AppState, file_exists: bool, media_ok: bool)
    -> (r: Result<(), PipelineError>)
    ensures
        !file_exists ==> {
            &&& r == Result::<(), PipelineError>::Err(PipelineError::FileNotFound)
            &&& *final(state) == *old(state)
        },
        file_exists && !media_ok ==> {
            &&& r == Result::<(), PipelineError>::Err(PipelineError::UnsupportedMediaFile)
            &&& *final(state) == *old(state)
        },
        file_exists && media_ok && old(state).file_processing ==> {
            &&& r == Result::<(), PipelineError>::Err(PipelineError::AlreadyProcessing)
            &&& *final(state) == *old(state)
        },
        file_exists && media_ok && !old(state).file_processing ==> {
            &&& r is Ok
            &&& *final(state) == (AppState {
                file_processing: true,
                file_cancel_requested: false,
                ..*old(state)
            })
        },
{
    if !file_exists {
        return Err(PipelineError::FileNotFound);
    }
    if !media_ok {
        return Err(PipelineError::UnsupportedMediaFile);
    }
    if state.file_processing {
        return Err(PipelineError::AlreadyProcessing);
    }
    state.file_processing = true;
    state.file_cancel_requested = false;
    Ok(())
}

/// Request cancellation of the active job.  It takes effect at the
/// next checkpoint; work already in flight runs to completion first.
pub fn request_file_cancel(state: &mut AppState)
    ensures
        *final(state) == (AppState { file_cancel_requested: true, ..*old(state) }),
{
    state.file_cancel_requested = true;
}

/// Whether a file job is in flight.
pub fn is_processing(state: &AppState) -> (r: bool)
    ensures
        r == state.file_processing,
{
    state.file_processing
}

/// A cooperative cancellation checkpoint (after decode, after
/// transcription).  When cancellation was requested the job releases
/// its guard and the caller resets to the idle template, discarding
/// any result.
pub fn cancellation_checkpoint(state: &mut AppState) -> (cancelled: bool)
    ensures
        cancelled == old(state).file_cancel_requested,
        cancelled ==> *final(state) == (AppState { file_processing: false, ..*old(state) }),
        !cancelled ==> *final(state) == *old(state),
{
    if state.file_cancel_requested {
        state.file_processing = false;
        true
    } else {
        false
    }
}

/// The unconditional final step of every job, whichever branch it
/// took: both flags are cleared so the pipeline is ready for the
/// next request.
pub fn finish_file_job(state: &mut AppState)
    ensures
        *final(state) == (AppState {
            file_processing: false,
            file_cancel_requested: false,
            ..*old(state)
        }),
{
    state.file_processing = false;
    state.file_cancel_requested = false;
}

/// A processing-speed observation in ratio micro-units: microseconds
/// of processing per second of audio.
pub fn ratio_micros_of(processing_micros: u64, duration_ms: u64) -> (r: u64)
    requires
        duration_ms >= 1,
    ensures
        r == (if processing_micros as int * 1000 / duration_ms as int > u64::MAX {
            u64::MAX as int
        } else {
            processing_micros as int * 1000 / duration_ms as int
        }),
{
    proof {
        lemma_div_pos_is_pos(processing_micros as int * 1000, duration_ms as int);
    }
    let q: u128 = (processing_micros as u128) * 1000 / (duration_ms as u128);
    if q > u64::MAX as u128 {
        u64::MAX
    } else {
        q as u64
    }
}

/// How a new speed observation updates the learned ratio: the first
/// observation replaces the pristine 1:1 ratio outright; later ones
/// blend 30% old with 70% new, weighting recency and damping
/// outliers.
pub open spec fn blended_ratio(old_micros: int, new_micros: int) -> int {
    if old_micros == 1_000_000 {
        new_micros
    } else {
        (3 * old_micros + 7 * new_micros) / 10
    }
}

/// Fold one observation into the learned SpeedRatio.  It is used
/// only for the next job's estimate, never retroactively.
pub fn observe_ratio(state: &mut AppState, new_ratio_micros: u64)
    ensures
        *final(state) == (AppState {
            speed_ratio_micros: final(state).speed_ratio_micros,
            ..*old(state)
        }),
        final(state).speed_ratio_micros
            == blended_ratio(old(state).speed_ratio_micros as int, new_ratio_micros as int),
{
    if state.speed_ratio_micros == 1_000_000 {
        state.speed_ratio_micros = new_ratio_micros;
    } else {
        let blend: u128 = (3 * (state.speed_ratio_micros as u128)
            + 7 * (new_ratio_micros as u128)) / 10;
        proof {
            let a = state.speed_ratio_micros as int;
            let b = new_ratio_micros as int;
            let m = if a > b { a } else { b };
            lemma_div_is_ordered(3 * a + 7 * b, 10 * m, 10);
            lemma_div_multiples_vanish(m, 10);
            lemma_div_pos_is_pos(3 * a + 7 * b, 10);
        }
        state.speed_ratio_micros = blend as u64;
    }
}

/// The estimate for a job: audio duration times the learned ratio,
/// never less than one second.
pub fn estimated_secs(duration_ms: u64, ratio_micros: u64) -> (r: u64)
    ensures
        ({
            let exact = duration_ms as int * ratio_micros as int / 1_000_000_000;
            &&& r == (if exact < 1 {
                1int
            } else if exact > u64::MAX {
                u64::MAX as int
            } else {
                exact
            })
            &&& r >= 1
        }),
{
    proof {
        assert((duration_ms as int) * (ratio_micros as int)
            <= 0xffff_ffff_ffff_ffff * 0xffff_ffff_ffff_ffff)
            by (nonlinear_arith)
            requires
                duration_ms as int <= 0xffff_ffff_ffff_ffff,
                ratio_micros as int <= 0xffff_ffff_ffff_ffff,
                duration_ms >= 0,
                ratio_micros >= 0;
        lemma_div_pos_is_pos(duration_ms as int * ratio_micros as int, 1_000_000_000);
    }
    let q: u128 = (duration_ms as u128) * (ratio_micros as u128) / 1_000_000_000;
    if q < 1 {
        1
    } else if q > u64::MAX as u128 {
        u64::MAX
    } else {
        q as u64
    }
}

/// Percent shown while transcription runs: elapsed over estimate,
/// capped at 95 so the bar never reads done before the job is.
pub fn file_progress_percent(elapsed_secs: u64, estimated_secs: u64) -> (r: u32)
    requires
        estimated_secs >= 1,
    ensures
        r == (if elapsed_secs as int * 100 / estimated_secs as int > 95 {
            95int
        } else {
            elapsed_secs as int * 100 / estimated_secs as int
        }),
        r <= 95,
{
    proof {
        lemma_div_pos_is_pos(elapsed_secs as int * 100, estimated_secs as int);
    }
    let q: u128 = (elapsed_secs as u128) * 100 / (estimated_secs as u128);
    if q > 95 {
        95
    } else {
        q as u32
    }
}

/// Index of the last `.` in `name`, or -1 if it has none.
pub open spec fn last_dot(name: Seq<char>) -> int
    decreases name.len(),
{
    if name.len() == 0 {
        -1
    } else if name.last() == '.' {
        name.len() - 1
    } else {
        last_dot(name.drop_last())
    }
}

/// The extension of a file name, with the semantics of
/// `std::path::Path::extension`: the part after the last dot, unless
/// the only dot is the leading one of a hidden file.
pub open spec fn ext_of(name: Seq<char>) -> Option<Seq<char>> {
    if last_dot(name) <= 0 {
        None
    } else {
        Some(name.skip(last_dot(name) + 1))
    }
}

/// `a` equals lowercase letter `b` up to ASCII case.
pub open spec fn char_eq_lower(a: char, b: char) -> bool {
    a == b || (65 <= a as int <= 90 && a as int + 32 == b as int)
}

/// `e` spells the (lowercase) extension `lit`, ignoring ASCII case.
pub open spec fn ext_matches(e: Seq<char>, lit: Seq<char>) -> bool {
    e.len() == lit.len() && forall|i: int| 0 <= i < e.len() ==> char_eq_lower(e[i], lit[i])
}

/// The recognized media extensions.
pub open spec fn is_media_ext(e: Seq<char>) -> bool {
    ||| ext_matches(e, "mp3"@)
    ||| ext_matches(e, "m4a"@)
    ||| ext_matches(e, "ogg"@)
    ||| ext_matches(e, "wav"@)
    ||| ext_matches(e, "flac"@)
    ||| ext_matches(e, "aac"@)
    ||| ext_matches(e, "wma"@)
    ||| ext_matches(e, "opus"@)
    ||| ext_matches(e, "mp4"@)
    ||| ext_matches(e, "m4v"@)
    ||| ext_matches(e, "mkv"@)
    ||| ext_matches(e, "webm"@)
    ||| ext_matches(e, "mov"@)
}

/// A path is accepted by the file pipeline iff the extension of its
/// final segment is a recognized media extension.
pub open spec fn is_media_spec(path: Seq<char>) -> bool {
    match ext_of(crate::registry::tail_segment(path)) {
        Some(e) => is_media_ext(e),
        None => false,
    }
}

proof fn lemma_last_dot_position(s: Seq<char>, j: int)
    requires
        -1 <= j < s.len(),
        forall|k: int| j < k < s.len() ==> s[k] != '.',
        j >= 0 ==> s[j] == '.',
    ensures
        last_dot(s) == j,
    decreases s.len(),
{
    if s.len() == 0 {
    } else if j == s.len() - 1 {
    } else {
        assert(s.last() != '.');
        lemma_last_dot_position(s.drop_last(), j);
    }
}

/// Case-insensitive comparison of an extension against a lowercase
/// pattern.
fn ext_eq_ci(e: &str, lit: &str) -> (r: bool)
    ensures
        r == ext_matches(e@, lit@),
{
    let elen: usize = e.unicode_len();
    let llen: usize = lit.unicode_len();
    if elen != llen {
        return false;
    }
    let mut i: usize = 0;
    while i < elen
        invariant
            elen == e@.len(),
            elen == lit@.len(),
            i <= elen,
            forall|k: int| 0 <= k < i ==> char_eq_lower(e@[k], lit@[k]),
        decreases elen - i,
    {
        let a: u32 = e.get_char(i) as u32;
        let b: u32 = lit.get_char(i) as u32;
        if !(a == b || (65 <= a && a <= 90 && a + 32 == b)) {
            return false;
        }
        i = i + 1;
    }
    true
}

/// Whether a path names a file the pipeline can ingest, judged by
/// its extension alone (ignoring ASCII case).
pub fn is_media_file(path: &str) -> (r: bool)
    ensures
        r == is_media_spec(path@),
{
    let name = crate::registry::path_file_name(path);
    let nstr = name.as_str();
    let n: usize = nstr.unicode_len();
    let mut dot: usize = 0;
    let mut has_dot = false;
    let mut k: usize = 0;
    while k < n
        invariant
            n == nstr@.len(),
            k <= n,
            has_dot ==> dot < k && nstr@[dot as int] == '.',
            forall|j: int| (if has_dot { dot < j < k } else { 0 <= j < k }) ==> nstr@[j] != '.',
        decreases n - k,
    {
        if nstr.get_char(k) == '.' {
            dot = k;
            has_dot = true;
        }
        k = k + 1;
    }
    proof {
        if has_dot {
            lemma_last_dot_position(nstr@, dot as int);
        } else {
            lemma_last_dot_position(nstr@, -1);
        }
    }
    if !has_dot || dot == 0 {
        return false;
    }
    let e = nstr.substring_char(dot + 1, n);
    proof {
        assert(ext_of(nstr@) == Some(e@));
    }
    if ext_eq_ci(e, "mp3") || ext_eq_ci(e, "m4a") || ext_eq_ci(e, "ogg")
        || ext_eq_ci(e, "wav") || ext_eq_ci(e, "flac") || ext_eq_ci(e, "aac")
        || ext_eq_ci(e, "wma") || ext_eq_ci(e, "opus") || ext_eq_ci(e, "mp4")
        || ext_eq_ci(e, "m4v") || ext_eq_ci(e, "mkv") || ext_eq_ci(e, "webm")
        || ext_eq_ci(e, "mov")
    {
        true
    } else {
        false
    }
}

/// The stem the output transcript is named after: the source file
/// name without its extension, or a fixed fallback for an empty name.
pub open spec fn output_stem_spec(name: Seq<char>) -> Seq<char> {
    if name.len() == 0 {
        "transcription"@
    } else if last_dot(name) <= 0 {
        name
    } else {
        name.take(last_dot(name))
    }
}

/// Strip the extension off a source file name.
pub fn output_stem(file_name: &str) -> (r: String)
    ensures
        r@ == output_stem_spec(file_name@),
{
    let n: usize = file_name.unicode_len();
    if n == 0 {
        return String::from_str("transcription");
    }
    let mut dot: usize = 0;
    let mut has_dot = false;
    let mut k: usize = 0;
    while k < n
        invariant
            n == file_name@.len(),
            k <= n,
            has_dot ==> dot < k && file_name@[dot as int] == '.',
            forall|j: int| (if has_dot { dot < j < k } else { 0 <= j < k })
                ==> file_name@[j] != '.',
        decreases n - k,
    {
        if file_name.get_char(k) == '.' {
            dot = k;
            has_dot = true;
        }
        k = k + 1;
    }
    proof {
        if has_dot {
            lemma_last_dot_position(file_name@, dot as int);
        } else {
            lemma_last_dot_position(file_name@, -1);
        }
    }
    if !has_dot || dot == 0 {
        String::from_str(file_name)
    } else {
        let s = file_name.substring_char(0, dot);
        proof {
            assert(s@ =~= file_name@.take(dot as int));
        }
        String::from_str(s)
    }
}

/// The `i`-th output name candidate for a stem: `stem.txt` first,
/// then `stem (2).txt`, `stem (3).txt`, and so on.
pub open spec fn candidate_name(stem: Seq<char>, i: int) -> Seq<char> {
    if i <= 1 {
        stem + ".txt"@
    } else {
        stem + " ("@ + dec_str(i) + ").txt"@
    }
}

/// Whether some name in `taken` reads `name`.
pub open spec fn taken_has(taken: Seq<String>, name: Seq<char>) -> bool {
    exists|j: int| 0 <= j < taken.len() && taken[j]@ == name
}

fn list_has(taken: &Vec<String>, name: &str) -> (r: bool)
    ensures
        r == taken_has(taken@, name@),
{
    let mut i: usize = 0;
    let n = taken.len();
    while i < n
        invariant
            n == taken@.len(),
            i <= n,
            forall|k: int| 0 <= k < i ==> taken@[k]@ != name@,
        decreases n - i,
    {
        if crate::text::str_eq(taken[i].as_str(), name) {
            return true;
        }
        i = i + 1;
    }
    false
}

fn make_candidate(stem: &str, i: u64) -> (r: String)
    requires
        1 <= i <= 999,
    ensures
        r@ == candidate_name(stem@, i as int),
{
    if i <= 1 {
        let mut s = String::from_str(stem);
        s.append(".txt");
        s
    } else {
        let mut s = String::from_str(stem);
        s.append(" (");
        let num = u64_to_string(i);
        s.append(num.as_str());
        s.append(").txt");
        proof {
            assert(s@ =~= candidate_name(stem@, i as int));
        }
        s
    }
}

/// First free output name for a stem, trying `stem.txt`, then
/// `stem (2).txt` through `stem (999).txt`.  None when every
/// candidate is taken.
pub fn pick_output_name(stem: &str, taken: &Vec<String>) -> (r: Option<String>)
    ensures
        match r {
            Some(s) => exists|i: int| {
                &&& 1 <= i <= 999
                &&& s@ == candidate_name(stem@, i)
                &&& !taken_has(taken@, candidate_name(stem@, i))
                &&& forall|j: int| 1 <= j < i ==> taken_has(taken@, candidate_name(stem@, j))
            },
            None => forall|i: int| 1 <= i <= 999 ==> taken_has(taken@, candidate_name(stem@, i)),
        },
{
    let mut i: u64 = 1;
    while i <= 999
        invariant
            1 <= i <= 1000,
            forall|j: int| 1 <= j < i ==> taken_has(taken@, candidate_name(stem@, j)),
        decreases 1000 - i,
    {
        let cand = make_candidate(stem, i);
        if !list_has(taken, cand.as_str()) {
            proof {
                assert(1 <= i as int <= 999
                    && cand@ == candidate_name(stem@, i as int)
                    && !taken_has(taken@, candidate_name(stem@, i as int)));
            }
            return Some(cand);
        }
        i = i + 1;
    }
    None
}

/// An output name that is certainly new: the first free numbered
/// candidate, or — if all 999 are taken — a random-suffix fallback.
pub fn unique_output_name(stem: &str, taken: &Vec<String>) -> (r: String)
    ensures
        (exists|i: int| {
            &&& 1 <= i <= 999
            &&& r@ == candidate_name(stem@, i)
            &&& !taken_has(taken@, candidate_name(stem@, i))
            &&& forall|j: int| 1 <= j < i ==> taken_has(taken@, candidate_name(stem@, j))
        }) || (exists|u: Seq<char>| {
            &&& u.len() == 36
            &&& r@ == stem@ + " ("@ + u + ").txt"@
            &&& forall|i: int| 1 <= i <= 999 ==> taken_has(taken@, candidate_name(stem@, i))
        }),
{
    match pick_output_name(stem, taken) {
        Some(name) => name,
        None => {
            let mut s = String::from_str(stem);
            s.append(" (");
            let suffix = crate::os::random_name();
            s.append(suffix.as_str());
            s.append(").txt");
            proof {
                assert(s@ =~= stem@ + " ("@ + suffix@ + ").txt"@);
            }
            s
        },
    }
}

} // verus!
