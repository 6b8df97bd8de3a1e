//! Transcription engine control: the per-kind model caches with their
//! idempotent load and eviction rules, the hardware-acceleration
//! fallback policy, and the dispatch of a transcription request to
//! the engine kind the model declares.  Inference itself is the
//! opaque outside box; everything it is handed, and everything done
//! with what it returns, is decided and proved here.

use vstd::prelude::*;
use vstd::string::StringExecFns;
use crate::registry::{Engine, ModelDef};
use crate::os;

verus! {

/// The lazily-loaded model caches, one slot per engine kind.  The
/// handles themselves live with the inference backend; the library
/// tracks which model occupies each slot.
pub struct EngineCaches {
    /// Engine A has a single anonymous slot.
    pub parakeet_loaded: bool,
    /// Engine B remembers which model id is resident.
    pub whisper_loaded: Option<String>,
}

impl EngineCaches {
    /// Both slots cold.
    pub fn new() -> (r: EngineCaches)
        ensures
            !r.parakeet_loaded,
            r.whisper_loaded is None,
    {
        EngineCaches { parakeet_loaded: false, whisper_loaded: None }
    }
}

/// What a load request must do to the cache slot.
#[derive(Clone, Copy, PartialEq, Eq, Structural, Debug)]
pub enum LoadAction {
    /// The requested model is already resident: loading is a no-op.
    AlreadyLoaded,
    /// The model must be loaded; `evict_previous` says whether a
    /// different resident model has to be dropped first.
    Load { evict_previous: bool },
}

/// Engine A load decision: any resident model satisfies the request.
pub fn parakeet_load_action(caches: &EngineCaches) -> (r: LoadAction)
    ensures
        r == (if caches.parakeet_loaded {
            LoadAction::AlreadyLoaded
        } else {
            LoadAction::Load { evict_previous: false }
        }),
{
    if caches.parakeet_loaded {
        LoadAction::AlreadyLoaded
    } else {
        LoadAction::Load { evict_previous: false }
    }
}

/// Engine B load decision: loading is a no-op exactly when the
/// requested id is the resident one; a different resident model is
/// evicted before the new load.
pub fn whisper_load_action(caches: &EngineCaches, model_id: &str) -> (r: LoadAction)
    ensures
        r == (match caches.whisper_loaded {
            Some(id) => if id@ == model_id@ {
                LoadAction::AlreadyLoaded
            } else {
                LoadAction::Load { evict_previous: true }
            },
            None => LoadAction::Load { evict_previous: false },
        }),
{
    match &caches.whisper_loaded {
        Some(id) => {
            if crate::text::str_eq(id.as_str(), model_id) {
                LoadAction::AlreadyLoaded
            } else {
                LoadAction::Load { evict_previous: true }
            }
        },
        None => LoadAction::Load { evict_previous: false },
    }
}

/// Record a successful engine A load.
pub fn note_parakeet_loaded(caches: &mut EngineCaches)
    ensures
        final(caches).parakeet_loaded,
        final(caches).whisper_loaded == old(caches).whisper_loaded,
{
    caches.parakeet_loaded = true;
}

/// Record a successful engine B load of `model_id`.
pub fn note_whisper_loaded(caches: &mut EngineCaches, model_id: &str)
    ensures
        final(caches).parakeet_loaded == old(caches).parakeet_loaded,
        match final(caches).whisper_loaded {
            Some(id) => id@ == model_id@,
            None => false,
        },
{
    caches.whisper_loaded = Some(String::from_str(model_id));
}

/// Unload whatever a deleted model occupies: engine A's slot is
/// dropped for any engine A model; engine B's slot only when the
/// deleted id is the resident one.
pub fn evict_for_delete(caches: &mut EngineCaches, engine: Engine, model_id: &str)
    ensures
        engine == Engine::Parakeet ==> {
            &&& !final(caches).parakeet_loaded
            &&& final(caches).whisper_loaded == old(caches).whisper_loaded
        },
        engine == Engine::Whisper ==> {
            &&& final(caches).parakeet_loaded == old(caches).parakeet_loaded
            &&& final(caches).whisper_loaded == (match old(caches).whisper_loaded {
                Some(id) => if id@ == model_id@ {
                    Option::<String>::None
                } else {
                    old(caches).whisper_loaded
                },
                None => Option::<String>::None,
            })
        },
{
    match engine {
        Engine::Parakeet => {
            caches.parakeet_loaded = false;
        },
        Engine::Whisper => {
            let clear = match &caches.whisper_loaded {
                Some(id) => crate::text::str_eq(id.as_str(), model_id),
                None => false,
            };
            if clear {
                caches.whisper_loaded = None;
            }
        },
    }
}

/// A background warm-up touches the cache only for a model that is
/// both known and fully on disk; otherwise it is a silent no-op.
pub fn preload_action(known: bool, ready: bool) -> (r: bool)
    ensures
        r == (known && ready),
{
    known && ready
}

/// The execution paths a model can be loaded on.
#[derive(Clone, Copy, PartialEq, Eq, Structural, Debug)]
pub enum ExecBackend {
    /// The hardware-accelerated path, tried first where available.
    Accelerated,
    /// The plain CPU path, always available.
    Cpu,
}

/// The load attempts in order: the accelerated path first where the
/// platform offers one, then — transparently, without surfacing the
/// first failure — the CPU path.
pub fn load_attempts(accel_available: bool) -> (r: Vec<ExecBackend>)
    ensures
        accel_available ==> r@ =~= seq![ExecBackend::Accelerated, ExecBackend::Cpu],
        !accel_available ==> r@ =~= seq![ExecBackend::Cpu],
        r@.len() >= 1,
        r@.last() == ExecBackend::Cpu,
{
    let mut v: Vec<ExecBackend> = Vec::new();
    if accel_available {
        v.push(ExecBackend::Accelerated);
    }
    v.push(ExecBackend::Cpu);
    v
}

/// The name of each execution path, as logged and displayed.
pub fn execution_provider_label(backend: ExecBackend) -> (r: &'static str)
    ensures
        backend == ExecBackend::Accelerated ==> r@ == "DirectML"@,
        backend == ExecBackend::Cpu ==> r@ == "CPU"@,
{
    match backend {
        ExecBackend::Accelerated => "DirectML",
        ExecBackend::Cpu => "CPU",
    }
}

/// What to do after a load attempt fails: retry on CPU after an
/// accelerated failure, give up after a CPU failure.
pub fn fallback_after_failure(failed: ExecBackend) -> (r: Option<ExecBackend>)
    ensures
        r == (match failed {
            ExecBackend::Accelerated => Some(ExecBackend::Cpu),
            ExecBackend::Cpu => Option::<ExecBackend>::None,
        }),
{
    match failed {
        ExecBackend::Accelerated => Some(ExecBackend::Cpu),
        ExecBackend::Cpu => None,
    }
}

/// Engine B inference thread count for a machine with `cpus` logical
/// CPUs: all of them, capped at 8.
pub fn thread_count_for(cpus: usize) -> (r: i32)
    requires
        cpus >= 1,
    ensures
        r == (if cpus > 8 { 8int } else { cpus as int }),
{
    if cpus > 8 {
        8
    } else {
        cpus as i32
    }
}

/// Engine B inference thread count for this machine.
pub fn whisper_thread_count() -> (r: i32)
    ensures
        1 <= r <= 8,
{
    let cpus = os::cpu_count();
    thread_count_for(cpus)
}

/// Everything handed to an engine B inference call.
pub struct WhisperParams {
    pub threads: i32,
    /// Language hint; None means auto-detect.
    pub language: Option<String>,
    /// Translate the result to English.
    pub translate: bool,
    pub print_progress: bool,
    pub print_realtime: bool,
    pub print_timestamps: bool,
    pub suppress_blank: bool,
    pub suppress_non_speech_tokens: bool,
}

/// Build the engine B inference parameters: the language hint and
/// translate flag are forwarded, console printing is off, blank and
/// non-speech output is suppressed.
pub fn whisper_params(language: Option<String>, translate: bool) -> (r: WhisperParams)
    ensures
        1 <= r.threads <= 8,
        crate::session::opt_view(r.language) == crate::session::opt_view(language),
        r.translate == translate,
        !r.print_progress,
        !r.print_realtime,
        !r.print_timestamps,
        r.suppress_blank,
        r.suppress_non_speech_tokens,
{
    WhisperParams {
        threads: whisper_thread_count(),
        language,
        translate,
        print_progress: false,
        print_realtime: false,
        print_timestamps: false,
        suppress_blank: true,
        suppress_non_speech_tokens: true,
    }
}

/// Concatenation of the segment texts an engine B run produced.
pub open spec fn joined(segs: Seq<String>) -> Seq<char>
    decreases segs.len(),
{
    if segs.len() == 0 {
        Seq::empty()
    } else {
        joined(segs.drop_last()) + segs.last()@
    }
}

/// ASCII whitespace, as trimmed off the assembled transcript.
pub open spec fn is_space_char(c: char) -> bool {
    c == ' ' || c == '\t' || c == '\n' || c == '\r'
}

/// `s` without its leading whitespace.
pub open spec fn trim_front(s: Seq<char>) -> Seq<char>
    decreases s.len(),
{
    if s.len() > 0 && is_space_char(s[0]) {
        trim_front(s.skip(1))
    } else {
        s
    }
}

/// `s` without its trailing whitespace.
pub open spec fn trim_back(s: Seq<char>) -> Seq<char>
    decreases s.len(),
{
    if s.len() > 0 && is_space_char(s.last()) {
        trim_back(s.drop_last())
    } else {
        s
    }
}

/// `s` without leading and trailing whitespace.
pub open spec fn trimmed(s: Seq<char>) -> Seq<char> {
    trim_back(trim_front(s))
}

proof fn lemma_trim_front_at(s: Seq<char>, a: int)
    requires
        0 <= a <= s.len(),
        forall|k: int| 0 <= k < a ==> is_space_char(s[k]),
        a < s.len() ==> !is_space_char(s[a]),
    ensures
        trim_front(s) == s.skip(a),
    decreases a,
{
    if a == 0 {
        assert(s.skip(0) =~= s);
    } else {
        lemma_trim_front_at(s.skip(1), a - 1);
        assert(s.skip(1).skip(a - 1) =~= s.skip(a));
    }
}

proof fn lemma_trim_back_at(s: Seq<char>, m: int)
    requires
        0 <= m <= s.len(),
        forall|k: int| m <= k < s.len() ==> is_space_char(s[k]),
        m > 0 ==> !is_space_char(s[m - 1]),
    ensures
        trim_back(s) == s.take(m),
    decreases s.len(),
{
    if m == s.len() {
        assert(s.take(m) =~= s);
    } else {
        assert(is_space_char(s.last()));
        lemma_trim_back_at(s.drop_last(), m);
        assert(s.drop_last().take(m) =~= s.take(m));
    }
}

/// Join the segment texts of an engine B run into one transcript.
pub fn concat_segments(segs: &Vec<String>) -> (r: String)
    ensures
        r@ == joined(segs@),
{
    let mut out = String::new();
    let mut i: usize = 0;
    let n = segs.len();
    while i < n
        invariant
            n == segs@.len(),
            i <= n,
            out@ == joined(segs@.subrange(0, i as int)),
        decreases n - i,
    {
        proof {
            assert(segs@.subrange(0, i + 1).drop_last() =~= segs@.subrange(0, i as int));
        }
        out.append(segs[i].as_str());
        i = i + 1;
    }
    proof {
        assert(segs@.subrange(0, n as int) =~= segs@);
    }
    out
}

fn is_space(c: char) -> (r: bool)
    ensures
        r == is_space_char(c),
{
    c == ' ' || c == '\t' || c == '\n' || c == '\r'
}

/// Strip leading and trailing ASCII whitespace off a transcript.
pub fn trim_whitespace(s: &str) -> (r: String)
    ensures
        r@ == trimmed(s@),
{
    let n: usize = s.unicode_len();
    let mut a: usize = 0;
    while a < n && is_space(s.get_char(a))
        invariant
            n == s@.len(),
            a <= n,
            forall|k: int| 0 <= k < a ==> is_space_char(s@[k]),
        decreases n - a,
    {
        a = a + 1;
    }
    let mut b: usize = n;
    while b > a && is_space(s.get_char(b - 1))
        invariant
            n == s@.len(),
            a <= b <= n,
            forall|k: int| b <= k < n ==> is_space_char(s@[k]),
        decreases b,
    {
        b = b - 1;
    }
    proof {
        lemma_trim_front_at(s@, a as int);
        let f = s@.skip(a as int);
        lemma_trim_back_at(f, b - a);
        assert(f.take(b - a) =~= s@.subrange(a as int, b as int));
    }
    String::from_str(s.substring_char(a, b))
}

/// A transcription request as dispatched to the engine the model
/// declares.
pub struct InferenceRequest {
    pub engine: Engine,
    pub model_id: String,
    /// Language hint — engine A ignores it and gets None.
    pub language: Option<String>,
    /// Translate flag — engine A ignores it and gets false.
    pub translate: bool,
}

/// Dispatch by the model's engine kind.  Engine A is monolingual: the
/// language hint and translate flag are dropped.  Engine B gets both
/// forwarded.
pub fn inference_request(def: &ModelDef, language: Option<String>, translate: bool)
    -> (r: InferenceRequest)
    ensures
        r.engine == def@.engine,
        r.model_id@ == def@.id,
        def@.engine == Engine::Parakeet ==> r.language is None && !r.translate,
        def@.engine == Engine::Whisper ==> {
            &&& crate::session::opt_view(r.language) == crate::session::opt_view(language)
            &&& r.translate == translate
        },
{
    match def.engine {
        Engine::Parakeet => InferenceRequest {
            engine: Engine::Parakeet,
            model_id: def.id.clone(),
            language: None,
            translate: false,
        },
        Engine::Whisper => InferenceRequest {
            engine: Engine::Whisper,
            model_id: def.id.clone(),
            language,
            translate,
        },
    }
}

} // verus!
