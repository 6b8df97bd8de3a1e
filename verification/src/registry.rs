//! Model catalog: the static registry of installable model
//! definitions, and the derived on-disk readiness and size queries.

use vstd::prelude::*;
use vstd::string::StringExecFns;
use crate::text::{str_eq, dec_str, u64_to_string};
use crate::os;

verus! {

/// The two supported inference backends: the fast monolingual model
/// and the slower multilingual one.
#[derive(Clone, Copy, PartialEq, Eq, Structural, Debug)]
pub enum Engine {
    Parakeet,
    Whisper,
}

/// One downloadable constituent file of a model.
pub struct ModelFile {
    /// Where the file is fetched from.
    pub url: String,
    /// Rename the downloaded file to this name once complete (if Some).
    pub rename_to: Option<String>,
}

/// Immutable catalog entry describing one installable model.
pub struct ModelDef {
    pub id: String,
    pub name: String,
    pub engine: Engine,
    pub description: String,
    pub approx_bytes: u64,
    pub files: Vec<ModelFile>,
}

/// Mathematical image of a `ModelFile`.
#[verifier::ext_equal]
pub ghost struct FileSpec {
    pub url: Seq<char>,
    pub rename_to: Option<Seq<char>>,
}

/// Mathematical image of a `ModelDef`.
#[verifier::ext_equal]
pub ghost struct ModelSpec {
    pub id: Seq<char>,
    pub name: Seq<char>,
    pub engine: Engine,
    pub description: Seq<char>,
    pub approx_bytes: int,
    pub files: Seq<FileSpec>,
}

impl View for ModelFile {
    type V = FileSpec;

    open spec fn view(&self) -> FileSpec {
        FileSpec {
            url: self.url@,
            rename_to: match self.rename_to {
                Some(s) => Some(s@),
                None => None,
            },
        }
    }
}

impl View for ModelDef {
    type V = ModelSpec;

    open spec fn view(&self) -> ModelSpec {
        ModelSpec {
            id: self.id@,
            name: self.name@,
            engine: self.engine,
            description: self.description@,
            approx_bytes: self.approx_bytes as int,
            files: Seq::new(self.files@.len(), |i: int| self.files@[i]@),
        }
    }
}

/// Id of the model selected when the user has not picked one.
pub const DEFAULT_MODEL_ID: &'static str = "parakeet-tdt-0.6b-v3";

/// The whole catalog, as compiled into the build.
pub open spec fn catalog_spec() -> Seq<ModelSpec> {
    seq![
        ModelSpec {
            id: "parakeet-tdt-0.6b-v3"@,
            name: "Parakeet TDT 0.6b v3"@,
            engine: Engine::Parakeet,
            description: "Fast, accurate English transcription. Best balance of speed and quality."@,
            approx_bytes: 680_000_000,
            files: seq![
                FileSpec { url: "https://huggingface.co/istupakov/parakeet-tdt-0.6b-v3-onnx/resolve/main/encoder-model.int8.onnx"@, rename_to: Some("encoder-model.onnx"@) },
                FileSpec { url: "https://huggingface.co/istupakov/parakeet-tdt-0.6b-v3-onnx/resolve/main/decoder_joint-model.int8.onnx"@, rename_to: Some("decoder_joint-model.onnx"@) },
                FileSpec { url: "https://huggingface.co/istupakov/parakeet-tdt-0.6b-v3-onnx/resolve/main/vocab.txt"@, rename_to: None },
                FileSpec { url: "https://huggingface.co/istupakov/parakeet-tdt-0.6b-v3-onnx/resolve/main/config.json"@, rename_to: None },
                FileSpec { url: "https://huggingface.co/istupakov/parakeet-tdt-0.6b-v3-onnx/resolve/main/nemo128.onnx"@, rename_to: None },
            ],
        },
        ModelSpec {
            id: "whisper-large-v3-turbo-q5_0"@,
            name: "Whisper Large v3 Turbo (Q5)"@,
            engine: Engine::Whisper,
            description: "Multilingual, highly accurate. Supports 100+ languages."@,
            approx_bytes: 574_000_000,
            files: seq![
                FileSpec { url: "https://huggingface.co/ggerganov/whisper.cpp/resolve/main/ggml-large-v3-turbo-q5_0.bin"@, rename_to: Some("model.bin"@) },
            ],
        },
        ModelSpec {
            id: "whisper-large-v3-turbo-q8_0"@,
            name: "Whisper Large v3 Turbo (Q8)"@,
            engine: Engine::Whisper,
            description: "Multilingual, highest accuracy. Higher quality quantization."@,
            approx_bytes: 874_000_000,
            files: seq![
                FileSpec { url: "https://huggingface.co/ggerganov/whisper.cpp/resolve/main/ggml-large-v3-turbo-q8_0.bin"@, rename_to: Some("model.bin"@) },
            ],
        },
        ModelSpec {
            id: "whisper-medium-q5_0"@,
            name: "Whisper Medium (Q5)"@,
            engine: Engine::Whisper,
            description: "Multilingual, moderate speed and accuracy. Good middle ground."@,
            approx_bytes: 539_000_000,
            files: seq![
                FileSpec { url: "https://huggingface.co/ggerganov/whisper.cpp/resolve/main/ggml-medium-q5_0.bin"@, rename_to: Some("model.bin"@) },
            ],
        },
        ModelSpec {
            id: "whisper-small-q5_1"@,
            name: "Whisper Small (Q5)"@,
            engine: Engine::Whisper,
            description: "Multilingual, fastest Whisper model. Smallest download."@,
            approx_bytes: 190_000_000,
            files: seq![
                FileSpec { url: "https://huggingface.co/ggerganov/whisper.cpp/resolve/main/ggml-small-q5_1.bin"@, rename_to: Some("model.bin"@) },
            ],
        },
    ]
}

fn mf(url: &str, rename: Option<&str>) -> (r: ModelFile)
    ensures
        r@ == (FileSpec {
            url: url@,
            rename_to: match rename {
                Some(s) => Some(s@),
                None => None,
            },
        }),
{
    ModelFile {
        url: String::from_str(url),
        rename_to: match rename {
            Some(s) => Some(String::from_str(s)),
            None => None,
        },
    }
}

/// Build the catalog.  It is immutable: compiled in, never mutated.
pub fn models() -> (v: Vec<ModelDef>)
    ensures
        v@.len() == catalog_spec().len(),
        forall|i: int| 0 <= i < v@.len() ==> #[trigger] v@[i]@ == catalog_spec()[i],
{
    let mut v: Vec<ModelDef> = Vec::new();

    let mut f0: Vec<ModelFile> = Vec::new();
    f0.push(mf("https://huggingface.co/istupakov/parakeet-tdt-0.6b-v3-onnx/resolve/main/encoder-model.int8.onnx", Some("encoder-model.onnx")));
    f0.push(mf("https://huggingface.co/istupakov/parakeet-tdt-0.6b-v3-onnx/resolve/main/decoder_joint-model.int8.onnx", Some("decoder_joint-model.onnx")));
    f0.push(mf("https://huggingface.co/istupakov/parakeet-tdt-0.6b-v3-onnx/resolve/main/vocab.txt", None));
    f0.push(mf("https://huggingface.co/istupakov/parakeet-tdt-0.6b-v3-onnx/resolve/main/config.json", None));
    f0.push(mf("https://huggingface.co/istupakov/parakeet-tdt-0.6b-v3-onnx/resolve/main/nemo128.onnx", None));
    v.push(ModelDef {
        id: String::from_str("parakeet-tdt-0.6b-v3"),
        name: String::from_str("Parakeet TDT 0.6b v3"),
        engine: Engine::Parakeet,
        description: String::from_str("Fast, accurate English transcription. Best balance of speed and quality."),
        approx_bytes: 680_000_000,
        files: f0,
    });

    let mut f1: Vec<ModelFile> = Vec::new();
    f1.push(mf("https://huggingface.co/ggerganov/whisper.cpp/resolve/main/ggml-large-v3-turbo-q5_0.bin", Some("model.bin")));
    v.push(ModelDef {
        id: String::from_str("whisper-large-v3-turbo-q5_0"),
        name: String::from_str("Whisper Large v3 Turbo (Q5)"),
        engine: Engine::Whisper,
        description: String::from_str("Multilingual, highly accurate. Supports 100+ languages."),
        approx_bytes: 574_000_000,
        files: f1,
    });

    let mut f2: Vec<ModelFile> = Vec::new();
    f2.push(mf("https://huggingface.co/ggerganov/whisper.cpp/resolve/main/ggml-large-v3-turbo-q8_0.bin", Some("model.bin")));
    v.push(ModelDef {
        id: String::from_str("whisper-large-v3-turbo-q8_0"),
        name: String::from_str("Whisper Large v3 Turbo (Q8)"),
        engine: Engine::Whisper,
        description: String::from_str("Multilingual, highest accuracy. Higher quality quantization."),
        approx_bytes: 874_000_000,
        files: f2,
    });

    let mut f3: Vec<ModelFile> = Vec::new();
    f3.push(mf("https://huggingface.co/ggerganov/whisper.cpp/resolve/main/ggml-medium-q5_0.bin", Some("model.bin")));
    v.push(ModelDef {
        id: String::from_str("whisper-medium-q5_0"),
        name: String::from_str("Whisper Medium (Q5)"),
        engine: Engine::Whisper,
        description: String::from_str("Multilingual, moderate speed and accuracy. Good middle ground."),
        approx_bytes: 539_000_000,
        files: f3,
    });

    let mut f4: Vec<ModelFile> = Vec::new();
    f4.push(mf("https://huggingface.co/ggerganov/whisper.cpp/resolve/main/ggml-small-q5_1.bin", Some("model.bin")));
    v.push(ModelDef {
        id: String::from_str("whisper-small-q5_1"),
        name: String::from_str("Whisper Small (Q5)"),
        engine: Engine::Whisper,
        description: String::from_str("Multilingual, fastest Whisper model. Smallest download."),
        approx_bytes: 190_000_000,
        files: f4,
    });

    proof {
        assert(v@[0]@ =~~= catalog_spec()[0]);
        assert(v@[1]@ =~~= catalog_spec()[1]);
        assert(v@[2]@ =~~= catalog_spec()[2]);
        assert(v@[3]@ =~~= catalog_spec()[3]);
        assert(v@[4]@ =~~= catalog_spec()[4]);
    }
    v
}

/// First catalog entry with the given id, if any.
pub open spec fn find_in(models: Seq<ModelSpec>, id: Seq<char>) -> Option<ModelSpec>
    decreases models.len(),
{
    if models.len() == 0 {
        None
    } else if models[0].id == id {
        Some(models[0])
    } else {
        find_in(models.skip(1), id)
    }
}

proof fn lemma_find_in_skip(models: Seq<ModelSpec>, id: Seq<char>, i: int)
    requires
        0 <= i <= models.len(),
        forall|k: int| 0 <= k < i ==> models[k].id != id,
    ensures
        find_in(models, id) == find_in(models.skip(i), id),
    decreases i,
{
    if i > 0 {
        lemma_find_in_skip(models.skip(1), id, i - 1);
        assert(models.skip(1).skip(i - 1) =~= models.skip(i));
    } else {
        assert(models.skip(0) =~= models);
    }
}

/// Look a model definition up by id.
pub fn find_model(id: &str) -> (r: Option<ModelDef>)
    ensures
        match r {
            Some(d) => find_in(catalog_spec(), id@) == Some(d@),
            None => find_in(catalog_spec(), id@) is None,
        },
{
    let all = models();
    let n = all.len();
    let mut i: usize = 0;
    while i < n
        invariant
            n == all@.len(),
            all@.len() == catalog_spec().len(),
            forall|k: int| 0 <= k < all@.len() ==> #[trigger] all@[k]@ == catalog_spec()[k],
            i <= n,
            forall|k: int| 0 <= k < i ==> #[trigger] catalog_spec()[k].id != id@,
        decreases n - i,
    {
        if str_eq(all[i].id.as_str(), id) {
            proof {
                lemma_find_in_skip(catalog_spec(), id@, i as int);
                assert(catalog_spec().skip(i as int)[0] == catalog_spec()[i as int]);
            }
            let d = ModelDef {
                id: all[i].id.clone(),
                name: all[i].name.clone(),
                engine: all[i].engine,
                description: all[i].description.clone(),
                approx_bytes: all[i].approx_bytes,
                files: clone_files(&all[i].files),
            };
            proof {
                assert(d@ =~~= all@[i as int]@);
            }
            return Some(d);
        }
        proof {
            assert(all@[i as int]@ == catalog_spec()[i as int]);
            assert(catalog_spec()[i as int].id == all@[i as int]@.id);
        }
        i = i + 1;
    }
    proof {
        lemma_find_in_skip(catalog_spec(), id@, catalog_spec().len() as int);
        assert(catalog_spec().skip(catalog_spec().len() as int) =~= Seq::<ModelSpec>::empty());
    }
    None
}

/// The characters after the last `/` of `s` (all of `s` if it has none).
pub open spec fn tail_segment(s: Seq<char>) -> Seq<char>
    decreases s.len(),
{
    if s.len() == 0 {
        s
    } else if s.last() == '/' {
        Seq::empty()
    } else {
        tail_segment(s.drop_last()) + seq![s.last()]
    }
}

proof fn lemma_tail_segment_subrange(s: Seq<char>, i: int)
    requires
        0 <= i <= s.len(),
        forall|k: int| i <= k < s.len() ==> s[k] != '/',
        i > 0 ==> s[i - 1] == '/',
    ensures
        tail_segment(s) == s.subrange(i, s.len() as int),
    decreases s.len(),
{
    if i == s.len() {
        assert(s.subrange(i, s.len() as int) =~= Seq::<char>::empty());
        if s.len() > 0 {
            assert(s.last() == '/');
        }
    } else {
        assert(s.last() != '/');
        let t = s.drop_last();
        lemma_tail_segment_subrange(t, i);
        assert(t.subrange(i, t.len() as int) + seq![s.last()]
            =~= s.subrange(i, s.len() as int));
    }
}

/// Destination name of a model file after the optional rename: the
/// rename target if one is set, else the trailing path segment of the
/// source URL.
pub open spec fn dest_name_spec(f: FileSpec) -> Seq<char> {
    match f.rename_to {
        Some(n) => n,
        None => tail_segment(f.url),
    }
}

/// Get the destination filename for a model file (after optional rename).
pub fn file_dest_name<'a>(file: &'a ModelFile) -> (r: &'a str)
    ensures
        r@ == dest_name_spec(file@),
{
    match &file.rename_to {
        Some(name) => name.as_str(),
        None => {
            let url: &str = file.url.as_str();
            let n: usize = url.unicode_len();
            let mut cut: usize = 0;
            let mut k: usize = 0;
            while k < n
                invariant
                    n == url@.len(),
                    n <= usize::MAX,
                    cut <= k <= n,
                    cut > 0 ==> url@[cut - 1] == '/',
                    forall|j: int| cut <= j < k ==> url@[j] != '/',
                decreases n - k,
            {
                if url.get_char(k) == '/' {
                    cut = k + 1;
                }
                k = k + 1;
            }
            proof {
                lemma_tail_segment_subrange(url@, cut as int);
            }
            url.substring_char(cut, n)
        },
    }
}

/// The final segment of a slash-separated path: the characters after
/// the last `/`, or the whole path when it has none.
pub fn path_file_name(path: &str) -> (r: String)
    ensures
        r@ == tail_segment(path@),
{
    let n: usize = path.unicode_len();
    let mut cut: usize = 0;
    let mut k: usize = 0;
    while k < n
        invariant
            n == path@.len(),
            n <= usize::MAX,
            cut <= k <= n,
            cut > 0 ==> path@[cut - 1] == '/',
            forall|j: int| cut <= j < k ==> path@[j] != '/',
        decreases n - k,
    {
        if path.get_char(k) == '/' {
            cut = k + 1;
        }
        k = k + 1;
    }
    proof {
        lemma_tail_segment_subrange(path@, cut as int);
    }
    String::from_str(path.substring_char(cut, n))
}

/// Directory a model's files live under, below the given data root.
pub open spec fn model_dir_spec(base: Seq<char>, id: Seq<char>) -> Seq<char> {
    base + "/com.aarsla.audioshift/models/"@ + id
}

/// The model directory under an explicit data root.
pub fn model_dir_in(base: &str, id: &str) -> (r: String)
    ensures
        r@ == model_dir_spec(base@, id@),
{
    let mut s = String::from_str(base);
    s.append("/com.aarsla.audioshift/models/");
    s.append(id);
    s
}

/// The model directory under the platform data directory (falling back
/// to the current directory when the platform defines none).
pub fn model_dir(id: &str) -> (r: String)
    ensures
        exists|base: Seq<char>| r@ == model_dir_spec(base, id@),
{
    let base: String = match os::data_dir() {
        Some(d) => d,
        None => String::from_str("."),
    };
    let r = model_dir_in(base.as_str(), id);
    proof {
        assert(r@ == model_dir_spec(base@, id@));
    }
    r
}

/// Readiness, given one existence bit per expected destination file:
/// ready iff every expected file is present.  Deleting any one file
/// flips the conjunction to false (`lemma_one_missing_file_breaks_readiness`).
pub fn ready_given(def: &ModelDef, present: &Vec<bool>) -> (r: bool)
    requires
        present@.len() == def@.files.len(),
    ensures
        r == (forall|i: int| 0 <= i < present@.len() ==> present@[i]),
{
    let mut i: usize = 0;
    let n = present.len();
    while i < n
        invariant
            n == present@.len(),
            i <= n,
            forall|k: int| 0 <= k < i ==> present@[k],
        decreases n - i,
    {
        if !present[i] {
            return false;
        }
        i = i + 1;
    }
    true
}

/// Marking any single expected file absent makes the readiness
/// conjunction false: deleting one model file flips readiness off.
pub proof fn lemma_one_missing_file_breaks_readiness(present: Seq<bool>, j: int)
    requires
        0 <= j < present.len(),
    ensures
        !(forall|i: int| 0 <= i < present.update(j, false).len()
            ==> present.update(j, false)[i]),
{
    assert(!present.update(j, false)[j]);
}

/// Probe the disk for each expected file of a model.  Unknown ids have
/// no expected files and are never ready.
pub fn model_ready(id: &str) -> (r: bool)
    ensures
        find_in(catalog_spec(), id@) is None ==> r == false,
{
    let def = match find_model(id) {
        Some(d) => d,
        None => {
            return false;
        },
    };
    let dir = model_dir(id);
    let mut present: Vec<bool> = Vec::new();
    let mut i: usize = 0;
    let n = def.files.len();
    while i < n
        invariant
            n == def.files@.len(),
            i <= n,
            present@.len() == i,
        decreases n - i,
    {
        let name = file_dest_name(&def.files[i]);
        let mut p = dir.clone();
        p.append("/");
        p.append(name);
        present.push(os::path_exists(p.as_str()));
        i = i + 1;
    }
    ready_given(&def, &present)
}

/// Whether any of a batch of readiness answers is positive.
pub fn any_ready_given(ready: &Vec<bool>) -> (r: bool)
    ensures
        r == exists|i: int| 0 <= i < ready@.len() && ready@[i],
{
    let mut i: usize = 0;
    let n = ready.len();
    while i < n
        invariant
            n == ready@.len(),
            i <= n,
            forall|k: int| 0 <= k < i ==> !ready@[k],
        decreases n - i,
    {
        if ready[i] {
            return true;
        }
        i = i + 1;
    }
    false
}

/// True iff some catalog model is fully present on disk, as the
/// per-model probes answered.
pub fn any_model_ready() -> (r: bool) {
    let all = models();
    let mut ready: Vec<bool> = Vec::new();
    let mut i: usize = 0;
    let n = all.len();
    while i < n
        invariant
            n == all@.len(),
            i <= n,
        decreases n - i,
    {
        ready.push(model_ready(all[i].id.as_str()));
        i = i + 1;
    }
    any_ready_given(&ready)
}

/// Bytes a model occupies on disk: the saturating sum of the sizes of
/// the entries of its directory, as the probe reports them.
pub fn model_disk_size(id: &str) -> (r: u64) {
    let dir = model_dir(id);
    let sizes = os::dir_entry_sizes(dir.as_str());
    crate::num::sum_u64_saturating(&sizes)
}

/// Human-readable size label: whole megabytes below one gigabyte,
/// gigabytes with one (rounded) decimal place above.
pub open spec fn size_label_spec(bytes: int) -> Seq<char> {
    if bytes >= 1_000_000_000 {
        let tenths = (bytes + 50_000_000) / 100_000_000;
        dec_str(tenths / 10) + "."@ + dec_str(tenths % 10) + " GB"@
    } else {
        dec_str(bytes / 1_000_000) + " MB"@
    }
}

/// Format approximate bytes as a human-readable label.
pub fn size_label(bytes: u64) -> (r: String)
    ensures
        r@ == size_label_spec(bytes as int),
{
    if bytes >= 1_000_000_000 {
        let tenths: u64 = ((bytes as u128 + 50_000_000) / 100_000_000) as u64;
        let mut s = u64_to_string(tenths / 10);
        s.append(".");
        let frac = u64_to_string(tenths % 10);
        s.append(frac.as_str());
        s.append(" GB");
        proof {
            assert(s@ =~= size_label_spec(bytes as int));
        }
        s
    } else {
        let mut s = u64_to_string(bytes / 1_000_000);
        s.append(" MB");
        proof {
            assert(s@ =~= size_label_spec(bytes as int));
        }
        s
    }
}

/// What deleting a model requires: which engine's cache slot to
/// evict and which directory to remove.  An unknown id is an error.
pub fn delete_model_plan(id: &str) -> (r: Result<(Engine, String), crate::error::PipelineError>)
    ensures
        match r {
            Ok(plan) => {
                &&& match find_in(catalog_spec(), id@) {
                    Some(m) => plan.0 == m.engine,
                    None => false,
                }
                &&& exists|base: Seq<char>| plan.1@ == model_dir_spec(base, id@)
            },
            Err(e) => {
                &&& e == crate::error::PipelineError::UnknownModel
                &&& find_in(catalog_spec(), id@) is None
            },
        },
{
    match find_model(id) {
        Some(def) => {
            let dir = model_dir(id);
            Ok((def.engine, dir))
        },
        None => Err(crate::error::PipelineError::UnknownModel),
    }
}

/// One row of the model-management view: catalog data plus the
/// on-disk state of the model.
pub struct ModelStatusEntry {
    pub id: String,
    pub name: String,
    pub engine: Engine,
    pub description: String,
    pub size_label: String,
    pub ready: bool,
    pub disk_size: u64,
    pub path: String,
}

/// Report every catalog model with its readiness and disk usage.
/// The catalog columns are exact; readiness and size are whatever
/// the disk probes answered.
pub fn get_all_models_status() -> (r: Vec<ModelStatusEntry>)
    ensures
        r@.len() == catalog_spec().len(),
        forall|i: int| 0 <= i < r@.len() ==> {
            &&& (#[trigger] r@[i]).id@ == catalog_spec()[i].id
            &&& r@[i].name@ == catalog_spec()[i].name
            &&& r@[i].engine == catalog_spec()[i].engine
            &&& r@[i].description@ == catalog_spec()[i].description
            &&& r@[i].size_label@ == size_label_spec(catalog_spec()[i].approx_bytes)
        },
{
    let all = models();
    let mut r: Vec<ModelStatusEntry> = Vec::new();
    let mut i: usize = 0;
    let n = all.len();
    while i < n
        invariant
            n == all@.len(),
            all@.len() == catalog_spec().len(),
            forall|k: int| 0 <= k < all@.len() ==> #[trigger] all@[k]@ == catalog_spec()[k],
            i <= n,
            r@.len() == i,
            forall|k: int| 0 <= k < i ==> {
                &&& (#[trigger] r@[k]).id@ == catalog_spec()[k].id
                &&& r@[k].name@ == catalog_spec()[k].name
                &&& r@[k].engine == catalog_spec()[k].engine
                &&& r@[k].description@ == catalog_spec()[k].description
                &&& r@[k].size_label@ == size_label_spec(catalog_spec()[k].approx_bytes)
            },
        decreases n - i,
    {
        proof {
            assert(all@[i as int]@ == catalog_spec()[i as int]);
        }
        let m = &all[i];
        let entry = ModelStatusEntry {
            id: m.id.clone(),
            name: m.name.clone(),
            engine: m.engine,
            description: m.description.clone(),
            size_label: size_label(m.approx_bytes),
            ready: model_ready(m.id.as_str()),
            disk_size: model_disk_size(m.id.as_str()),
            path: model_dir(m.id.as_str()),
        };
        r.push(entry);
        i = i + 1;
    }
    r
}

fn clone_files(files: &Vec<ModelFile>) -> (r: Vec<ModelFile>)
    ensures
        r@.len() == files@.len(),
        forall|i: int| 0 <= i < files@.len() ==> #[trigger] r@[i]@ == files@[i]@,
{
    let mut out: Vec<ModelFile> = Vec::new();
    let mut i: usize = 0;
    while i < files.len()
        invariant
            i <= files@.len(),
            out@.len() == i,
            forall|k: int| 0 <= k < i ==> #[trigger] out@[k]@ == files@[k]@,
        decreases files@.len() - i,
    {
        let f = ModelFile {
            url: files[i].url.clone(),
            rename_to: match &files[i].rename_to {
                Some(s) => Some(s.clone()),
                None => None,
            },
        };
        out.push(f);
        i = i + 1;
    }
    out
}

} // verus!
