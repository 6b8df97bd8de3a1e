//! History records: the metadata written beside each saved recording
//! and the entries handed to the presentation layer, newest first.
//! The disk reads and writes live outside; building, ordering and
//! converting the records is proved here.

use vstd::prelude::*;
use vstd::string::StringExecFns;
use vstd::arithmetic::div_mod::{lemma_div_is_ordered, lemma_div_multiples_vanish, lemma_div_pos_is_pos};
use crate::num::{div_trunc, div_i64_u32_trunc};

verus! {

/// Metadata persisted beside a recording.
pub struct RecordingMeta {
    pub id: String,
    pub text: String,
    /// Milliseconds since the epoch.
    pub timestamp: i64,
    pub app_name: Option<String>,
    pub window_title: Option<String>,
    pub char_count: usize,
    pub duration_ms: u64,
    pub processing_time_ms: u64,
    pub model_id: String,
    pub language: Option<String>,
    pub translate: bool,
    pub app_version: String,
}

/// A history entry as shown to the user: the stored metadata plus the
/// directory it lives in.
pub struct HistoryEntry {
    pub id: String,
    pub text: String,
    pub timestamp: i64,
    pub app_name: Option<String>,
    pub window_title: Option<String>,
    pub char_count: usize,
    pub dir_path: Option<String>,
    pub duration_ms: u64,
    pub processing_time_ms: u64,
    pub model_id: String,
    pub language: Option<String>,
    pub translate: bool,
    pub app_version: String,
}

/// Everything known about a finished live recording when it is stored.
pub struct RecordingInfo {
    pub samples: Vec<i32>,
    pub text: String,
    pub app_name: Option<String>,
    pub window_title: Option<String>,
    pub duration_ms: u64,
    pub processing_time_ms: u64,
    pub model_id: String,
    pub language: Option<String>,
    pub translate: bool,
}

/// Build the persisted metadata for a finished recording.  The
/// character count is derived from the text.
pub fn meta_from_info(info: RecordingInfo, id: String, timestamp_ms: i64, app_version: String)
    -> (r: (RecordingMeta, Vec<i32>))
    requires
        info.text@.len() <= usize::MAX,
    ensures
        r.0.id@ == id@,
        r.0.text@ == info.text@,
        r.0.timestamp == timestamp_ms,
        r.0.app_name == info.app_name,
        r.0.window_title == info.window_title,
        r.0.char_count == info.text@.len(),
        r.0.duration_ms == info.duration_ms,
        r.0.processing_time_ms == info.processing_time_ms,
        r.0.model_id@ == info.model_id@,
        r.0.language == info.language,
        r.0.translate == info.translate,
        r.0.app_version@ == app_version@,
        r.1@ == info.samples@,
{
    let char_count: usize = info.text.as_str().unicode_len();
    let meta = RecordingMeta {
        id,
        text: info.text,
        timestamp: timestamp_ms,
        app_name: info.app_name,
        window_title: info.window_title,
        char_count,
        duration_ms: info.duration_ms,
        processing_time_ms: info.processing_time_ms,
        model_id: info.model_id,
        language: info.language,
        translate: info.translate,
        app_version,
    };
    (meta, info.samples)
}

/// Turn stored metadata into the entry the presentation layer shows:
/// the same fields plus the recording's directory, `base/id`.
pub fn entry_from_meta(meta: RecordingMeta, base_dir: &str) -> (r: HistoryEntry)
    ensures
        r.id@ == meta.id@,
        r.text@ == meta.text@,
        r.timestamp == meta.timestamp,
        r.app_name == meta.app_name,
        r.window_title == meta.window_title,
        r.char_count == meta.char_count,
        match r.dir_path {
            Some(p) => p@ == base_dir@ + "/"@ + meta.id@,
            None => false,
        },
        r.duration_ms == meta.duration_ms,
        r.processing_time_ms == meta.processing_time_ms,
        r.model_id@ == meta.model_id@,
        r.language == meta.language,
        r.translate == meta.translate,
        r.app_version@ == meta.app_version@,
{
    let mut dir = String::from_str(base_dir);
    dir.append("/");
    dir.append(meta.id.as_str());
    HistoryEntry {
        id: meta.id,
        text: meta.text,
        timestamp: meta.timestamp,
        app_name: meta.app_name,
        window_title: meta.window_title,
        char_count: meta.char_count,
        dir_path: Some(dir),
        duration_ms: meta.duration_ms,
        processing_time_ms: meta.processing_time_ms,
        model_id: meta.model_id,
        language: meta.language,
        translate: meta.translate,
        app_version: meta.app_version,
    }
}

/// Newest first: timestamps never increase along the sequence.
pub open spec fn sorted_desc(s: Seq<RecordingMeta>) -> bool {
    forall|i: int, j: int| 0 <= i <= j < s.len() ==> s[i].timestamp >= s[j].timestamp
}

/// Sort recordings newest first.  The result is a permutation of the
/// input, ordered by descending timestamp.
pub fn sort_by_timestamp_desc(metas: &mut Vec<RecordingMeta>)
    ensures
        sorted_desc(final(metas)@),
        final(metas)@.to_multiset() == old(metas)@.to_multiset(),
{
    let n = metas.len();
    let mut i: usize = 1;
    if n <= 1 {
        return;
    }
    while i < n
        invariant
            n == metas@.len(),
            1 <= i <= n,
            sorted_desc(metas@.subrange(0, i as int)),
            metas@.to_multiset() == old(metas)@.to_multiset(),
        decreases n - i,
    {
        let mut j: usize = i;
        while j > 0
            invariant
                n == metas@.len(),
                j <= i < n,
                metas@.to_multiset() == old(metas)@.to_multiset(),
                sorted_desc(metas@.subrange(0, i as int + 1).remove(j as int)),
                forall|k: int| j < k <= i
                    ==> #[trigger] metas@[k].timestamp <= metas@[j as int].timestamp,
            ensures
                n == metas@.len(),
                j <= i < n,
                metas@.to_multiset() == old(metas)@.to_multiset(),
                sorted_desc(metas@.subrange(0, i as int + 1).remove(j as int)),
                forall|k: int| j < k <= i
                    ==> #[trigger] metas@[k].timestamp <= metas@[j as int].timestamp,
                j == 0 || metas@[j - 1].timestamp >= metas@[j as int].timestamp,
            decreases j,
        {
            if metas[j - 1].timestamp >= metas[j].timestamp {
                break;
            }
            let ghost before = metas@;
            let moved = metas.remove(j);
            metas.insert(j - 1, moved);
            proof {
                assert(metas@ =~= before.update(j - 1, before[j as int])
                    .update(j as int, before[j - 1]));
                lemma_swap_multiset(before, metas@, j - 1, j as int);
                assert(metas@.subrange(0, i as int + 1).remove(j - 1)
                    =~= before.subrange(0, i as int + 1).remove(j as int));
            }
            j = j - 1;
        }
        proof {
            if j == 0 {
                lemma_insert_front(metas@, i as int);
            } else {
                lemma_insert_back(metas@, i as int, j as int);
            }
        }
        i = i + 1;
    }
    proof {
        assert(metas@.subrange(0, n as int) =~= metas@);
    }
}

proof fn lemma_swap_multiset(a: Seq<RecordingMeta>, b: Seq<RecordingMeta>, x: int, y: int)
    requires
        a.len() == b.len(),
        0 <= x < a.len(),
        0 <= y < a.len(),
        b == a.update(x, a[y]).update(y, a[x]),
    ensures
        a.to_multiset() == b.to_multiset(),
{
    vstd::seq_lib::to_multiset_update(a, x, a[y]);
    vstd::seq_lib::to_multiset_update(a.update(x, a[y]), y, a[x]);
    vstd::seq_lib::to_multiset_contains(a, a[x]);
    vstd::seq_lib::to_multiset_contains(a, a[y]);
    assert(a.to_multiset() =~= b.to_multiset());
}

proof fn lemma_insert_back(s: Seq<RecordingMeta>, i: int, j: int)
    requires
        0 < j <= i < s.len(),
        sorted_desc(s.subrange(0, i + 1).remove(j)),
        forall|k: int| j < k <= i ==> #[trigger] s[k].timestamp <= s[j].timestamp,
        s[j - 1].timestamp >= s[j].timestamp,
    ensures
        sorted_desc(s.subrange(0, i + 1)),
{
    let w = s.subrange(0, i + 1);
    let v = w.remove(j);
    assert forall|p: int, q: int| 0 <= p <= q < w.len() implies
        w[p].timestamp >= w[q].timestamp by {
        if p < j && q < j {
            assert(v[p] == w[p] && v[q] == w[q]);
        } else if p < j && q == j {
            assert(v[j - 1] == w[j - 1]);
        } else if p < j && q > j {
            assert(v[p] == w[p] && v[q - 1] == w[q]);
        } else if p == j {
        } else if p > j {
            assert(v[p - 1] == w[p] && v[q - 1] == w[q]);
        }
    }
}

proof fn lemma_insert_front(s: Seq<RecordingMeta>, i: int)
    requires
        0 < i < s.len(),
        sorted_desc(s.subrange(0, i + 1).remove(0)),
        forall|k: int| 0 < k <= i ==> #[trigger] s[k].timestamp <= s[0].timestamp,
    ensures
        sorted_desc(s.subrange(0, i + 1)),
{
    let w = s.subrange(0, i + 1);
    let v = w.remove(0);
    assert forall|p: int, q: int| 0 <= p <= q < w.len() implies
        w[p].timestamp >= w[q].timestamp by {
        if p > 0 {
            assert(v[p - 1] == w[p] && v[q - 1] == w[q]);
        }
    }
}


/// The two little-endian bytes of a value in [0, 65536).
pub open spec fn le16(x: int) -> Seq<u8> {
    seq![(x % 256) as u8, ((x / 256) % 256) as u8]
}

/// The four little-endian bytes of a value in [0, 2^32).
pub open spec fn le32(x: int) -> Seq<u8> {
    seq![
        (x % 256) as u8,
        ((x / 256) % 256) as u8,
        ((x / 65536) % 256) as u8,
        ((x / 16777216) % 256) as u8,
    ]
}

/// A fixed-point sample clamped to full scale and quantized to
/// 16-bit PCM (truncating toward zero, as the narrowing cast does).
pub open spec fn pcm16_of(s: int) -> int {
    let c = if s < -1_000_000 {
        -1_000_000
    } else if s > 1_000_000 {
        1_000_000
    } else {
        s
    };
    div_trunc(c * 32767, 1_000_000)
}

/// The 16-bit two's-complement image of a PCM value.
pub open spec fn pcm16_word(v: int) -> int {
    if v < 0 {
        v + 65536
    } else {
        v
    }
}

/// The 44-byte RIFF/WAVE header of a mono 16 kHz 16-bit PCM file with
/// `n` samples.
pub open spec fn wav_header(n: int) -> Seq<u8> {
    seq![82u8, 73u8, 70u8, 70u8] + le32(36 + 2 * n) + seq![87u8, 65u8, 86u8, 69u8]
        + seq![102u8, 109u8, 116u8, 32u8] + le32(16) + le16(1) + le16(1)
        + le32(16000) + le32(32000) + le16(2) + le16(16)
        + seq![100u8, 97u8, 116u8, 97u8] + le32(2 * n)
}

/// The PCM payload: each sample quantized and stored little-endian.
pub open spec fn pcm_bytes(samples: Seq<i32>) -> Seq<u8>
    decreases samples.len(),
{
    if samples.len() == 0 {
        Seq::empty()
    } else {
        pcm_bytes(samples.drop_last()) + le16(pcm16_word(pcm16_of(samples.last() as int)))
    }
}

fn push_le16(out: &mut Vec<u8>, x: u16)
    ensures
        final(out)@ == old(out)@ + le16(x as int),
{
    out.push((x % 256) as u8);
    out.push(((x / 256) % 256) as u8);
    proof {
        assert(out@ =~= old(out)@ + le16(x as int));
    }
}

fn push_le32(out: &mut Vec<u8>, x: u32)
    ensures
        final(out)@ == old(out)@ + le32(x as int),
{
    out.push((x % 256) as u8);
    out.push(((x / 256) % 256) as u8);
    out.push(((x / 65536) % 256) as u8);
    out.push(((x / 16777216) % 256) as u8);
    proof {
        assert(out@ =~= old(out)@ + le32(x as int));
    }
}

/// Encode a recording as a mono 16 kHz 16-bit PCM WAV file.
pub fn wav_bytes(samples: &Vec<i32>) -> (r: Vec<u8>)
    requires
        44 + 2 * samples@.len() <= u32::MAX,
    ensures
        r@ == wav_header(samples@.len() as int) + pcm_bytes(samples@),
        r@.len() == 44 + 2 * samples@.len(),
{
    let n: usize = samples.len();
    let data_size: u32 = (2 * n) as u32;
    let mut out: Vec<u8> = Vec::new();
    out.push(82);
    out.push(73);
    out.push(70);
    out.push(70);
    push_le32(&mut out, 36 + data_size);
    out.push(87);
    out.push(65);
    out.push(86);
    out.push(69);
    out.push(102);
    out.push(109);
    out.push(116);
    out.push(32);
    push_le32(&mut out, 16);
    push_le16(&mut out, 1);
    push_le16(&mut out, 1);
    push_le32(&mut out, 16000);
    push_le32(&mut out, 32000);
    push_le16(&mut out, 2);
    push_le16(&mut out, 16);
    out.push(100);
    out.push(97);
    out.push(116);
    out.push(97);
    push_le32(&mut out, data_size);
    proof {
        assert(out@ =~= wav_header(n as int));
    }
    let mut i: usize = 0;
    while i < n
        invariant
            n == samples@.len(),
            i <= n,
            out@ == wav_header(n as int) + pcm_bytes(samples@.subrange(0, i as int)),
            out@.len() == 44 + 2 * i,
        decreases n - i,
    {
        let s: i32 = samples[i];
        let clamped: i32 = if s < -1_000_000 {
            -1_000_000
        } else if s > 1_000_000 {
            1_000_000
        } else {
            s
        };
        proof {
            let c = clamped as int;
            assert(c * 32767 <= 1_000_000 * 32767 && c * 32767 >= (-1_000_000) * 32767)
                by (nonlinear_arith)
                requires -1_000_000 <= c <= 1_000_000;
            if c * 32767 >= 0 {
                lemma_div_is_ordered(c * 32767, 1_000_000int * 32767, 1_000_000);
                lemma_div_multiples_vanish(32767, 1_000_000);
                lemma_div_pos_is_pos(c * 32767, 1_000_000);
            } else {
                lemma_div_is_ordered(-(c * 32767), 1_000_000int * 32767, 1_000_000);
                lemma_div_multiples_vanish(32767, 1_000_000);
                lemma_div_pos_is_pos(-(c * 32767), 1_000_000);
            }
        }
        let v: i64 = div_i64_u32_trunc((clamped as i64) * 32767, 1_000_000);
        let word: u16 = if v >= 0 {
            v as u16
        } else {
            (v + 65536) as u16
        };
        push_le16(&mut out, word);
        proof {
            assert(samples@.subrange(0, i + 1).drop_last() =~= samples@.subrange(0, i as int));
            assert(out@ =~= wav_header(n as int) + pcm_bytes(samples@.subrange(0, i + 1)));
        }
        i = i + 1;
    }
    proof {
        assert(samples@.subrange(0, n as int) =~= samples@);
    }
    out
}

} // verus!
