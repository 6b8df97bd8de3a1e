//! Sample normalizer: downmixing and linear resampling on the
//! fixed-point mono sample stream, plus the amplitude metering used by
//! the live level display.
//!
//! A sample is an `i32` in micro-units: `SAMPLE_ONE` (1_000_000) is a
//! full-scale positive sample.  File decoding and device capture hand
//! the library frames already scaled this way.

use vstd::prelude::*;
use vstd::arithmetic::div_mod::{
    lemma_div_is_ordered, lemma_div_multiples_vanish, lemma_div_pos_is_pos,
    lemma_fundamental_div_mod, lemma_mod_bound,
};
use crate::num::{div_trunc, div_i64_u32_trunc};

verus! {

/// Full-scale positive sample value (1.0 in micro-units).
pub const SAMPLE_ONE: i32 = 1_000_000;

/// The canonical rate every consumer of the stream expects.
pub const TARGET_SAMPLE_RATE: u32 = 16000;

/// Sum of the `count` samples of one interleaved frame starting at `base`.
pub open spec fn frame_sum(data: Seq<i32>, base: int, count: int) -> int
    decreases count,
{
    if count <= 0 {
        0
    } else {
        frame_sum(data, base, count - 1) + data[base + count - 1]
    }
}

/// The mono sample produced for frame `i` when downmixing `channels`
/// interleaved channels: the per-frame average (truncating division).
pub open spec fn mono_at(data: Seq<i32>, channels: int, i: int) -> int {
    div_trunc(frame_sum(data, i * channels, channels), channels)
}

/// Whole-stream downmix: identity for mono input, per-frame average
/// otherwise.  Trailing samples of an incomplete frame are dropped.
pub open spec fn mixed(data: Seq<i32>, channels: int) -> Seq<i32> {
    if channels <= 1 {
        data
    } else {
        Seq::new((data.len() as int / channels) as nat, |i: int| mono_at(data, channels, i) as i32)
    }
}

/// A per-frame average of `i32` samples fits back into an `i32`.
proof fn lemma_average_fits_i32(sum: int, ch: int)
    requires
        ch >= 1,
        -ch * 0x8000_0000 <= sum <= ch * 0x7fff_ffff,
    ensures
        -0x8000_0000 <= div_trunc(sum, ch) <= 0x7fff_ffff,
{
    if sum >= 0 {
        lemma_div_is_ordered(sum, ch * 0x7fff_ffff, ch);
        lemma_div_multiples_vanish(0x7fff_ffff, ch);
        lemma_div_pos_is_pos(sum, ch);
    } else {
        lemma_div_is_ordered(-sum, ch * 0x8000_0000, ch);
        lemma_div_multiples_vanish(0x8000_0000, ch);
        lemma_div_pos_is_pos(-sum, ch);
    }
}

/// Mix interleaved multi-channel audio down to mono by averaging the
/// channels of each frame.
pub fn mix_to_mono(data: &Vec<i32>, channels: u16) -> (r: Vec<i32>)
    ensures
        r@ == mixed(data@, channels as int),
{
    if channels <= 1 {
        return data.clone();
    }
    let ch: usize = channels as usize;
    let frames: usize = data.len() / ch;
    let mut out: Vec<i32> = Vec::new();
    let mut i: usize = 0;
    proof {
        lemma_fundamental_div_mod(data@.len() as int, ch as int);
        lemma_mod_bound(data@.len() as int, ch as int);
        assert(frames * ch == ch as int * (data@.len() as int / ch as int))
            by (nonlinear_arith)
            requires frames == data@.len() as int / ch as int;
    }
    while i < frames
        invariant
            1 < channels,
            ch == channels as int,
            frames == data@.len() as int / ch as int,
            frames * ch <= data@.len(),
            data@.len() <= usize::MAX,
            i <= frames,
            out@.len() == i,
            forall|k: int| 0 <= k < i ==> out@[k] == mono_at(data@, ch as int, k),
        decreases frames - i,
    {
        proof {
            assert(i * ch + ch == (i + 1) * ch) by (nonlinear_arith);
            assert((i + 1) * ch <= frames * ch) by (nonlinear_arith)
                requires i + 1 <= frames, ch >= 1;
        }
        let base: usize = i * ch;
        let mut sum: i64 = 0;
        let mut j: usize = 0;
        while j < ch
            invariant
                base + ch <= data@.len(),
                data@.len() <= usize::MAX,
                j <= ch,
                ch <= 0x1_0000,
                sum == frame_sum(data@, base as int, j as int),
                -(j as int) * 0x8000_0000 <= sum <= (j as int) * 0x7fff_ffff,
            decreases ch - j,
        {
            proof {
                assert((j as int) * 0x8000_0000 + 0x8000_0000 == (j + 1) * 0x8000_0000)
                    by (nonlinear_arith);
                assert((j as int) * 0x7fff_ffff + 0x7fff_ffff == (j + 1) * 0x7fff_ffff)
                    by (nonlinear_arith);
            }
            sum = sum + (data[base + j] as i64);
            j = j + 1;
        }
        proof {
            lemma_average_fits_i32(sum as int, ch as int);
        }
        let avg: i64 = div_i64_u32_trunc(sum, channels as u32);
        out.push(avg as i32);
        i = i + 1;
    }
    proof {
        assert(out@ =~= mixed(data@, channels as int));
    }
    out
}

/// The output sample at index `i` of a linear-interpolation resample
/// from `src` Hz to `dst` Hz.  The source position of output sample `i`
/// is the rational `i * src / dst`; the sample is interpolated between
/// its two neighbours, or clamped to the last sample at the tail.
pub open spec fn lerp_at(data: Seq<i32>, src: int, dst: int, i: int) -> int {
    let pos = i * src;
    let idx = pos / dst;
    let rem = pos % dst;
    if idx + 1 < data.len() {
        div_trunc(data[idx] * (dst - rem) + data[idx + 1] * rem, dst)
    } else if idx < data.len() {
        data[idx] as int
    } else {
        data[data.len() - 1] as int
    }
}

/// Number of output samples of a resample: `ceil(len * dst / src)`.
pub open spec fn resampled_len(len: int, src: int, dst: int) -> int {
    (len * dst + src - 1) / src
}

/// Whole-stream linear resample.  Input already at the target rate, or
/// empty input, passes through unchanged.
pub open spec fn resampled(data: Seq<i32>, src: int, dst: int) -> Seq<i32> {
    if src == dst || data.len() == 0 {
        data
    } else {
        Seq::new(
            resampled_len(data.len() as int, src, dst) as nat,
            |i: int| lerp_at(data, src, dst, i) as i32,
        )
    }
}

/// Resample mono audio from `src_rate` to `dst_rate` by linear
/// interpolation.  This is the cheap inline resampler used on the live
/// capture path; input already at the target rate is returned as-is.
pub fn resample_linear(data: &Vec<i32>, src_rate: u32, dst_rate: u32) -> (r: Vec<i32>)
    requires
        src_rate >= 1,
        dst_rate >= 1,
        resampled_len(data@.len() as int, src_rate as int, dst_rate as int) <= usize::MAX,
    ensures
        r@ == resampled(data@, src_rate as int, dst_rate as int),
        src_rate == dst_rate ==> r@ == data@,
{
    if src_rate == dst_rate || data.len() == 0 {
        return data.clone();
    }
    let n: usize = data.len();
    let src: u128 = src_rate as u128;
    let dst: u128 = dst_rate as u128;
    proof {
        assert((n as int) * (dst as int) <= 0xffff_ffff_ffff_ffff * 0xffff_ffff)
            by (nonlinear_arith)
            requires n as int <= 0xffff_ffff_ffff_ffff, dst as int <= 0xffff_ffff, n >= 0, dst >= 1;
    }
    let out_len: usize = (((n as u128) * dst + src - 1) / src) as usize;
    let mut out: Vec<i32> = Vec::new();
    let mut i: usize = 0;
    while i < out_len
        invariant
            1 <= src_rate,
            1 <= dst_rate,
            src_rate != dst_rate,
            src == src_rate as int,
            dst == dst_rate as int,
            1 <= n == data@.len(),
            n <= usize::MAX,
            out_len == resampled_len(n as int, src as int, dst as int),
            i <= out_len,
            out@.len() == i,
            forall|k: int| 0 <= k < i ==>
                out@[k] == lerp_at(data@, src_rate as int, dst_rate as int, k),
        decreases out_len - i,
    {
        proof {
            assert((i as int) * (src as int) <= 0xffff_ffff_ffff_ffff * 0xffff_ffff)
                by (nonlinear_arith)
                requires i as int <= 0xffff_ffff_ffff_ffff, src as int <= 0xffff_ffff,
                    i >= 0, src >= 1;
        }
        let pos: u128 = (i as u128) * src;
        proof {
            vstd::arithmetic::div_mod::lemma_div_nonincreasing(pos as int, dst as int);
        }
        let idx128: u128 = pos / dst;
        let rem: u128 = pos % dst;
        proof {
            lemma_mod_bound(pos as int, dst as int);
        }
        let sample: i32 = if idx128 + 1 < (n as u128) {
            let idx: usize = idx128 as usize;
            let a: i64 = data[idx] as i64;
            let b: i64 = data[idx + 1] as i64;
            let w2: i64 = rem as i64;
            let w1: i64 = (dst as i64) - w2;
            proof {
                assert(a * w1 <= 0x7fff_ffff * w1 && a * w1 >= (-0x8000_0000) * w1)
                    by (nonlinear_arith)
                    requires -0x8000_0000 <= a <= 0x7fff_ffff, w1 >= 0;
                assert(b * w2 <= 0x7fff_ffff * w2 && b * w2 >= (-0x8000_0000) * w2)
                    by (nonlinear_arith)
                    requires -0x8000_0000 <= b <= 0x7fff_ffff, w2 >= 0;
                assert(0x7fff_ffff * w1 + 0x7fff_ffff * w2 == 0x7fff_ffff * (dst as int)
                    && (-0x8000_0000) * w1 + (-0x8000_0000) * w2 == (-0x8000_0000) * (dst as int))
                    by (nonlinear_arith)
                    requires w1 + w2 == dst as int;
                assert(0x7fff_ffff * (dst as int) < 0x8000_0000_0000_0000)
                    by (nonlinear_arith)
                    requires dst as int <= 0xffff_ffff;
                assert((-0x8000_0000) * (dst as int) >= -0x8000_0000_0000_0000)
                    by (nonlinear_arith)
                    requires dst as int <= 0xffff_ffff;
            }
            let total: i64 = a * w1 + b * w2;
            proof {
                assert((-0x8000_0000) * (dst as int) == -((dst as int) * 0x8000_0000)
                    && 0x7fff_ffff * (dst as int) == (dst as int) * 0x7fff_ffff)
                    by (nonlinear_arith);
                lemma_average_fits_i32(total as int, dst as int);
            }
            div_i64_u32_trunc(total, dst_rate) as i32
        } else if idx128 < (n as u128) {
            data[idx128 as usize]
        } else {
            data[n - 1]
        };
        out.push(sample);
        i = i + 1;
    }
    proof {
        assert(out@ =~= resampled(data@, src_rate as int, dst_rate as int));
    }
    out
}

/// The full normalization applied to one raw capture frame: downmix to
/// mono, then resample to the canonical 16 kHz rate.
pub open spec fn converted(data: Seq<i32>, channels: int, rate: int) -> Seq<i32> {
    resampled(mixed(data, channels), rate, 16000)
}

/// Convert one raw interleaved callback frame to canonical mono
/// samples at the target rate.  A frame already mono at 16 kHz is
/// returned unchanged.
pub fn convert_samples(data: &Vec<i32>, channels: u16, sample_rate: u32) -> (r: Vec<i32>)
    requires
        sample_rate >= 1,
        resampled_len(data@.len() as int, sample_rate as int, 16000) <= usize::MAX,
    ensures
        r@ == converted(data@, channels as int, sample_rate as int),
        channels == 1 && sample_rate == 16000 ==> r@ == data@,
{
    if channels == 1 && sample_rate == TARGET_SAMPLE_RATE {
        return data.clone();
    }
    let mono = mix_to_mono(data, channels);
    proof {
        assert(mono@.len() <= data@.len()) by {
            if channels > 1 {
                lemma_fundamental_div_mod(data@.len() as int, channels as int);
                lemma_mod_bound(data@.len() as int, channels as int);
            }
        }
        assert(resampled_len(mono@.len() as int, sample_rate as int, 16000)
            <= resampled_len(data@.len() as int, sample_rate as int, 16000)) by {
            lemma_div_is_ordered(
                mono@.len() as int * 16000 + sample_rate - 1,
                data@.len() as int * 16000 + sample_rate - 1,
                sample_rate as int,
            );
            assert(mono@.len() as int * 16000 <= data@.len() as int * 16000) by (nonlinear_arith)
                requires mono@.len() <= data@.len();
        }
        lemma_div_pos_is_pos(mono@.len() as int * 16000 + sample_rate - 1, sample_rate as int);
    }
    resample_linear(&mono, sample_rate, TARGET_SAMPLE_RATE)
}

/// Sum of absolute sample values, for the amplitude meter.
pub open spec fn abs_sum(data: Seq<i32>) -> int
    decreases data.len(),
{
    if data.len() == 0 {
        0
    } else {
        abs_sum(data.drop_last()) + (if data.last() >= 0 {
            data.last() as int
        } else {
            -(data.last() as int)
        })
    }
}

/// Mean absolute amplitude of a non-empty batch of samples, reported
/// after each capture callback for the live level meter.
pub fn amplitude_of(data: &Vec<i32>) -> (r: u32)
    requires
        data@.len() >= 1,
    ensures
        r == abs_sum(data@) / data@.len() as int,
{
    let mut sum: u128 = 0;
    let mut i: usize = 0;
    let n: usize = data.len();
    proof {
        lemma_abs_sum_bound(data@);
    }
    while i < n
        invariant
            n == data@.len(),
            i <= data@.len(),
            data@.len() <= usize::MAX,
            sum == abs_sum(data@.subrange(0, i as int)),
            sum <= (i as int) * 0x8000_0000,
        decreases data@.len() - i,
    {
        proof {
            assert(data@.subrange(0, i + 1).drop_last() =~= data@.subrange(0, i as int));
            assert((i as int) * 0x8000_0000 + 0x8000_0000 == (i + 1) * 0x8000_0000)
                by (nonlinear_arith);
            assert((i + 1) * 0x8000_0000 <= 0x1_0000_0000_0000_0000 * 0x8000_0000)
                by (nonlinear_arith)
                requires i + 1 <= 0x1_0000_0000_0000_0000;
        }
        let s: i32 = data[i];
        let mag: u64 = if s >= 0 { s as u64 } else { (-(s as i64)) as u64 };
        sum = sum + (mag as u128);
        i = i + 1;
    }
    proof {
        assert(data@.subrange(0, data@.len() as int) =~= data@);
        lemma_abs_sum_nonneg(data@);
        lemma_div_is_ordered(
            abs_sum(data@),
            data@.len() as int * 0x8000_0000,
            data@.len() as int,
        );
        lemma_div_multiples_vanish(0x8000_0000, data@.len() as int);
        lemma_div_pos_is_pos(abs_sum(data@), data@.len() as int);
    }
    (sum / (data.len() as u128)) as u32
}

proof fn lemma_abs_sum_nonneg(data: Seq<i32>)
    ensures
        abs_sum(data) >= 0,
    decreases data.len(),
{
    if data.len() > 0 {
        lemma_abs_sum_nonneg(data.drop_last());
    }
}

proof fn lemma_abs_sum_bound(data: Seq<i32>)
    ensures
        abs_sum(data) <= data.len() * 0x8000_0000,
    decreases data.len(),
{
    if data.len() > 0 {
        lemma_abs_sum_bound(data.drop_last());
        assert((data.len() - 1) * 0x8000_0000 + 0x8000_0000 == data.len() * 0x8000_0000)
            by (nonlinear_arith);
    }
}

} // verus!
