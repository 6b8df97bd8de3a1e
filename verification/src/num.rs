//! Small integer helpers shared by the sample and progress arithmetic.

use vstd::prelude::*;

verus! {

/// Truncating (round-toward-zero) division, the way Rust's `/` divides
/// signed machine integers.  Spec-level `/` is Euclidean, so negative
/// numerators need this explicit form.
pub open spec fn div_trunc(a: int, b: int) -> int
    recommends
        b > 0,
{
    if a >= 0 {
        a / b
    } else {
        -((-a) / b)
    }
}

/// Truncating division of an `i64` by a positive `u32`, proved against
/// `div_trunc`.
pub fn div_i64_u32_trunc(a: i64, b: u32) -> (r: i64)
    requires
        b >= 1,
        a > i64::MIN,
    ensures
        r == div_trunc(a as int, b as int),
{
    if a >= 0 {
        ((a as u64) / (b as u64)) as i64
    } else {
        let neg: u64 = (-a) as u64;
        -((neg / (b as u64)) as i64)
    }
}

/// Saturating sum of a vector of byte counts.
pub open spec fn sum_sat(s: Seq<u64>, cap: int) -> int
    decreases s.len(),
{
    if s.len() == 0 {
        0
    } else {
        let rest = sum_sat(s.drop_last(), cap);
        if rest + s.last() > cap {
            cap
        } else {
            rest + s.last()
        }
    }
}

/// Adds up file sizes, saturating at `u64::MAX` instead of overflowing.
pub fn sum_u64_saturating(v: &Vec<u64>) -> (r: u64)
    ensures
        r == sum_sat(v@, u64::MAX as int),
{
    let mut total: u64 = 0;
    let mut i: usize = 0;
    while i < v.len()
        invariant
            i <= v.len(),
            total == sum_sat(v@.subrange(0, i as int), u64::MAX as int),
        decreases v.len() - i,
    {
        proof {
            assert(v@.subrange(0, i + 1).drop_last() =~= v@.subrange(0, i as int));
        }
        if v[i] > u64::MAX - total {
            total = u64::MAX;
        } else {
            total = total + v[i];
        }
        i = i + 1;
    }
    proof {
        assert(v@.subrange(0, v@.len() as int) =~= v@);
    }
    total
}

} // verus!
