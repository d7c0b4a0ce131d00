//! Fixed-point samples and gains.
//!
//! A [`Sample`] is an amplitude counted in units of `1 / ONE`, so `ONE` stands
//! for full scale (and for unity gain). Addition and multiplication saturate
//! at the bounds of `i64`; a product is rounded toward zero.

use vstd::prelude::*;

verus! {

/// One instant of audio amplitude, in units of `1 / ONE`.
pub type Sample = i64;

/// The fixed-point value of `1.0`: full scale, and unity gain.
pub const ONE: i64 = 65536;

/// `x` limited to the range of `i64`.
pub open spec fn clamp(x: int) -> int {
    if x < i64::MIN {
        i64::MIN as int
    } else if x > i64::MAX {
        i64::MAX as int
    } else {
        x
    }
}

/// `p / ONE`, rounded toward zero.
pub open spec fn div_one(p: int) -> int {
    if p >= 0 {
        p / (ONE as int)
    } else {
        -((-p) / (ONE as int))
    }
}

/// The saturating sum of two samples.
pub open spec fn add_spec(a: int, b: int) -> Sample {
    clamp(a + b) as Sample
}

/// The saturating fixed-point product of two samples.
pub open spec fn mul_spec(a: int, b: int) -> Sample {
    clamp(div_one(a * b)) as Sample
}

/// Limits a wide value to the range of a sample.
pub fn clamp_wide(x: i128) -> (r: Sample)
    ensures
        r == clamp(x as int),
{
    if x < i64::MIN as i128 {
        i64::MIN
    } else if x > i64::MAX as i128 {
        i64::MAX
    } else {
        x as i64
    }
}

/// Saturating sum of two samples.
pub fn sample_add(a: Sample, b: Sample) -> (r: Sample)
    ensures
        r == add_spec(a as int, b as int),
{
    clamp_wide(a as i128 + b as i128)
}

/// Saturating fixed-point product of two samples, rounded toward zero.
pub fn sample_mul(a: Sample, b: Sample) -> (r: Sample)
    ensures
        r == mul_spec(a as int, b as int),
{
    proof {
        lemma_product_fits(a as int, b as int);
    }
    let p: i128 = a as i128 * b as i128;
    let q: i128 = if p >= 0 {
        ((p as u128) / (ONE as u128)) as i128
    } else {
        let m: u128 = (-p) as u128;
        -((m / (ONE as u128)) as i128)
    };
    clamp_wide(q)
}

proof fn lemma_product_fits(a: int, b: int)
    requires
        i64::MIN <= a <= i64::MAX,
        i64::MIN <= b <= i64::MAX,
    ensures
        -0x4000_0000_0000_0000_0000_0000_0000_0000 <= a * b <= 0x4000_0000_0000_0000_0000_0000_0000_0000,
{
    assert(-0x4000_0000_0000_0000_0000_0000_0000_0000 <= a * b <= 0x4000_0000_0000_0000_0000_0000_0000_0000)
        by (nonlinear_arith)
        requires
            -0x8000_0000_0000_0000 <= a <= 0x7fff_ffff_ffff_ffff,
            -0x8000_0000_0000_0000 <= b <= 0x7fff_ffff_ffff_ffff,
    ;
}

/// Multiplying by unity gain leaves a sample unchanged.
pub proof fn lemma_mul_one(a: Sample)
    ensures
        mul_spec(a as int, ONE as int) == a,
{
    assert((a as int * 65536) / 65536 == a as int) by (nonlinear_arith);
    assert(((-(a as int)) * 65536) / 65536 == -(a as int)) by (nonlinear_arith);
}

} // verus!
