//! Per-pixel luminance and blend weight, in 16.16 fixed point.
//!
//! A pixel's channels are normalized into `[0, 65536]` (65536 stands for 1.0),
//! combined into a perceptual luminance with the standard luma coefficients,
//! and turned into a blend weight: darker pixels get a weight near one,
//! brighter pixels a weight near zero. The `lumen` parameter interpolates
//! linearly between a neutral weight of one and that luminance-based weight.

use vstd::prelude::*;
use crate::fixed::{isqrt, isqrt_spec};

verus! {

/// A channel value scaled into fixed point: `v * 65536 / 255`.
pub open spec fn normalize_spec(v: u8) -> int {
    v * 65536 / 255
}

/// Perceptual luminance of three normalized channels, with the standard
/// luma coefficients 0.2126, 0.7152 and 0.0722.
pub open spec fn lumen_spec(r: int, g: int, b: int) -> int {
    (2126 * r + 7152 * g + 722 * b) / 10000
}

/// The square root of a fixed-point value `l` in `[0, 65536]`, itself in
/// fixed point: the integer square root of `l * 65536`.
pub open spec fn sqrt_fixed(l: int) -> int {
    isqrt_spec((l * 65536) as nat) as int
}

/// The weight before the lumen parameter is applied: one minus the square
/// root of the luminance.
pub open spec fn base_weight_spec(l: int) -> int {
    65536 - sqrt_fixed(l)
}

/// The lumen parameter's share of the weight: `d * t / 65536`, with the
/// fractional part truncated toward zero.
pub open spec fn lerp_term(d: int, t: int) -> int {
    if t >= 0 {
        d * t / 65536
    } else {
        -(d * (-t) / 65536)
    }
}

/// The blend weight for luminance `l` and lumen parameter `t`: one,
/// interpolated toward the base weight by the factor `t`.
pub open spec fn weight_spec(l: int, t: int) -> int {
    65536 - lerp_term(sqrt_fixed(l), t)
}

/// Normalizes an 8-bit channel value into fixed-point `[0, 65536]`.
pub fn normalize(value: u8) -> (r: i64)
    ensures
        r == normalize_spec(value),
        0 <= r <= 65536,
{
    let q: u32 = (value as u32) * 65536 / 255;
    q as i64
}

/// Perceptual luminance of a normalized `(red, green, blue)` triple.
pub fn calculate_lumen(color: (i64, i64, i64)) -> (r: i64)
    requires
        0 <= color.0 <= 65536,
        0 <= color.1 <= 65536,
        0 <= color.2 <= 65536,
    ensures
        r == lumen_spec(color.0 as int, color.1 as int, color.2 as int),
        0 <= r <= 65536,
{
    let p: u64 = 2126 * (color.0 as u64) + 7152 * (color.1 as u64) + 722 * (color.2 as u64);
    (p / 10000) as i64
}

/// The blend weight for a pixel of luminance `l` under lumen parameter
/// `lumen`. A `lumen` of zero leaves the weight at one (65536); a `lumen`
/// of one (65536) yields the base weight; values outside extrapolate.
pub fn calculate_weight(l: i64, lumen: i64) -> (r: i64)
    requires
        0 <= l <= 65536,
        -0x100_0000_0000 <= lumen <= 0x100_0000_0000,
    ensures
        r == weight_spec(l as int, lumen as int),
        65536 - 0x100_0000_0000 <= r <= 65536 + 0x100_0000_0000,
{
    let n: u64 = (l as u64) * 65536;
    let s: u64 = isqrt(n);
    proof {
        assert(s == sqrt_fixed(l as int));
    }
    if lumen >= 0 {
        let t: u64 = lumen as u64;
        proof {
            assert(s * t <= 65536 * 0x100_0000_0000) by (nonlinear_arith)
                requires
                    0 <= s <= 65536,
                    0 <= t <= 0x100_0000_0000;
        }
        let term: u64 = (s * t) / 65536;
        65536 - (term as i64)
    } else {
        let t: u64 = (-lumen) as u64;
        proof {
            assert(s * t <= 65536 * 0x100_0000_0000) by (nonlinear_arith)
                requires
                    0 <= s <= 65536,
                    0 <= t <= 0x100_0000_0000;
        }
        let term: u64 = (s * t) / 65536;
        65536 + (term as i64)
    }
}

/// For every 8-bit RGB triple, the luminance of the normalized channels
/// stays within the fixed-point unit range `[0, 65536]`.
pub proof fn lemma_lumen_in_unit_range(r: u8, g: u8, b: u8)
    ensures
        0 <= lumen_spec(normalize_spec(r), normalize_spec(g), normalize_spec(b)) <= 65536,
{
}

/// A lumen parameter of zero yields a weight of exactly one (65536),
/// whatever the luminance.
pub proof fn lemma_weight_at_lumen_zero(l: int)
    ensures
        weight_spec(l, 0) == 65536,
{
}

/// A lumen parameter of one (65536) yields exactly the base weight: one
/// minus the square root of the luminance.
pub proof fn lemma_weight_at_lumen_one(l: int)
    ensures
        weight_spec(l, 65536) == base_weight_spec(l),
{
    let d = sqrt_fixed(l);
    assert(d * 65536 / 65536 == d) by (nonlinear_arith)
        requires d >= 0;
}

} // verus!
