//! Pixel types, the pixel compositor, and the driving loop of the filter.
//!
//! Every output channel is `(2 * channel) * weight * intensity * noise`,
//! taken in 16.16 fixed point and clamped into `[0, 255]` before the result
//! is narrowed back to eight bits.

use vstd::prelude::*;
use vstd::arithmetic::div_mod::{lemma_mod_bound, lemma_multiply_divide_lt};
use crate::noise::generate_noise;
use crate::weight::{
    calculate_lumen, calculate_weight, lumen_spec, normalize, normalize_spec, weight_spec,
};

verus! {

/// A decoded source pixel: three color channels and an alpha channel.
/// The alpha channel plays no part in the transform.
#[derive(Clone, Copy, PartialEq, Eq, Structural, Debug)]
pub struct Rgba {
    pub r: u8,
    pub g: u8,
    pub b: u8,
    pub a: u8,
}

/// An output pixel: three color channels, no alpha.
#[derive(Clone, Copy, PartialEq, Eq, Structural, Debug)]
pub struct Rgb {
    pub r: u8,
    pub g: u8,
    pub b: u8,
}

/// A decoded input image: `pixels` holds the rows one after another,
/// `height` rows of `width` pixels each.
pub struct Image {
    pub width: u32,
    pub height: u32,
    pub pixels: Vec<Rgba>,
}

impl Image {
    /// The pixel buffer covers the stated dimensions exactly.
    pub open spec fn wf(&self) -> bool {
        self.pixels@.len() == self.width * self.height
    }
}

/// A composited output image, laid out as `Image` is.
pub struct RgbImage {
    pub width: u32,
    pub height: u32,
    pub pixels: Vec<Rgb>,
}

impl RgbImage {
    /// The pixel buffer covers the stated dimensions exactly.
    pub open spec fn wf(&self) -> bool {
        self.pixels@.len() == self.width * self.height
    }
}

/// The raw composite value of one channel, before clamping: the channel
/// doubled, times the weight, the intensity and the noise sample, all in
/// 16.16 fixed point (so the value carries a scale of 65536 cubed).
pub open spec fn composed(c: u8, weight: int, intensity: int, noise: int) -> int {
    (2 * c) * weight * intensity * noise
}

/// Scales a raw composite value back down and clamps it into `[0, 255]`.
/// 0x1_0000_0000_0000 is 65536 cubed: the scale the three fixed-point
/// factors contribute.
pub open spec fn clamp_channel(v: int) -> u8 {
    if v <= 0 {
        0
    } else if v / 0x1_0000_0000_0000 >= 255 {
        255
    } else {
        (v / 0x1_0000_0000_0000) as u8
    }
}

/// One output channel: the composite value, clamped and narrowed.
pub open spec fn grain_channel(c: u8, weight: int, intensity: int, noise: int) -> u8 {
    clamp_channel(composed(c, weight, intensity, noise))
}

/// One output channel, computed in machine integers.
fn compose_channel(c: u8, weight: i64, intensity: i64, noise_value: i64) -> (r: u8)
    requires
        -0x200_0000_0000 <= weight <= 0x200_0000_0000,
        -0x100_0000_0000 <= intensity <= 0x100_0000_0000,
        0 <= noise_value < 65536,
    ensures
        r == grain_channel(c, weight as int, intensity as int, noise_value as int),
{
    let c2: u128 = 2 * (c as u128);
    let nn: u128 = noise_value as u128;
    let wa: u128 = if weight >= 0 { weight as u128 } else { (-weight) as u128 };
    let ia: u128 = if intensity >= 0 { intensity as u128 } else { (-intensity) as u128 };
    let neg: bool = (weight < 0) != (intensity < 0);
    proof {
        assert(c2 * wa <= 510 * 0x200_0000_0000) by (nonlinear_arith)
            requires
                0 <= c2 <= 510,
                0 <= wa <= 0x200_0000_0000;
        assert(c2 * wa * ia <= 510 * 0x200_0000_0000 * 0x100_0000_0000) by (nonlinear_arith)
            requires
                0 <= c2 * wa <= 510 * 0x200_0000_0000,
                0 <= ia <= 0x100_0000_0000;
        assert(c2 * wa * ia * nn <= 510 * 0x200_0000_0000 * 0x100_0000_0000 * 65536)
            by (nonlinear_arith)
            requires
                0 <= c2 * wa * ia <= 510 * 0x200_0000_0000 * 0x100_0000_0000,
                0 <= nn <= 65536;
    }
    let m: u128 = c2 * wa * ia * nn;
    proof {
        assert(composed(c, weight as int, intensity as int, noise_value as int) == (
        if neg {
            -(m as int)
        } else {
            m as int
        })) by (nonlinear_arith)
            requires
                c2 == 2 * c,
                nn == noise_value as int,
                wa == (if weight >= 0 { weight as int } else { -(weight as int) }),
                ia == (if intensity >= 0 { intensity as int } else { -(intensity as int) }),
                neg == ((weight < 0) != (intensity < 0)),
                m == c2 * wa * ia * nn;
    }
    if neg || m == 0 {
        0
    } else {
        let q: u128 = m / 0x1_0000_0000_0000;
        if q >= 255 {
            255
        } else {
            q as u8
        }
    }
}

/// Composites one pixel: each channel doubled, scaled by the weight, the
/// intensity and the noise sample, clamped into `[0, 255]`. The alpha
/// channel is dropped.
pub fn calculate_pixel(pixel: Rgba, weight: i64, intensity: i64, noise_value: i64) -> (r: Rgb)
    requires
        -0x200_0000_0000 <= weight <= 0x200_0000_0000,
        -0x100_0000_0000 <= intensity <= 0x100_0000_0000,
        0 <= noise_value < 65536,
    ensures
        r.r == grain_channel(pixel.r, weight as int, intensity as int, noise_value as int),
        r.g == grain_channel(pixel.g, weight as int, intensity as int, noise_value as int),
        r.b == grain_channel(pixel.b, weight as int, intensity as int, noise_value as int),
{
    Rgb {
        r: compose_channel(pixel.r, weight, intensity, noise_value),
        g: compose_channel(pixel.g, weight, intensity, noise_value),
        b: compose_channel(pixel.b, weight, intensity, noise_value),
    }
}

/// The whole per-pixel transform: luminance, weight, then compositing.
pub open spec fn grain_pixel_spec(p: Rgba, noise: int, intensity: int, lumen: int) -> Rgb {
    let l = lumen_spec(normalize_spec(p.r), normalize_spec(p.g), normalize_spec(p.b));
    let w = weight_spec(l, lumen);
    Rgb {
        r: grain_channel(p.r, w, intensity, noise),
        g: grain_channel(p.g, w, intensity, noise),
        b: grain_channel(p.b, w, intensity, noise),
    }
}

/// Transforms one pixel under the given parameters and noise sample.
pub fn grain_pixel(pixel: Rgba, intensity: i64, lumen: i64, noise_value: i64) -> (r: Rgb)
    requires
        -0x100_0000_0000 <= intensity <= 0x100_0000_0000,
        -0x100_0000_0000 <= lumen <= 0x100_0000_0000,
        0 <= noise_value < 65536,
    ensures
        r == grain_pixel_spec(pixel, noise_value as int, intensity as int, lumen as int),
{
    let nr: i64 = normalize(pixel.r);
    let ng: i64 = normalize(pixel.g);
    let nb: i64 = normalize(pixel.b);
    let pixel_lumen: i64 = calculate_lumen((nr, ng, nb));
    let w: i64 = calculate_weight(pixel_lumen, lumen);
    calculate_pixel(pixel, w, intensity, noise_value)
}

/// Applies the grain transform to every pixel of `img`, reading the noise
/// sample for row `y`, column `x` from `noise[y][x]`. The output has the
/// input's dimensions, and each output pixel is exactly the transform of
/// the source pixel at the same coordinate.
pub fn apply_grain(img: &Image, noise: &Vec<Vec<i64>>, intensity: i64, lumen: i64) -> (out:
    RgbImage)
    requires
        img.wf(),
        noise@.len() == img.height,
        forall|i: int| 0 <= i < noise@.len() ==> #[trigger] noise@[i]@.len() == img.width,
        forall|i: int, j: int|
            0 <= i < noise@.len() && 0 <= j < img.width
                ==> 0 <= #[trigger] noise@[i]@[j] < 65536,
        -0x100_0000_0000 <= intensity <= 0x100_0000_0000,
        -0x100_0000_0000 <= lumen <= 0x100_0000_0000,
    ensures
        out.width == img.width,
        out.height == img.height,
        out.wf(),
        forall|k: int|
            0 <= k < out.pixels@.len()
                ==> #[trigger] out.pixels@[k] == grain_pixel_spec(
                img.pixels@[k],
                noise@[k / img.width as int]@[k % img.width as int] as int,
                intensity as int,
                lumen as int,
            ),
{
    let total: usize = img.pixels.len();
    let width_us: usize = img.width as usize;
    let mut pixels: Vec<Rgb> = Vec::new();
    let mut k: usize = 0;
    while k < total
        invariant
            k <= total,
            total == img.pixels@.len(),
            img.wf(),
            width_us == img.width,
            noise@.len() == img.height,
            forall|i: int| 0 <= i < noise@.len() ==> #[trigger] noise@[i]@.len() == img.width,
            forall|i: int, j: int|
                0 <= i < noise@.len() && 0 <= j < img.width
                    ==> 0 <= #[trigger] noise@[i]@[j] < 65536,
            -0x100_0000_0000 <= intensity <= 0x100_0000_0000,
            -0x100_0000_0000 <= lumen <= 0x100_0000_0000,
            pixels@.len() == k,
            forall|j: int|
                0 <= j < k ==> #[trigger] pixels@[j] == grain_pixel_spec(
                    img.pixels@[j],
                    noise@[j / img.width as int]@[j % img.width as int] as int,
                    intensity as int,
                    lumen as int,
                ),
        decreases total - k,
    {
        proof {
            if img.width == 0 {
                assert(img.width * img.height == 0);
            }
            lemma_multiply_divide_lt(k as int, img.width as int, img.height as int);
            lemma_mod_bound(k as int, img.width as int);
        }
        let y: usize = k / width_us;
        let x: usize = k % width_us;
        let p: Rgba = img.pixels[k];
        let row: &Vec<i64> = &noise[y];
        let nv: i64 = row[x];
        let np: Rgb = grain_pixel(p, intensity, lumen, nv);
        pixels.push(np);
        k = k + 1;
    }
    RgbImage { width: img.width, height: img.height, pixels }
}

/// `outp` is the grain transform of `src` under some noise sample.
pub open spec fn is_grained(src: Rgba, outp: Rgb, intensity: int, lumen: int) -> bool {
    exists|n: int| 0 <= n < 65536 && outp == #[trigger] grain_pixel_spec(src, n, intensity, lumen)
}

/// Runs the whole filter: draws a fresh noise field for the image's
/// dimensions and composites every pixel with it. The output has the
/// input's dimensions, and each output pixel is the grain transform of
/// the source pixel at the same coordinate under some noise sample in
/// `[0, 65536)`; which sample is random.
pub fn grain_image(img: &Image, intensity: i64, lumen: i64) -> (out: RgbImage)
    requires
        img.wf(),
        -0x100_0000_0000 <= intensity <= 0x100_0000_0000,
        -0x100_0000_0000 <= lumen <= 0x100_0000_0000,
    ensures
        out.width == img.width,
        out.height == img.height,
        out.wf(),
        forall|k: int|
            0 <= k < out.pixels@.len() ==> is_grained(
                img.pixels@[k],
                #[trigger] out.pixels@[k],
                intensity as int,
                lumen as int,
            ),
{
    let mut noise: Vec<Vec<i64>> = Vec::new();
    generate_noise(img.width, img.height, &mut noise);
    let out = apply_grain(img, &noise, intensity, lumen);
    proof {
        assert forall|k: int|
            0 <= k < out.pixels@.len() implies is_grained(
            img.pixels@[k],
            #[trigger] out.pixels@[k],
            intensity as int,
            lumen as int,
        ) by {
            if img.width == 0 {
                assert(img.width * img.height == 0) by (nonlinear_arith)
                    requires img.width == 0;
            }
            lemma_multiply_divide_lt(k, img.width as int, img.height as int);
            lemma_mod_bound(k, img.width as int);
            let n = noise@[k / img.width as int]@[k % img.width as int] as int;
            assert(out.pixels@[k] == grain_pixel_spec(
                img.pixels@[k],
                n,
                intensity as int,
                lumen as int,
            ));
        }
    }
    out
}

/// A fully black pixel composites to a fully black pixel, whatever the
/// noise sample, the intensity and the lumen parameter are.
pub proof fn lemma_black_pixel_stays_black(p: Rgba, noise: int, intensity: int, lumen: int)
    requires
        p.r == 0,
        p.g == 0,
        p.b == 0,
    ensures
        grain_pixel_spec(p, noise, intensity, lumen) == (Rgb { r: 0, g: 0, b: 0 }),
{
    let l = lumen_spec(normalize_spec(p.r), normalize_spec(p.g), normalize_spec(p.b));
    let w = weight_spec(l, lumen);
    assert((2 * 0) * w * intensity * noise == 0) by (nonlinear_arith);
}

} // verus!
