use film_grain::fixed::isqrt;
use film_grain::grain::{apply_grain, calculate_pixel, grain_image, Image, Rgb, Rgba};
use film_grain::noise::generate_noise;
use film_grain::weight::{calculate_lumen, calculate_weight, normalize};

fn rgba(r: u8, g: u8, b: u8) -> Rgba {
    Rgba { r, g, b, a: 255 }
}

#[test]
fn normalize_endpoints() {
    assert_eq!(normalize(0), 0);
    assert_eq!(normalize(255), 65536);
}

#[test]
fn normalize_midpoint_truncates() {
    // 128 * 65536 / 255 = 32896 with remainder 128.
    assert_eq!(normalize(128), 32896);
    // 1 * 65536 / 255 = 257 with remainder 1.
    assert_eq!(normalize(1), 257);
}

#[test]
fn lumen_of_white_is_one() {
    assert_eq!(calculate_lumen((65536, 65536, 65536)), 65536);
}

#[test]
fn lumen_of_black_is_zero() {
    assert_eq!(calculate_lumen((0, 0, 0)), 0);
}

#[test]
fn lumen_of_pure_red() {
    // 2126 * 65536 / 10000 = 13932 with remainder 9536.
    assert_eq!(calculate_lumen((65536, 0, 0)), 13932);
}

#[test]
fn lumen_stays_in_unit_range_for_all_triples() {
    for r in [0u8, 1, 64, 128, 254, 255] {
        for g in [0u8, 1, 64, 128, 254, 255] {
            for b in [0u8, 1, 64, 128, 254, 255] {
                let l = calculate_lumen((normalize(r), normalize(g), normalize(b)));
                assert!(0 <= l && l <= 65536);
            }
        }
    }
}

#[test]
fn isqrt_small_values() {
    assert_eq!(isqrt(0), 0);
    assert_eq!(isqrt(1), 1);
    assert_eq!(isqrt(2), 1);
    assert_eq!(isqrt(15), 3);
    assert_eq!(isqrt(16), 4);
}

#[test]
fn isqrt_top_of_range() {
    assert_eq!(isqrt(0x1_0000_0000), 65536);
    assert_eq!(isqrt(0xFFFF_FFFF), 65535);
}

#[test]
fn weight_is_one_at_lumen_zero() {
    // Whatever the luminance, a lumen parameter of zero gives weight 1.0.
    for l in [0i64, 1, 12345, 32768, 65535, 65536] {
        assert_eq!(calculate_weight(l, 0), 65536);
    }
}

#[test]
fn weight_is_base_weight_at_lumen_one() {
    // Full lumen influence: weight == 1 - sqrt(L), exactly.
    assert_eq!(calculate_weight(65536, 65536), 0);
    assert_eq!(calculate_weight(0, 65536), 65536);
    // L = 0.25: sqrt is 0.5, so the weight is 0.5.
    assert_eq!(calculate_weight(16384, 65536), 32768);
}

#[test]
fn weight_interpolates_and_extrapolates() {
    // Half influence on a white pixel: halfway between 1.0 and 0.0.
    assert_eq!(calculate_weight(65536, 32768), 32768);
    // A negative lumen extrapolates past 1.0.
    assert_eq!(calculate_weight(65536, -65536), 131072);
}

#[test]
fn compositor_clamps_high_values_to_255() {
    // channel 255, weight 1.0, intensity 100.0, noise 0.99: the raw value
    // is far above 255 and must clamp, not wrap.
    let p = calculate_pixel(rgba(255, 255, 255), 65536, 100 * 65536, 64881);
    assert_eq!(p, Rgb { r: 255, g: 255, b: 255 });
}

#[test]
fn compositor_clamps_negative_values_to_zero() {
    let p = calculate_pixel(rgba(255, 128, 7), 65536, -65536, 32768);
    assert_eq!(p, Rgb { r: 0, g: 0, b: 0 });
}

#[test]
fn compositor_exact_mid_value() {
    // channel 255, weight 1.0, intensity 1.0, noise 0.25:
    // 510 * 0.25 = 127.5, truncated to 127.
    let p = calculate_pixel(rgba(255, 255, 255), 65536, 65536, 16384);
    assert_eq!(p, Rgb { r: 127, g: 127, b: 127 });
}

#[test]
fn compositor_zero_noise_gives_black() {
    let p = calculate_pixel(rgba(255, 255, 255), 65536, 65536, 0);
    assert_eq!(p, Rgb { r: 0, g: 0, b: 0 });
}

#[test]
fn noise_field_has_requested_shape() {
    let mut noise: Vec<Vec<i64>> = Vec::new();
    generate_noise(4, 3, &mut noise);
    assert_eq!(noise.len(), 3);
    for row in &noise {
        assert_eq!(row.len(), 4);
        for &v in row {
            assert!(0 <= v && v < 65536);
        }
    }
}

#[test]
fn noise_field_appends_after_existing_rows() {
    let mut noise: Vec<Vec<i64>> = vec![vec![7, 8]];
    generate_noise(5, 2, &mut noise);
    assert_eq!(noise.len(), 3);
    assert_eq!(noise[0], vec![7, 8]);
    assert_eq!(noise[1].len(), 5);
    assert_eq!(noise[2].len(), 5);
}

#[test]
fn noise_field_empty_dimensions() {
    let mut noise: Vec<Vec<i64>> = Vec::new();
    generate_noise(0, 0, &mut noise);
    assert_eq!(noise.len(), 0);
    generate_noise(3, 0, &mut noise);
    assert_eq!(noise.len(), 0);
    generate_noise(0, 2, &mut noise);
    assert_eq!(noise.len(), 2);
    assert_eq!(noise[0].len(), 0);
}

#[test]
fn black_input_stays_black() {
    // A 1x1 all-black image gives an all-black pixel for any parameters.
    let img = Image { width: 1, height: 1, pixels: vec![rgba(0, 0, 0)] };
    let noise = vec![vec![54321i64]];
    for (intensity, lumen) in [(65536i64, 0i64), (100 * 65536, 65536), (-65536, 32768)] {
        let out = apply_grain(&img, &noise, intensity, lumen);
        assert_eq!(out.pixels, vec![Rgb { r: 0, g: 0, b: 0 }]);
    }
}

#[test]
fn black_input_stays_black_with_random_noise() {
    let img = Image { width: 1, height: 1, pixels: vec![rgba(0, 0, 0)] };
    let out = grain_image(&img, 3 * 65536, 65536 / 2);
    assert_eq!(out.pixels, vec![Rgb { r: 0, g: 0, b: 0 }]);
}

#[test]
fn white_input_with_neutral_lumen() {
    // lumen = 0 forces weight 1.0; each channel is clamp(510 * noise).
    let img = Image { width: 1, height: 1, pixels: vec![rgba(255, 255, 255)] };
    // noise 0.5: 510 * 0.5 = 255, exactly at the clamp boundary.
    let out = apply_grain(&img, &vec![vec![32768i64]], 65536, 0);
    assert_eq!(out.pixels, vec![Rgb { r: 255, g: 255, b: 255 }]);
    // noise 0.25: 510 * 0.25 truncates to 127.
    let out = apply_grain(&img, &vec![vec![16384i64]], 65536, 0);
    assert_eq!(out.pixels, vec![Rgb { r: 127, g: 127, b: 127 }]);
}

#[test]
fn output_dimensions_match_input() {
    let pixels: Vec<Rgba> = (0..6u8).map(|i| rgba(40 * i, 255 - 40 * i, i)).collect();
    let img = Image { width: 3, height: 2, pixels };
    let noise = vec![vec![11i64, 22, 33], vec![44, 55, 65535]];
    let out = apply_grain(&img, &noise, 65536, 32768);
    assert_eq!(out.width, 3);
    assert_eq!(out.height, 2);
    assert_eq!(out.pixels.len(), 6);

    let out = grain_image(&img, 2 * 65536, 65536);
    assert_eq!(out.width, 3);
    assert_eq!(out.height, 2);
    assert_eq!(out.pixels.len(), 6);
}

#[test]
fn noise_modulates_the_output() {
    // The same pixel under two different noise samples gives two different
    // outputs: the sample is not ignored.
    let img = Image { width: 1, height: 1, pixels: vec![rgba(200, 100, 50)] };
    let low = apply_grain(&img, &vec![vec![8192i64]], 65536, 0);
    let high = apply_grain(&img, &vec![vec![57344i64]], 65536, 0);
    assert_ne!(low.pixels[0], high.pixels[0]);
}
