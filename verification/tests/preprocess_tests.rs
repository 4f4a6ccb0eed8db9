use montecapcho::bitmap::{
    grayscale, invert, mean_pixel, polarity_correct, threshold_fixed, GrayBitmap, RgbBitmap,
};
use montecapcho::imaging::{
    adaptive_threshold_gray, decode_rgb, encode_png_gray, resize_lanczos, smooth_gaussian,
    stretch_contrast_gray,
};
use montecapcho::preprocess::{preprocess, PreprocessConfig, ThresholdPolicy};

fn gray(width: u32, height: u32, pixels: Vec<u8>) -> GrayBitmap {
    assert_eq!(pixels.len(), (width * height) as usize);
    GrayBitmap { width, height, pixels }
}

#[test]
fn grayscale_uses_bt709_weights() {
    let img = RgbBitmap { width: 2, height: 1, samples: vec![100, 200, 50, 255, 255, 255] };
    let g = grayscale(&img);
    // (2126*100 + 7152*200 + 722*50) / 10000 = 167.
    assert_eq!(g.pixels, vec![167, 255]);
    assert_eq!((g.width, g.height), (2, 1));
}

#[test]
fn mean_rounds_down() {
    let g = gray(2, 2, vec![10, 20, 30, 41]);
    assert_eq!(mean_pixel(&g), 25);
}

#[test]
fn invert_complements_each_pixel() {
    let g = gray(2, 2, vec![0, 255, 10, 245]);
    let inv = invert(g);
    assert_eq!(inv.pixels, vec![255, 0, 245, 10]);
}

#[test]
fn dark_bitmap_is_flipped_and_mean_rises() {
    let g = gray(2, 2, vec![10, 20, 30, 40]);
    let before = mean_pixel(&g);
    assert!(before < 110);
    let corrected = polarity_correct(g, 110);
    // The histogram is a simple inversion of the input's, not a lossy
    // transform.
    assert_eq!(corrected.pixels, vec![245, 235, 225, 215]);
    let after = mean_pixel(&corrected);
    assert!(after > before);
}

#[test]
fn light_bitmap_is_not_flipped() {
    let g = gray(2, 2, vec![200, 210, 220, 230]);
    let corrected = polarity_correct(g, 110);
    assert_eq!(corrected.pixels, vec![200, 210, 220, 230]);
}

#[test]
fn fixed_threshold_is_bi_level() {
    let g = gray(2, 2, vec![10, 150, 200, 149]);
    let out = threshold_fixed(g, 150);
    assert_eq!(out.pixels, vec![0, 255, 255, 0]);
}

#[test]
fn resize_doubles_both_dimensions() {
    let g = gray(2, 2, vec![0, 255, 255, 0]);
    let out = resize_lanczos(&g, 4, 4);
    assert_eq!((out.width, out.height), (4, 4));
    assert_eq!(out.pixels.len(), 16);
}

#[test]
fn smoothing_spreads_an_impulse() {
    let g = gray(3, 3, vec![0, 0, 0, 0, 255, 0, 0, 0, 0]);
    let out = smooth_gaussian(&g, 3);
    assert_eq!((out.width, out.height), (3, 3));
    assert_ne!(out.pixels, vec![0, 0, 0, 0, 255, 0, 0, 0, 0]);
    assert!(out.pixels[4] < 255);
}

#[test]
fn contrast_stretch_matches_the_integer_formula() {
    let g = gray(3, 1, vec![50, 128, 200]);
    let out = stretch_contrast_gray(&g, 96, 160, 0, 255);
    // 50 clamps low, 200 clamps high, and (128-96)*255/64 = 127.
    assert_eq!(out.pixels, vec![0, 127, 255]);
}

#[test]
fn adaptive_threshold_is_bi_level() {
    let g = gray(4, 4, vec![100; 16]);
    let out = adaptive_threshold_gray(&g, 1, 0);
    assert_eq!((out.width, out.height), (4, 4));
    assert!(out.pixels.iter().all(|p| *p == 0 || *p == 255));
    // Every pixel equals the local mean, so all land on white.
    assert!(out.pixels.iter().all(|p| *p == 255));
}

#[test]
fn png_round_trip_preserves_gray_pixels() {
    let g = gray(3, 2, vec![0, 64, 128, 192, 255, 100]);
    let png = encode_png_gray(&g).unwrap();
    let back = decode_rgb(&png).unwrap();
    assert_eq!((back.width, back.height), (3, 2));
    let expected: Vec<u8> = vec![0, 64, 128, 192, 255, 100]
        .into_iter()
        .flat_map(|p| vec![p, p, p])
        .collect();
    assert_eq!(back.samples, expected);
}

#[test]
fn decode_rejects_garbage() {
    assert!(decode_rgb(&[0x13, 0x37, 0x00]).is_none());
}

#[test]
fn preprocess_doubles_dimensions_and_is_bi_level() {
    // A synthetic 100×40 light bitmap with a dark band of rendered-text
    // contrast.
    let mut samples = Vec::new();
    for y in 0..40u32 {
        for _x in 0..100u32 {
            let v: u8 = if (16..24).contains(&y) { 30 } else { 230 };
            samples.extend_from_slice(&[v, v, v]);
        }
    }
    let img = RgbBitmap { width: 100, height: 40, samples };
    let cfg = PreprocessConfig::default();
    let out = preprocess(img, &cfg);
    assert_eq!((out.width, out.height), (200, 80));
    assert_eq!(out.pixels.len(), 200 * 80);
    assert!(out.pixels.iter().all(|p| *p == 0 || *p == 255));
    // The dark band survives binarization: both levels occur.
    assert!(out.pixels.iter().any(|p| *p == 0));
    assert!(out.pixels.iter().any(|p| *p == 255));
}

#[test]
fn preprocess_flips_dark_theme_input() {
    // A dark bitmap with light text: mean below the dark-theme threshold.
    let mut samples = Vec::new();
    for y in 0..10u32 {
        for _x in 0..10u32 {
            let v: u8 = if y < 2 { 220 } else { 20 };
            samples.extend_from_slice(&[v, v, v]);
        }
    }
    let img = RgbBitmap { width: 10, height: 10, samples };
    let cfg = PreprocessConfig::default();
    let out = preprocess(img, &cfg);
    // After the polarity flip the former text rows are dark and the broad
    // background is light, so white must dominate.
    let whites = out.pixels.iter().filter(|p| **p == 255).count();
    let blacks = out.pixels.iter().filter(|p| **p == 0).count();
    assert_eq!(whites + blacks, out.pixels.len());
    assert!(whites > blacks);
}

#[test]
fn preprocess_supports_the_adaptive_policy() {
    let mut samples = Vec::new();
    for _ in 0..(8 * 8) {
        samples.extend_from_slice(&[200, 200, 200]);
    }
    let img = RgbBitmap { width: 8, height: 8, samples };
    let cfg = PreprocessConfig {
        threshold: ThresholdPolicy::Adaptive { block_radius: 2, delta: 0 },
        ..PreprocessConfig::default()
    };
    let out = preprocess(img, &cfg);
    assert_eq!((out.width, out.height), (16, 16));
    assert!(out.pixels.iter().all(|p| *p == 0 || *p == 255));
}
