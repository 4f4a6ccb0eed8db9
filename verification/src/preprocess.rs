//! The preprocessing pipeline: grayscale conversion, polarity correction,
//! 2× upscaling, Gaussian smoothing, contrast stretching and binarization,
//! each step feeding the next.
//!
//! The numeric constants are a configuration surface with one documented
//! default profile, not hardcoded values; the binarization policy can be
//! swapped between a fixed level and an adaptive, locally-windowed
//! threshold without changing the pipeline's shape.

use vstd::prelude::*;
use crate::bitmap::{
    gray_of_rgb, grayscale, invert_seq, mean_brightness, polarity_correct, threshold_fixed,
    threshold_seq, GrayBitmap, RgbBitmap,
};
use crate::imaging::{
    adaptive_threshold_gray, adaptive_thresholded, gaussian_smoothed, lanczos_resized,
    resize_lanczos, smooth_gaussian, stretch_contrast_gray, stretch_seq,
};

verus! {

/// The binarization policy: a fixed threshold level, or an adaptive,
/// locally-windowed threshold for images with uneven lighting.
#[derive(Debug, Clone, Copy, PartialEq, Eq, Structural)]
pub enum ThresholdPolicy {
    /// Every pixel at or above `level` becomes white, every other black.
    Fixed { level: u8 },
    /// Each pixel is compared against the mean of the surrounding block of
    /// radius `block_radius`, offset by `delta`. The radius stays within
    /// 32767 and the offset at or above 255 − `i32::MAX`, keeping the
    /// thresholder's window and comparison arithmetic in range.
    Adaptive { block_radius: u32, delta: i32 },
}

/// The preprocessing tuning profile. The defaults are the documented
/// profile; call sites may override any of them per deployment.
#[derive(Debug, Clone, Copy, PartialEq, Eq, Structural)]
pub struct PreprocessConfig {
    /// Mean brightness below which the bitmap counts as light-on-dark and
    /// is inverted before thresholding. At most 127: above the midpoint a
    /// flip could lower the mean instead of raising it.
    pub dark_threshold: u8,
    /// Kernel size of the anti-aliasing Gaussian smoothing after
    /// upscaling: 3, 5 or 7.
    pub blur_kernel_size: u32,
    /// Lower end of the luminance band stretched onto the output range.
    pub contrast_input_lower: u8,
    /// Upper end of the luminance band stretched onto the output range.
    pub contrast_input_upper: u8,
    /// Darkest output value of the contrast stretch.
    pub contrast_output_lower: u8,
    /// Brightest output value of the contrast stretch.
    pub contrast_output_upper: u8,
    /// The binarization policy.
    pub threshold: ThresholdPolicy,
}

impl PreprocessConfig {
    /// The bounds the tuning profile must respect.
    pub open spec fn wf(self) -> bool {
        &&& self.dark_threshold <= 127
        &&& (self.blur_kernel_size == 3 || self.blur_kernel_size == 5 || self.blur_kernel_size
            == 7)
        &&& self.contrast_input_lower < self.contrast_input_upper
        &&& self.contrast_output_lower <= self.contrast_output_upper
        &&& (self.threshold matches ThresholdPolicy::Adaptive { block_radius, delta } ==> {
            &&& block_radius >= 1
            &&& block_radius <= 0x7fff
            &&& delta >= -(i32::MAX - 255)
        })
    }
}

impl Default for PreprocessConfig {
    /// The documented default profile: dark-theme threshold 110, kernel
    /// size 5 (a mild smoothing), the luminance band 96–160 stretched onto
    /// the full range, and a fixed binarization level of 150.
    fn default() -> (r: Self)
        ensures
            r == default_preprocess_config(),
            r.wf(),
    {
        PreprocessConfig {
            dark_threshold: 110,
            blur_kernel_size: 5,
            contrast_input_lower: 96,
            contrast_input_upper: 160,
            contrast_output_lower: 0,
            contrast_output_upper: 255,
            threshold: ThresholdPolicy::Fixed { level: 150 },
        }
    }
}

/// The documented default tuning profile.
pub open spec fn default_preprocess_config() -> PreprocessConfig {
    PreprocessConfig {
        dark_threshold: 110,
        blur_kernel_size: 5,
        contrast_input_lower: 96,
        contrast_input_upper: 160,
        contrast_output_lower: 0,
        contrast_output_upper: 255,
        threshold: ThresholdPolicy::Fixed { level: 150 },
    }
}

/// What preprocessing yields: the luminance image, inverted when its mean
/// brightness falls below the dark-theme threshold, resampled to twice the
/// width and height, smoothed, contrast-stretched, and binarized under the
/// configured policy.
pub open spec fn spec_preprocess(samples: Seq<u8>, w: int, h: int, cfg: PreprocessConfig) -> Seq<
    u8,
> {
    let gray = gray_of_rgb(samples);
    let corrected = if mean_brightness(gray) < cfg.dark_threshold as nat {
        invert_seq(gray)
    } else {
        gray
    };
    let upscaled = lanczos_resized(corrected, w, h, 2 * w, 2 * h);
    let smoothed = gaussian_smoothed(upscaled, 2 * w, 2 * h, cfg.blur_kernel_size);
    let stretched = stretch_seq(
        smoothed,
        cfg.contrast_input_lower,
        cfg.contrast_input_upper,
        cfg.contrast_output_lower,
        cfg.contrast_output_upper,
    );
    match cfg.threshold {
        ThresholdPolicy::Fixed { level } => threshold_seq(stretched, level),
        ThresholdPolicy::Adaptive { block_radius, delta } => adaptive_thresholded(
            stretched,
            2 * w,
            2 * h,
            block_radius,
            delta,
        ),
    }
}

/// Transforms a decoded bitmap into the binarized bitmap handed to the OCR
/// engine. Deterministic, with no failure path: the output is exactly
/// `spec_preprocess`, its dimensions are exactly twice the input's, and it
/// is strictly bi-level — every pixel is pure black or pure white.
pub fn preprocess(img: RgbBitmap, cfg: &PreprocessConfig) -> (out: GrayBitmap)
    requires
        img.wf(),
        cfg.wf(),
        img.width >= 1,
        img.height >= 1,
        2 * img.width <= u32::MAX,
        2 * img.height <= u32::MAX,
        4 * (img.width as nat) * (img.height as nat) <= usize::MAX,
        cfg.threshold matches ThresholdPolicy::Adaptive { .. } ==> 1020 * (img.width as nat) * (
        img.height as nat) <= u32::MAX,
    ensures
        out.wf(),
        out.width == 2 * img.width,
        out.height == 2 * img.height,
        out.pixels@ == spec_preprocess(img.samples@, img.width as int, img.height as int, *cfg),
        forall|i: int|
            0 <= i < out.pixels@.len() ==> out.pixels@[i] == 0 || #[trigger] out.pixels@[i]
                == 255,
{
    let w = img.width;
    let h = img.height;
    let gray = grayscale(&img);
    proof {
        assert((w as nat) * (h as nat) >= 1) by (nonlinear_arith)
            requires
                w >= 1,
                h >= 1,
        ;
    }
    let corrected = polarity_correct(gray, cfg.dark_threshold);
    let nw = 2 * w;
    let nh = 2 * h;
    proof {
        assert((nw as nat) * (nh as nat) == 4 * (w as nat) * (h as nat)) by (nonlinear_arith)
            requires
                nw == 2 * (w as nat),
                nh == 2 * (h as nat),
        ;
        assert(255 * (nw as nat) * (nh as nat) == 1020 * (w as nat) * (h as nat))
            by (nonlinear_arith)
            requires
                nw == 2 * (w as nat),
                nh == 2 * (h as nat),
        ;
    }
    let upscaled = resize_lanczos(&corrected, nw, nh);
    let smoothed = smooth_gaussian(&upscaled, cfg.blur_kernel_size);
    let stretched = stretch_contrast_gray(
        &smoothed,
        cfg.contrast_input_lower,
        cfg.contrast_input_upper,
        cfg.contrast_output_lower,
        cfg.contrast_output_upper,
    );
    match cfg.threshold {
        ThresholdPolicy::Fixed { level } => threshold_fixed(stretched, level),
        ThresholdPolicy::Adaptive { block_radius, delta } => adaptive_threshold_gray(
            &stretched,
            block_radius,
            delta,
        ),
    }
}

} // verus!
