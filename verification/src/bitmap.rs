//! Bitmap values and the verified pixel transforms of preprocessing:
//! grayscale conversion, mean brightness, inversion, polarity correction
//! and fixed-level thresholding.
//!
//! Each transform is a pure function from one bitmap value to the next;
//! every output pixel is pinned down exactly.

use vstd::prelude::*;
use vstd::arithmetic::div_mod::{
    lemma_div_is_ordered, lemma_div_multiples_vanish, lemma_fundamental_div_mod,
};

verus! {

/// A decoded bitmap in 8-bit RGB form: three samples per pixel, row-major.
pub struct RgbBitmap {
    pub width: u32,
    pub height: u32,
    pub samples: Vec<u8>,
}

impl RgbBitmap {
    /// The sample buffer holds exactly three samples for each pixel.
    pub open spec fn wf(self) -> bool {
        self.samples@.len() == 3 * (self.width as nat) * (self.height as nat)
    }
}

/// A single-channel bitmap: one luminance sample per pixel, row-major.
pub struct GrayBitmap {
    pub width: u32,
    pub height: u32,
    pub pixels: Vec<u8>,
}

impl GrayBitmap {
    /// The pixel buffer holds exactly one sample for each pixel.
    pub open spec fn wf(self) -> bool {
        self.pixels@.len() == (self.width as nat) * (self.height as nat)
    }
}

/// The luminance of one RGB pixel: the ITU-R BT.709 weighting, carried out
/// in integers scaled by ten thousand.
pub open spec fn luma(r: u8, g: u8, b: u8) -> u8 {
    ((2126 * (r as int) + 7152 * (g as int) + 722 * (b as int)) / 10000) as u8
}

/// The luminance sequence of an RGB sample buffer.
pub open spec fn gray_of_rgb(s: Seq<u8>) -> Seq<u8> {
    Seq::new((s.len() / 3) as nat, |i: int| luma(s[3 * i], s[3 * i + 1], s[3 * i + 2]))
}

/// The sum of all pixel values.
pub open spec fn sum_pixels(s: Seq<u8>) -> nat
    decreases s.len(),
{
    if s.len() == 0 {
        0
    } else {
        sum_pixels(s.drop_last()) + s.last() as nat
    }
}

/// The mean pixel value, rounded down.
pub open spec fn mean_brightness(s: Seq<u8>) -> nat
    recommends
        s.len() > 0,
{
    sum_pixels(s) / s.len()
}

/// Every pixel inverted on the 0–255 scale.
pub open spec fn invert_seq(s: Seq<u8>) -> Seq<u8> {
    Seq::new(s.len(), |i: int| (255 - s[i]) as u8)
}

/// Every pixel at or above `level` becomes pure white, every pixel below
/// it pure black.
pub open spec fn threshold_seq(s: Seq<u8>, level: u8) -> Seq<u8> {
    Seq::new(
        s.len(),
        |i: int|
            if s[i] >= level {
                255u8
            } else {
                0u8
            },
    )
}

/// The sum of a buffer is at most 255 for each pixel.
pub proof fn lemma_sum_pixels_bound(s: Seq<u8>)
    ensures
        sum_pixels(s) <= 255 * s.len(),
    decreases s.len(),
{
    if s.len() > 0 {
        lemma_sum_pixels_bound(s.drop_last());
    }
}

/// One scanning step of the pixel sum.
proof fn lemma_sum_pixels_take_step(s: Seq<u8>, i: int)
    requires
        0 <= i < s.len(),
    ensures
        sum_pixels(s.take(i + 1)) == sum_pixels(s.take(i)) + s[i],
{
    assert(s.take(i + 1).drop_last() =~= s.take(i));
    assert(s.take(i + 1).last() == s[i]);
}

/// Inverting a buffer complements its sum against an all-white buffer.
pub proof fn lemma_sum_invert(s: Seq<u8>)
    ensures
        sum_pixels(invert_seq(s)) == 255 * s.len() - sum_pixels(s),
    decreases s.len(),
{
    lemma_sum_pixels_bound(s);
    if s.len() > 0 {
        lemma_sum_invert(s.drop_last());
        assert(invert_seq(s).drop_last() =~= invert_seq(s.drop_last()));
        assert(invert_seq(s).last() == (255 - s.last()) as u8);
    }
}

/// Converts a decoded RGB bitmap to its single-channel luminance bitmap.
pub fn grayscale(img: &RgbBitmap) -> (out: GrayBitmap)
    requires
        img.wf(),
    ensures
        out.wf(),
        out.width == img.width,
        out.height == img.height,
        out.pixels@ == gray_of_rgb(img.samples@),
{
    let len = img.samples.len();
    let npix = len / 3;
    proof {
        lemma_fundamental_div_mod(len as int, 3);
        assert(3 * (img.width as int) * (img.height as int) == 3 * ((img.width as int) * (
        img.height as int))) by (nonlinear_arith);
        lemma_div_multiples_vanish((img.width as int) * (img.height as int), 3);
    }
    let mut pixels: Vec<u8> = Vec::new();
    let mut i: usize = 0;
    while i < npix
        invariant
            i <= npix,
            npix == img.samples@.len() / 3,
            img.samples@.len() <= usize::MAX,
            3 * (npix as int) <= img.samples@.len(),
            img.samples@.len() == 3 * (img.width as nat) * (img.height as nat),
            pixels@ == gray_of_rgb(img.samples@).take(i as int),
        decreases npix - i,
    {
        assert(3 * (i as int) + 3 <= 3 * (npix as int)) by (nonlinear_arith)
            requires
                i < npix,
        ;
        let r = img.samples[3 * i];
        let g = img.samples[3 * i + 1];
        let b = img.samples[3 * i + 2];
        let weighted: u32 = 2126 * (r as u32) + 7152 * (g as u32) + 722 * (b as u32);
        let l: u8 = (weighted / 10000) as u8;
        pixels.push(l);
        assert(gray_of_rgb(img.samples@).take(i + 1) =~= gray_of_rgb(img.samples@).take(
            i as int,
        ).push(luma(img.samples@[3 * i as int], img.samples@[3 * i + 1], img.samples@[3 * i + 2])));
        i = i + 1;
    }
    assert(gray_of_rgb(img.samples@).take(npix as int) =~= gray_of_rgb(img.samples@));
    proof {
        assert((img.width as nat) * (img.height as nat) == npix as nat);
    }
    GrayBitmap { width: img.width, height: img.height, pixels }
}

/// The mean brightness of a non-empty bitmap, rounded down.
pub fn mean_pixel(img: &GrayBitmap) -> (m: u8)
    requires
        img.wf(),
        img.pixels@.len() > 0,
    ensures
        m as nat == mean_brightness(img.pixels@),
{
    let n = img.pixels.len();
    let mut acc: u128 = 0;
    let mut i: usize = 0;
    while i < n
        invariant
            i <= n,
            n == img.pixels@.len(),
            acc == sum_pixels(img.pixels@.take(i as int)),
            acc <= 255 * (i as nat),
        decreases n - i,
    {
        proof {
            lemma_sum_pixels_take_step(img.pixels@, i as int);
        }
        acc = acc + img.pixels[i] as u128;
        i = i + 1;
    }
    assert(img.pixels@.take(n as int) =~= img.pixels@);
    proof {
        lemma_sum_pixels_bound(img.pixels@);
        lemma_div_is_ordered(acc as int, 255 * n as int, n as int);
        lemma_div_multiples_vanish(255, n as int);
    }
    (acc / (n as u128)) as u8
}

/// Inverts every pixel of the bitmap.
pub fn invert(img: GrayBitmap) -> (out: GrayBitmap)
    requires
        img.wf(),
    ensures
        out.wf(),
        out.width == img.width,
        out.height == img.height,
        out.pixels@ == invert_seq(img.pixels@),
{
    let n = img.pixels.len();
    let mut pixels: Vec<u8> = Vec::new();
    let mut i: usize = 0;
    while i < n
        invariant
            i <= n,
            n == img.pixels@.len(),
            pixels@ == invert_seq(img.pixels@).take(i as int),
        decreases n - i,
    {
        pixels.push(255 - img.pixels[i]);
        assert(invert_seq(img.pixels@).take(i + 1) =~= invert_seq(img.pixels@).take(i as int).push(
            (255 - img.pixels@[i as int]) as u8,
        ));
        i = i + 1;
    }
    assert(invert_seq(img.pixels@).take(n as int) =~= invert_seq(img.pixels@));
    GrayBitmap { width: img.width, height: img.height, pixels }
}

/// Normalizes a light-on-dark bitmap to dark-on-light: when the mean
/// brightness falls below `dark_threshold`, every pixel is inverted — a
/// lossless flip of the histogram — and otherwise the bitmap passes through
/// unchanged.
pub fn polarity_correct(img: GrayBitmap, dark_threshold: u8) -> (out: GrayBitmap)
    requires
        img.wf(),
        img.pixels@.len() > 0,
    ensures
        out.wf(),
        out.width == img.width,
        out.height == img.height,
        mean_brightness(img.pixels@) < dark_threshold as nat ==> out.pixels@ == invert_seq(
            img.pixels@,
        ),
        mean_brightness(img.pixels@) >= dark_threshold as nat ==> out.pixels@ == img.pixels@,
{
    let m = mean_pixel(&img);
    if m < dark_threshold {
        invert(img)
    } else {
        img
    }
}

/// Binarizes the bitmap with a fixed threshold level: every pixel becomes
/// pure black or pure white.
pub fn threshold_fixed(img: GrayBitmap, level: u8) -> (out: GrayBitmap)
    requires
        img.wf(),
    ensures
        out.wf(),
        out.width == img.width,
        out.height == img.height,
        out.pixels@ == threshold_seq(img.pixels@, level),
        forall|i: int|
            0 <= i < out.pixels@.len() ==> out.pixels@[i] == 0 || #[trigger] out.pixels@[i] == 255,
{
    let n = img.pixels.len();
    let mut pixels: Vec<u8> = Vec::new();
    let mut i: usize = 0;
    while i < n
        invariant
            i <= n,
            n == img.pixels@.len(),
            pixels@ == threshold_seq(img.pixels@, level).take(i as int),
        decreases n - i,
    {
        let p: u8 = if img.pixels[i] >= level {
            255
        } else {
            0
        };
        pixels.push(p);
        assert(threshold_seq(img.pixels@, level).take(i + 1) =~= threshold_seq(
            img.pixels@,
            level,
        ).take(i as int).push(p));
        i = i + 1;
    }
    assert(threshold_seq(img.pixels@, level).take(n as int) =~= threshold_seq(
        img.pixels@,
        level,
    ));
    GrayBitmap { width: img.width, height: img.height, pixels }
}

/// The polarity-correction law: a bitmap whose mean brightness lies below
/// a dark-theme threshold of at most 127 comes out of the flip with a
/// strictly higher mean brightness.
pub proof fn lemma_polarity_flip_raises_mean(s: Seq<u8>, dark_threshold: u8)
    requires
        s.len() > 0,
        dark_threshold <= 127,
        mean_brightness(s) < dark_threshold as nat,
    ensures
        mean_brightness(invert_seq(s)) > mean_brightness(s),
{
    let n = s.len() as int;
    let total = sum_pixels(s) as int;
    let t = dark_threshold as int;
    lemma_sum_invert(s);
    lemma_fundamental_div_mod(total, n);
    // mean < t pins the sum below t * n.
    assert(total < t * n) by (nonlinear_arith)
        requires
            total == n * (total / n) + total % n,
            total / n <= t - 1,
            0 <= total % n,
            total % n < n,
            n > 0,
    ;
    // The inverted sum therefore reaches at least (255 - t) * n + 1.
    let itotal = 255 * n - total;
    assert(itotal > (255 - t) * n) by (nonlinear_arith)
        requires
            total < t * n,
            itotal == 255 * n - total,
    ;
    assert((255 - t) * n >= 128 * n) by (nonlinear_arith)
        requires
            t <= 127,
            n > 0,
    ;
    lemma_div_multiples_vanish(128, n);
    lemma_div_is_ordered(128 * n, itotal, n);
    assert(mean_brightness(invert_seq(s)) >= 128);
    assert(mean_brightness(s) < 128);
}

} // verus!
