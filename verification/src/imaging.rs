//! The trusted boundary to the `image` and `imageproc` crates: decoding,
//! resampling, smoothing, contrast stretching, adaptive thresholding and
//! PNG encoding.
//!
//! Each wrapper makes one call into the outside crate and states over plain
//! values what that crate's source shows. Results that would take pages to
//! state exactly — resampled, smoothed or adaptively thresholded pixels,
//! and encoded bytes — are given names instead: each is a function of the
//! wrapper's arguments alone. Where a crate evaluates its kernels through
//! the platform's floating-point math library, that function is fixed for
//! a given build; the individual wrappers say so.

use vstd::prelude::*;
use image::ImageEncoder;
use crate::bitmap::{GrayBitmap, RgbBitmap};

verus! {

/// What decoding a bitmap file yields: `None` exactly on the inputs the
/// decoder rejects, else the dimensions and the 8-bit RGB samples.
pub uninterp spec fn decoded_rgb(bytes: Seq<u8>) -> Option<(u32, u32, Seq<u8>)>;

/// The pixels of a Lanczos resampling from `w`×`h` to `nw`×`nh`.
pub uninterp spec fn lanczos_resized(pixels: Seq<u8>, w: int, h: int, nw: int, nh: int) -> Seq<u8>;

/// The pixels of a Gaussian smoothing with the given odd kernel size.
pub uninterp spec fn gaussian_smoothed(pixels: Seq<u8>, w: int, h: int, kernel_size: u32) -> Seq<
    u8,
>;

/// The pixels of an adaptive, locally-windowed thresholding with the given
/// block radius and offset.
pub uninterp spec fn adaptive_thresholded(
    pixels: Seq<u8>,
    w: int,
    h: int,
    block_radius: u32,
    delta: i32,
) -> Seq<u8>;

/// The PNG encoding of a single-channel bitmap.
pub uninterp spec fn png_encoded_gray(pixels: Seq<u8>, w: int, h: int) -> Seq<u8>;

/// Whether PNG-encoding a single-channel bitmap succeeds.
pub uninterp spec fn png_encode_ok(pixels: Seq<u8>, w: int, h: int) -> bool;

/// One pixel of a linear contrast stretch mapping `[input_lower,
/// input_upper]` onto `[output_lower, output_upper]`, clamping outside the
/// input range — the exact integer arithmetic of
/// `imageproc::contrast::stretch_contrast`.
pub open spec fn stretch_pixel(
    c: u8,
    input_lower: u8,
    input_upper: u8,
    output_lower: u8,
    output_upper: u8,
) -> u8
    recommends
        input_lower < input_upper,
        output_lower <= output_upper,
{
    if c <= input_lower {
        output_lower
    } else if c >= input_upper {
        output_upper
    } else {
        ((((c - input_lower) * ((output_upper - output_lower) as int)) / ((input_upper
            - input_lower) as int)) + output_lower) as u8
    }
}

/// The pixelwise contrast stretch of a whole buffer.
pub open spec fn stretch_seq(
    s: Seq<u8>,
    input_lower: u8,
    input_upper: u8,
    output_lower: u8,
    output_upper: u8,
) -> Seq<u8> {
    Seq::new(s.len(), |i: int| stretch_pixel(s[i], input_lower, input_upper, output_lower,
        output_upper))
}

/// Relies on `image::load_from_memory` and `image::DynamicImage::to_rgb8`:
/// decoding is a pure function of the bytes, and an `ImageBuffer` always
/// holds exactly width × height × 3 samples. Format detection consults the
/// crate's process-global hook registry before its built-in signatures, so
/// purity assumes no such hook is registered — nothing in this library or
/// around it registers one.
#[verifier::external_body]
pub fn decode_rgb(bytes: &[u8]) -> (r: Option<RgbBitmap>)
    ensures
        r is Some <==> decoded_rgb(bytes@) is Some,
        r matches Some(img) ==> {
            &&& decoded_rgb(bytes@) == Some((img.width, img.height, img.samples@))
            &&& img.wf()
        },
{
    match image::load_from_memory(bytes) {
        Ok(decoded) => {
            let buf = decoded.to_rgb8();
            let width = buf.width();
            let height = buf.height();
            Some(RgbBitmap { width, height, samples: buf.into_raw() })
        },
        Err(_) => None,
    }
}

/// Relies on `image::imageops::resize`: the output buffer has exactly the
/// requested dimensions, and resampling is a pure function of the input —
/// the Lanczos kernel evaluates through the platform's floating-point math
/// library, so the function is fixed per build of the crate.
#[verifier::external_body]
pub fn resize_lanczos(img: &GrayBitmap, new_width: u32, new_height: u32) -> (r: GrayBitmap)
    requires
        img.wf(),
        img.width > 0,
        img.height > 0,
        new_width > 0,
        new_height > 0,
        (new_width as nat) * (new_height as nat) <= usize::MAX,
    ensures
        r.width == new_width,
        r.height == new_height,
        r.wf(),
        r.pixels@ == lanczos_resized(
            img.pixels@,
            img.width as int,
            img.height as int,
            new_width as int,
            new_height as int,
        ),
{
    let buf = image::GrayImage::from_raw(img.width, img.height, img.pixels.clone()).unwrap();
    let out = image::imageops::resize(
        &buf,
        new_width,
        new_height,
        image::imageops::FilterType::Lanczos3,
    );
    GrayBitmap { width: new_width, height: new_height, pixels: out.into_raw() }
}

/// Relies on `image::imageops::blur_advanced` with one of the crate's
/// built-in smoothing parameter sets (kernel sizes 3, 5 and 7): the output
/// has the input's dimensions, and smoothing is a pure function of the
/// input — the Gaussian weights evaluate through the platform's
/// floating-point math library, so the function is fixed per build of the
/// crate.
#[verifier::external_body]
pub fn smooth_gaussian(img: &GrayBitmap, kernel_size: u32) -> (r: GrayBitmap)
    requires
        img.wf(),
        img.width > 0,
        img.height > 0,
        kernel_size == 3 || kernel_size == 5 || kernel_size == 7,
    ensures
        r.width == img.width,
        r.height == img.height,
        r.wf(),
        r.pixels@ == gaussian_smoothed(
            img.pixels@,
            img.width as int,
            img.height as int,
            kernel_size,
        ),
{
    let buf = image::GrayImage::from_raw(img.width, img.height, img.pixels.clone()).unwrap();
    let parameters = match kernel_size {
        3 => image::imageops::GaussianBlurParameters::SMOOTHING_3,
        5 => image::imageops::GaussianBlurParameters::SMOOTHING_5,
        _ => image::imageops::GaussianBlurParameters::SMOOTHING_7,
    };
    let out = image::imageops::blur_advanced(&buf, parameters);
    GrayBitmap { width: img.width, height: img.height, pixels: out.into_raw() }
}

/// Relies on `imageproc::contrast::stretch_contrast`: each output pixel is
/// the exact integer stretch its source shows, stated here pixel by pixel.
#[verifier::external_body]
pub fn stretch_contrast_gray(
    img: &GrayBitmap,
    input_lower: u8,
    input_upper: u8,
    output_lower: u8,
    output_upper: u8,
) -> (r: GrayBitmap)
    requires
        img.wf(),
        input_lower < input_upper,
        output_lower <= output_upper,
    ensures
        r.width == img.width,
        r.height == img.height,
        r.wf(),
        r.pixels@ == stretch_seq(img.pixels@, input_lower, input_upper, output_lower,
            output_upper),
{
    let buf = image::GrayImage::from_raw(img.width, img.height, img.pixels.clone()).unwrap();
    let out = imageproc::contrast::stretch_contrast(
        &buf,
        input_lower,
        input_upper,
        output_lower,
        output_upper,
    );
    GrayBitmap { width: img.width, height: img.height, pixels: out.into_raw() }
}

/// Relies on `imageproc::contrast::adaptive_threshold`: the output has the
/// input's dimensions, every output pixel is pure black or pure white, and
/// the result is a pure function of the input. The size bound keeps the
/// crate's 32-bit integral image away from overflow; the bounds on the
/// block radius and the offset keep its window indices and its
/// mean-minus-offset comparison inside `u32` and `i32`.
#[verifier::external_body]
pub fn adaptive_threshold_gray(img: &GrayBitmap, block_radius: u32, delta: i32) -> (r: GrayBitmap)
    requires
        img.wf(),
        img.width > 0,
        img.height > 0,
        block_radius >= 1,
        block_radius <= 0x7fff,
        delta >= -(i32::MAX - 255),
        255 * (img.width as nat) * (img.height as nat) <= u32::MAX,
    ensures
        r.width == img.width,
        r.height == img.height,
        r.wf(),
        r.pixels@ == adaptive_thresholded(
            img.pixels@,
            img.width as int,
            img.height as int,
            block_radius,
            delta,
        ),
        forall|i: int|
            0 <= i < r.pixels@.len() ==> r.pixels@[i] == 0 || #[trigger] r.pixels@[i] == 255,
{
    let buf = image::GrayImage::from_raw(img.width, img.height, img.pixels.clone()).unwrap();
    let out = imageproc::contrast::adaptive_threshold(&buf, block_radius, delta);
    GrayBitmap { width: img.width, height: img.height, pixels: out.into_raw() }
}

/// Relies on `image::codecs::png::PngEncoder`: encoding to a byte buffer is
/// a pure function of the pixels and dimensions, and so is whether it
/// succeeds; on success the bytes are the encoding.
#[verifier::external_body]
pub fn encode_png_gray(img: &GrayBitmap) -> (r: Option<Vec<u8>>)
    requires
        img.wf(),
        img.width > 0,
        img.height > 0,
    ensures
        r is Some <==> png_encode_ok(img.pixels@, img.width as int, img.height as int),
        r matches Some(bytes) ==> bytes@ == png_encoded_gray(
            img.pixels@,
            img.width as int,
            img.height as int,
        ),
{
    let mut out: Vec<u8> = Vec::new();
    let encoder = image::codecs::png::PngEncoder::new(&mut out);
    match encoder.write_image(
        img.pixels.as_slice(),
        img.width,
        img.height,
        image::ExtendedColorType::L8,
    ) {
        Ok(()) => Some(out),
        Err(_) => None,
    }
}

} // verus!
