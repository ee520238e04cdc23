//! From a decoded image to the bytes that are sent: the image is fitted
//! into the box of the preset, brought to 8-bit colour, and encoded as
//! lossy WebP.

use vstd::prelude::*;
use vstd::arithmetic::power2::lemma2_to64;
use vstd::arithmetic::power2::lemma_pow2_adds;
use vstd::arithmetic::power2::pow2;
use image::DynamicImage;
use crate::error::ApiError;
use crate::raster::encode_webp;
use crate::raster::height;
use crate::raster::image_height;
use crate::raster::image_layout;
use crate::raster::image_width;
use crate::raster::layout;
use crate::raster::rgb8_of;
use crate::raster::rgba8_of;
use crate::raster::scaled_into;
use crate::raster::thumbnail;
use crate::raster::thumbnail_of;
use crate::raster::to_rgb8;
use crate::raster::to_rgba8;
use crate::raster::webp_answer;
use crate::raster::width;
use crate::raster::ColorLayout;
use crate::score::Score;
use crate::size::Size;

verus! {

/// The widest and the tallest image that WebP can hold.
pub const MAX_DIMENSION: u32 = 16383;

/// The bits of 100, the highest quality of the encoder; the lowest is 0,
/// whose bits are 0.
pub const MAX_QUALITY_BITS: u32 = 0x42c8_0000;

/// Whether a quality is one that the encoder has: a number from 0 to 100.
pub open spec fn is_quality(quality: Score) -> bool {
    quality.spec_ge(Score { bits: 0 }) && (Score { bits: MAX_QUALITY_BITS }).spec_ge(quality)
}

/// The bits of the highest quality are those of the number 100.
pub proof fn law_highest_quality_is_hundred(quality: Score)
    requires
        quality.bits == MAX_QUALITY_BITS,
    ensures
        !quality.is_nan(),
        quality.scaled_value() == 100 * pow2(149),
{
    lemma2_to64();
    lemma_pow2_adds(17, 132);
    assert(quality.exponent() == 133 && quality.fraction() == 0x48_0000);
    assert(0xc8_0000 * pow2(132) == 100 * (pow2(17) * pow2(132))) by (nonlinear_arith)
        requires
            pow2(17) == 0x2_0000,
    ;
}

/// Whether an image lies within a box.
pub open spec fn fits(img: DynamicImage, max_width: u32, max_height: u32) -> bool {
    image_width(img) <= max_width && image_height(img) <= max_height
}

/// The image in the size that is sent: itself where no preset is asked for
/// or where it lies within the preset's box, else scaled down into the box.
pub open spec fn fitted(img: DynamicImage, size: Option<Size>) -> DynamicImage {
    match size {
        Some(preset) => {
            let (max_width, max_height) = preset.spec_dimensions();
            if fits(img, max_width, max_height) {
                img
            } else {
                thumbnail_of(img, max_width, max_height)
            }
        },
        None => img,
    }
}

/// The layout in which an image of the given layout is encoded: 8-bit RGBA
/// for the deeper layouts with an alpha channel beside three colours, 8-bit
/// RGB for every other layout but the two 8-bit ones, which stay.
pub open spec fn encoded_layout(layout: ColorLayout) -> ColorLayout {
    match layout {
        ColorLayout::Rgb8 => ColorLayout::Rgb8,
        ColorLayout::Rgba8 => ColorLayout::Rgba8,
        ColorLayout::Rgba16 => ColorLayout::Rgba8,
        ColorLayout::Rgba32F => ColorLayout::Rgba8,
        _ => ColorLayout::Rgb8,
    }
}

/// The image as it is handed to the encoder.
pub open spec fn normalized(img: DynamicImage) -> DynamicImage {
    let from = image_layout(img);
    if from == encoded_layout(from) {
        img
    } else if encoded_layout(from) == ColorLayout::Rgba8 {
        rgba8_of(img)
    } else {
        rgb8_of(img)
    }
}

/// Whether `out` is `img` scaled down into a box: it lies within the box,
/// has a pixel, and keeps the ratio of the sides of `img` within one pixel.
pub open spec fn scaled_down(
    img: DynamicImage,
    max_width: u32,
    max_height: u32,
    out: DynamicImage,
) -> bool {
    &&& fits(out, max_width, max_height)
    &&& image_width(out) >= 1
    &&& image_height(out) >= 1
    &&& scaled_into(
        image_width(img),
        image_height(img),
        max_width,
        max_height,
        image_width(out),
        image_height(out),
    )
}

/// Fits an image into the box of a preset. An image within the box is not
/// scaled up: it is returned as it is. One that is scaled down keeps the
/// ratio of its sides within one pixel, and one of its sides becomes the
/// box's.
pub fn fit(img: DynamicImage, size: Option<Size>) -> (out: DynamicImage)
    ensures
        out == fitted(img, size),
        image_layout(out) == image_layout(img),
        size matches Some(preset) ==> {
            let (max_width, max_height) = preset.spec_dimensions();
            &&& fits(out, max_width, max_height)
            &&& !fits(img, max_width, max_height) ==> scaled_down(img, max_width, max_height, out)
        },
{
    match size {
        Some(preset) => {
            let (max_width, max_height) = preset.dimensions();
            if width(&img) <= max_width && height(&img) <= max_height {
                img
            } else {
                thumbnail(&img, max_width, max_height)
            }
        },
        None => img,
    }
}

/// Brings an image to the layout in which it is encoded; its size stays.
pub fn normalize(img: DynamicImage) -> (out: DynamicImage)
    ensures
        out == normalized(img),
        image_layout(out) == encoded_layout(image_layout(img)),
        image_width(out) == image_width(img),
        image_height(out) == image_height(img),
{
    match layout(&img) {
        ColorLayout::Rgb8 => img,
        ColorLayout::Rgba8 => img,
        ColorLayout::Rgba16 => to_rgba8(&img),
        ColorLayout::Rgba32F => to_rgba8(&img),
        _ => to_rgb8(&img),
    }
}

/// What is returned for each answer of the encoder: its bytes, or its
/// words as an `EncodeError`.
pub fn encoded(answer: Result<Vec<u8>, String>) -> (r: Result<Vec<u8>, ApiError>)
    ensures
        match answer {
            Ok(bytes) => r == Ok::<Vec<u8>, ApiError>(bytes),
            Err(words) => r == Err::<Vec<u8>, ApiError>(ApiError::EncodeError(words)),
        },
{
    match answer {
        Ok(bytes) => Ok(bytes),
        Err(words) => Err(ApiError::EncodeError(words)),
    }
}

/// What encoding an image at a quality gives: for a raster that WebP can
/// hold and a quality from 0 to 100, the encoder's answer; else an error.
pub open spec fn encoding(img: DynamicImage, quality: Score) -> Result<Seq<u8>, Seq<char>> {
    if !(1 <= image_width(img) <= MAX_DIMENSION && 1 <= image_height(img) <= MAX_DIMENSION) {
        Err("bad dimension"@)
    } else if !is_quality(quality) {
        Err("bad quality"@)
    } else {
        webp_answer(img, quality.bits)
    }
}

/// Whether `r` gives `answer` out: the same bytes, or an `EncodeError` of
/// the same words.
pub open spec fn gives(r: Result<Vec<u8>, ApiError>, answer: Result<Seq<u8>, Seq<char>>) -> bool {
    match answer {
        Ok(bytes) => r matches Ok(v) && v@ == bytes,
        Err(words) => r matches Err(ApiError::EncodeError(w)) && w@ == words,
    }
}

/// Encodes a normalised image at a quality from 0 to 100, fractions
/// included. A raster that WebP cannot hold, or a quality that is not a
/// number from 0 to 100, is rejected before the encoder is asked; otherwise
/// the encoder's answer is returned, its bytes as they are and its error as
/// an `EncodeError`.
pub fn encode(img: &DynamicImage, quality: Score) -> (r: Result<Vec<u8>, ApiError>)
    ensures
        gives(r, encoding(*img, quality)),
{
    let w = width(img);
    let h = height(img);
    if w == 0 || h == 0 || w > MAX_DIMENSION || h > MAX_DIMENSION {
        return Err(ApiError::EncodeError("bad dimension".to_owned()));
    }
    let lowest = Score::from_bits(0);
    let highest = Score::from_bits(MAX_QUALITY_BITS);
    if !(quality.ge(&lowest) && highest.ge(&quality)) {
        return Err(ApiError::EncodeError("bad quality".to_owned()));
    }
    encoded(encode_webp(img, quality))
}

/// Renders an image for a response: fitted into the preset's box if one is
/// given, normalised, and encoded at `quality`.
pub fn render(img: DynamicImage, size: Option<Size>, quality: Score) -> (r: Result<
    Vec<u8>,
    ApiError,
>)
    ensures
        gives(r, encoding(normalized(fitted(img, size)), quality)),
{
    let sized = fit(img, size);
    let plain = normalize(sized);
    encode(&plain, quality)
}

} // verus!
