//! Which decoder a source file gets, and the decoders that work on bytes
//! in memory: the generic raster codecs, and the flattened preview of a
//! layered image.

use vstd::prelude::*;
use image::DynamicImage;
use crate::error::ApiError;
use crate::raster::decode_as;
use crate::raster::decoder_answer;
use crate::raster::format_named;
use crate::raster::format_of_extension;
use crate::raster::image_bytes;
use crate::raster::image_height;
use crate::raster::image_layout;
use crate::raster::image_width;
use crate::raster::rgba_image;
use crate::raster::ColorLayout;
use crate::raster::RGBA_BYTES;
use crate::text::same_text;

verus! {

/// How a source file is decoded.
#[derive(Debug, Clone, Copy, PartialEq, Eq, Structural)]
pub enum Strategy {
    /// The flattened preview of a layered image is taken.
    LayeredPreview,
    /// A keyframe of a video is selected.
    VideoKeyframe,
    /// A raster codec decodes the file.
    Raster,
}

/// What `str::to_lowercase` returns.
pub uninterp spec fn lowercase_of(text: Seq<char>) -> Seq<char>;

/// `str::to_lowercase`: the result is a function of the text.
#[verifier::external_body]
fn lowercase(text: &str) -> (lower: String)
    ensures
        lower@ == lowercase_of(text@),
{
    text.to_lowercase()
}

/// The strategy for a file extension that is already in lower case.
pub open spec fn strategy_of(extension: Seq<char>) -> Strategy {
    if extension == "psd"@ {
        Strategy::LayeredPreview
    } else if extension == "mp4"@ || extension == "webm"@ || extension == "mov"@ {
        Strategy::VideoKeyframe
    } else {
        Strategy::Raster
    }
}

/// The strategy for a file extension that is already in lower case.
pub fn strategy_for_lowercase(extension: &str) -> (s: Strategy)
    ensures
        s == strategy_of(extension@),
{
    if same_text(extension, "psd") {
        Strategy::LayeredPreview
    } else if same_text(extension, "mp4") || same_text(extension, "webm") || same_text(
        extension,
        "mov",
    ) {
        Strategy::VideoKeyframe
    } else {
        Strategy::Raster
    }
}

/// The strategy for a file with this extension, whatever its case. A file
/// without extension has the empty one.
pub fn strategy(extension: &str) -> (s: Strategy)
    ensures
        s == strategy_of(lowercase_of(extension@)),
{
    let lower = lowercase(extension);
    strategy_for_lowercase(lower.as_str())
}

/// What is returned for each answer of a raster codec: its image, or its
/// words as a `DecodeError`.
pub fn decoded(answer: Result<DynamicImage, String>) -> (r: Result<DynamicImage, ApiError>)
    ensures
        match answer {
            Ok(img) => r == Ok::<DynamicImage, ApiError>(img),
            Err(words) => r == Err::<DynamicImage, ApiError>(ApiError::DecodeError(words)),
        },
{
    match answer {
        Ok(img) => Ok(img),
        Err(words) => Err(ApiError::DecodeError(words)),
    }
}

/// What decoding bytes by an extension gives: the answer of the decoder of
/// the format that the extension names, or an error where it names none.
pub open spec fn decoding(bytes: Seq<u8>, extension: Seq<char>) -> Result<DynamicImage, Seq<char>> {
    match format_named(extension) {
        Some(format) => decoder_answer(bytes, format),
        None => Err("the image format is not supported"@),
    }
}

/// Decodes the bytes of a file with the codec that its extension names:
/// the decoder's image as it is, its error as a `DecodeError` of the same
/// words. An extension that names no format is a `DecodeError` too.
pub fn decode_raster(bytes: &[u8], extension: &str) -> (r: Result<DynamicImage, ApiError>)
    ensures
        match decoding(bytes@, extension@) {
            Ok(img) => r == Ok::<DynamicImage, ApiError>(img),
            Err(words) => r matches Err(ApiError::DecodeError(w)) && w@ == words,
        },
{
    match format_of_extension(extension) {
        Some(format) => decoded(decode_as(bytes, format)),
        None => Err(ApiError::DecodeError("the image format is not supported".to_owned())),
    }
}

/// Whether `len` bytes are the pixels of an image of this size with four
/// 8-bit channels.
pub open spec fn preview_matches(width: u32, height: u32, len: int) -> bool {
    len == RGBA_BYTES * width * height
}

/// The image of the flattened preview of a layered image, given its size
/// and its pixels as RGBA bytes. Bytes that are not exactly the pixels of
/// an image of that size are a `DecodeError`.
pub fn layered_preview(width: u32, height: u32, rgba: Vec<u8>) -> (r: Result<
    DynamicImage,
    ApiError,
>)
    ensures
        r is Ok <==> preview_matches(width, height, rgba@.len() as int),
        r matches Ok(img) ==> {
            &&& image_layout(img) == ColorLayout::Rgba8
            &&& image_width(img) == width
            &&& image_height(img) == height
            &&& image_bytes(img) == rgba@
        },
        r matches Err(e) ==> e matches ApiError::DecodeError(words) && words@
            == "the preview does not match its dimensions"@,
{
    assert(width * height <= 0xffff_ffff * 0xffff_ffff) by (nonlinear_arith)
        requires
            0 <= width <= 0xffff_ffff,
            0 <= height <= 0xffff_ffff,
    ;
    assert(RGBA_BYTES * width * height == 4 * (width * height)) by (nonlinear_arith);
    let pixels: u128 = (width as u128) * (height as u128);
    if rgba.len() as u128 != 4 * pixels {
        return Err(ApiError::DecodeError("the preview does not match its dimensions".to_owned()));
    }
    match rgba_image(width, height, rgba) {
        Some(img) => Ok(img),
        None => Err(ApiError::DecodeError("the preview does not fill its image".to_owned())),
    }
}

} // verus!
