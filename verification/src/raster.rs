//! Decoded raster images. The pixels stay in the image crate's
//! `DynamicImage`; this module names what the library reads of one (its
//! size, its channel layout, its bytes) and wraps the calls that make,
//! measure and convert one.

use vstd::prelude::*;
use image::DynamicImage;
use image::ImageFormat;
use crate::score::Score;

verus! {

/// The image crate's image of any layout. Nothing of it is seen here but
/// through the names below.
#[verifier::external_type_specification]
#[verifier::external_body]
pub struct ExDynamicImage(DynamicImage);

/// The image crate's list of file formats; a value is only handed on.
#[verifier::external_type_specification]
#[verifier::external_body]
pub struct ExImageFormat(ImageFormat);

/// How the channels of a pixel are laid out.
#[derive(Debug, Clone, Copy, PartialEq, Eq, Structural)]
pub enum ColorLayout {
    L8,
    La8,
    Rgb8,
    Rgba8,
    L16,
    La16,
    Rgb16,
    Rgba16,
    Rgb32F,
    Rgba32F,
    /// A layout that the image crate may add one day.
    Other,
}

/// How many bytes a pixel of three 8-bit channels takes.
pub const RGB_BYTES: usize = 3;

/// How many bytes a pixel of four 8-bit channels takes.
pub const RGBA_BYTES: usize = 4;

/// What `DynamicImage::width` returns.
pub uninterp spec fn image_width(img: DynamicImage) -> u32;

/// What `DynamicImage::height` returns.
pub uninterp spec fn image_height(img: DynamicImage) -> u32;

/// The layout that `DynamicImage::color` tells.
pub uninterp spec fn image_layout(img: DynamicImage) -> ColorLayout;

/// What `DynamicImage::as_bytes` returns: the samples, row by row.
pub uninterp spec fn image_bytes(img: DynamicImage) -> Seq<u8>;

/// The format that `ImageFormat::from_extension` reads from an extension.
pub uninterp spec fn format_named(extension: Seq<char>) -> Option<ImageFormat>;

/// What `ImageReader::decode` makes of bytes that are read as a format: the
/// image, or the text of the decoder's error.
pub uninterp spec fn decoder_answer(bytes: Seq<u8>, format: ImageFormat) -> Result<
    DynamicImage,
    Seq<char>,
>;

/// What the WebP encoder makes of an image in its lossy mode, at the
/// quality with the given bits: the encoded bytes, or the text of its error.
pub uninterp spec fn webp_answer(img: DynamicImage, quality: u32) -> Result<Seq<u8>, Seq<char>>;

/// Whether `(width, height)` is a source of `(source_width, source_height)`
/// scaled into a box by the smaller of the two ratios of box to source: the
/// side that the smaller ratio belongs to is the box's, and the other side
/// is off the same ratio by less than one pixel.
pub open spec fn scaled_into(
    source_width: u32,
    source_height: u32,
    max_width: u32,
    max_height: u32,
    width: u32,
    height: u32,
) -> bool {
    &&& source_width * max_height >= source_height * max_width ==> {
        &&& width == max_width
        &&& height * source_width - source_height * max_width <= source_width
        &&& source_height * max_width - height * source_width <= source_width
    }
    &&& source_height * max_width >= source_width * max_height ==> {
        &&& height == max_height
        &&& width * source_height - source_width * max_height <= source_height
        &&& source_width * max_height - width * source_height <= source_height
    }
}

/// What `DynamicImage::thumbnail` returns.
pub uninterp spec fn thumbnail_of(img: DynamicImage, width: u32, height: u32) -> DynamicImage;

/// What `DynamicImage::to_rgb8` returns, as a `DynamicImage`.
pub uninterp spec fn rgb8_of(img: DynamicImage) -> DynamicImage;

/// What `DynamicImage::to_rgba8` returns, as a `DynamicImage`.
pub uninterp spec fn rgba8_of(img: DynamicImage) -> DynamicImage;

/// `DynamicImage::width`.
#[verifier::external_body]
pub(crate) fn width(img: &DynamicImage) -> (w: u32)
    ensures
        w == image_width(*img),
{
    img.width()
}

/// `DynamicImage::height`.
#[verifier::external_body]
pub(crate) fn height(img: &DynamicImage) -> (h: u32)
    ensures
        h == image_height(*img),
{
    img.height()
}

/// `DynamicImage::color`, with each of the image crate's colour types told
/// as the layout of the same name.
#[verifier::external_body]
pub(crate) fn layout(img: &DynamicImage) -> (l: ColorLayout)
    ensures
        l == image_layout(*img),
{
    match img.color() {
        image::ColorType::L8 => ColorLayout::L8,
        image::ColorType::La8 => ColorLayout::La8,
        image::ColorType::Rgb8 => ColorLayout::Rgb8,
        image::ColorType::Rgba8 => ColorLayout::Rgba8,
        image::ColorType::L16 => ColorLayout::L16,
        image::ColorType::La16 => ColorLayout::La16,
        image::ColorType::Rgb16 => ColorLayout::Rgb16,
        image::ColorType::Rgba16 => ColorLayout::Rgba16,
        image::ColorType::Rgb32F => ColorLayout::Rgb32F,
        image::ColorType::Rgba32F => ColorLayout::Rgba32F,
        _ => ColorLayout::Other,
    }
}

/// `DynamicImage::thumbnail`, called to scale an image down: at least one
/// side exceeds the box, and the box is not empty. The result keeps the
/// layout, and each side is at least 1 and at most the box's. The crate
/// scales both sides by the smaller of the two ratios of box to image,
/// rounds to the nearest integer, and raises a side of 0 to 1: so the side
/// with the smaller ratio becomes the box's, and the other is off the exact
/// ratio by less than one pixel.
#[verifier::external_body]
pub(crate) fn thumbnail(img: &DynamicImage, max_width: u32, max_height: u32) -> (out: DynamicImage)
    requires
        max_width >= 1,
        max_height >= 1,
        image_width(*img) > max_width || image_height(*img) > max_height,
    ensures
        out == thumbnail_of(*img, max_width, max_height),
        image_layout(out) == image_layout(*img),
        1 <= image_width(out) <= max_width,
        1 <= image_height(out) <= max_height,
        scaled_into(
            image_width(*img),
            image_height(*img),
            max_width,
            max_height,
            image_width(out),
            image_height(out),
        ),
{
    img.thumbnail(max_width, max_height)
}

/// `DynamicImage::to_rgb8`: an image of the same size with three 8-bit
/// channels.
#[verifier::external_body]
pub(crate) fn to_rgb8(img: &DynamicImage) -> (out: DynamicImage)
    ensures
        out == rgb8_of(*img),
        image_layout(out) == ColorLayout::Rgb8,
        image_width(out) == image_width(*img),
        image_height(out) == image_height(*img),
{
    DynamicImage::ImageRgb8(img.to_rgb8())
}

/// `DynamicImage::to_rgba8`: an image of the same size with four 8-bit
/// channels.
#[verifier::external_body]
pub(crate) fn to_rgba8(img: &DynamicImage) -> (out: DynamicImage)
    ensures
        out == rgba8_of(*img),
        image_layout(out) == ColorLayout::Rgba8,
        image_width(out) == image_width(*img),
        image_height(out) == image_height(*img),
{
    DynamicImage::ImageRgba8(img.to_rgba8())
}

/// `ImageBuffer::from_raw` for pixels of three 8-bit channels: an image of
/// the given size over the given bytes, unless they are too few.
#[verifier::external_body]
pub(crate) fn rgb_image(width: u32, height: u32, data: Vec<u8>) -> (out: Option<DynamicImage>)
    ensures
        out is Some <==> RGB_BYTES * width * height <= data@.len(),
        out matches Some(img) ==> {
            &&& image_layout(img) == ColorLayout::Rgb8
            &&& image_width(img) == width
            &&& image_height(img) == height
            &&& image_bytes(img) == data@
        },
{
    image::RgbImage::from_raw(width, height, data).map(DynamicImage::ImageRgb8)
}

/// `ImageBuffer::from_raw` for pixels of four 8-bit channels: an image of
/// the given size over the given bytes, unless they are too few.
#[verifier::external_body]
pub(crate) fn rgba_image(width: u32, height: u32, data: Vec<u8>) -> (out: Option<DynamicImage>)
    ensures
        out is Some <==> RGBA_BYTES * width * height <= data@.len(),
        out matches Some(img) ==> {
            &&& image_layout(img) == ColorLayout::Rgba8
            &&& image_width(img) == width
            &&& image_height(img) == height
            &&& image_bytes(img) == data@
        },
{
    image::RgbaImage::from_raw(width, height, data).map(DynamicImage::ImageRgba8)
}

/// `ImageFormat::from_extension`: the format that a file extension names,
/// if it names one. The result is a function of the extension.
#[verifier::external_body]
pub(crate) fn format_of_extension(extension: &str) -> (format: Option<ImageFormat>)
    ensures
        format == format_named(extension@),
{
    ImageFormat::from_extension(extension)
}

/// `ImageReader::decode` on bytes in memory, read as the given format with
/// the crate's default limits. The decoder's error is handed on as its
/// text. The answer is a function of the bytes and the format.
#[verifier::external_body]
pub(crate) fn decode_as(bytes: &[u8], format: ImageFormat) -> (out: Result<DynamicImage, String>)
    ensures
        match decoder_answer(bytes@, format) {
            Ok(img) => out == Ok::<DynamicImage, String>(img),
            Err(words) => out matches Err(w) && w@ == words,
        },
{
    image::ImageReader::with_format(std::io::Cursor::new(bytes), format).decode().map_err(
        |e| e.to_string(),
    )
}

/// `webp::Encoder::from_image` and `Encoder::encode_simple` in its lossy
/// mode, at the quality that `bytemuck::cast` makes of the bits: the number
/// with those bits. A failure of either is handed on as its text. The
/// answer is a function of the image and the quality. The binding takes the
/// sides and a row's byte count as signed 32-bit integers and hands the
/// quality to C code, so it is called only with sides that WebP allows and
/// with a quality that is a number from 0 to 100.
#[verifier::external_body]
pub(crate) fn encode_webp(img: &DynamicImage, quality: Score) -> (out: Result<Vec<u8>, String>)
    requires
        1 <= image_width(*img) <= crate::render::MAX_DIMENSION,
        1 <= image_height(*img) <= crate::render::MAX_DIMENSION,
        crate::render::is_quality(quality),
    ensures
        match webp_answer(*img, quality.bits) {
            Ok(bytes) => out matches Ok(v) && v@ == bytes,
            Err(words) => out matches Err(w) && w@ == words,
        },
{
    let encoder = webp::Encoder::from_image(img).map_err(|e| e.to_string())?;
    match encoder.encode_simple(false, bytemuck::cast(quality.bits)) {
        Ok(memory) => Ok(memory.to_vec()),
        Err(e) => Err(format!("{:?}", e)),
    }
}

} // verus!
