use image::{DynamicImage, ImageFormat, Rgb, RgbImage};
use media_thumb::decode::{decode_raster, decoded, layered_preview, strategy, strategy_for_lowercase, Strategy};
use media_thumb::error::ApiError;
use std::io::Cursor;

fn sample(format: ImageFormat) -> Vec<u8> {
    let img = DynamicImage::ImageRgb8(RgbImage::from_fn(5, 3, |x, y| Rgb([x as u8 * 40, y as u8 * 80, 7])));
    let mut bytes = Vec::new();
    img.write_to(&mut Cursor::new(&mut bytes), format).unwrap();
    bytes
}

#[test]
fn videos_get_the_keyframe_selector() {
    assert_eq!(strategy("mp4"), Strategy::VideoKeyframe);
    assert_eq!(strategy("webm"), Strategy::VideoKeyframe);
    assert_eq!(strategy("mov"), Strategy::VideoKeyframe);
}

#[test]
fn layered_images_get_their_preview() {
    assert_eq!(strategy("psd"), Strategy::LayeredPreview);
}

#[test]
fn everything_else_gets_a_raster_codec() {
    assert_eq!(strategy("jpg"), Strategy::Raster);
    assert_eq!(strategy("png"), Strategy::Raster);
    assert_eq!(strategy(""), Strategy::Raster);
    assert_eq!(strategy("mp3"), Strategy::Raster);
    assert_eq!(strategy("mp44"), Strategy::Raster);
    assert_eq!(strategy("psdx"), Strategy::Raster);
    assert_eq!(strategy("avi"), Strategy::Raster);
}

#[test]
fn the_case_of_the_extension_does_not_matter() {
    assert_eq!(strategy("MP4"), Strategy::VideoKeyframe);
    assert_eq!(strategy("WebM"), Strategy::VideoKeyframe);
    assert_eq!(strategy("MOV"), Strategy::VideoKeyframe);
    assert_eq!(strategy("PSD"), Strategy::LayeredPreview);
    assert_eq!(strategy("Psd"), Strategy::LayeredPreview);
}

#[test]
fn a_lower_case_extension_is_taken_as_it_is() {
    assert_eq!(strategy_for_lowercase("mp4"), Strategy::VideoKeyframe);
    assert_eq!(strategy_for_lowercase("psd"), Strategy::LayeredPreview);
    assert_eq!(strategy_for_lowercase("MP4"), Strategy::Raster);
    assert_eq!(strategy_for_lowercase("PSD"), Strategy::Raster);
    assert_eq!(strategy_for_lowercase("gif"), Strategy::Raster);
}

#[test]
fn png_bytes_are_decoded_by_their_extension() {
    let img = decode_raster(&sample(ImageFormat::Png), "png").unwrap();
    assert_eq!((img.width(), img.height()), (5, 3));
    assert_eq!(img.to_rgb8().get_pixel(2, 1).0, [80, 80, 7]);
    let upper = decode_raster(&sample(ImageFormat::Png), "PNG").unwrap();
    assert_eq!((upper.width(), upper.height()), (5, 3));
}

#[test]
fn the_extension_decides_the_codec() {
    let png = sample(ImageFormat::Png);
    assert!(matches!(decode_raster(&png, "jpg"), Err(ApiError::DecodeError(_))));
    assert!(matches!(decode_raster(&png, "gif"), Err(ApiError::DecodeError(_))));
}

#[test]
fn an_unknown_extension_is_a_decode_error() {
    let png = sample(ImageFormat::Png);
    let unsupported = Err(ApiError::DecodeError("the image format is not supported".to_string()));
    assert_eq!(decode_raster(&png, ""), unsupported);
    assert_eq!(decode_raster(&png, "txt"), unsupported);
    assert_eq!(decode_raster(&png, "png "), unsupported);
    assert!(matches!(decode_raster(&png, "avif"), Err(ApiError::DecodeError(_))));
}

#[test]
fn the_same_bytes_decode_to_the_same_image() {
    for format in [ImageFormat::Png, ImageFormat::Jpeg, ImageFormat::Bmp, ImageFormat::WebP] {
        let bytes = sample(format);
        let extension = format.extensions_str()[0];
        let first = decode_raster(&bytes, extension).unwrap();
        let second = decode_raster(&bytes, extension).unwrap();
        assert_eq!(first, second);
        assert_eq!((first.width(), first.height()), (5, 3));
    }
    let broken = decode_raster(b"not an image", "png");
    assert_eq!(broken, decode_raster(b"not an image", "png"));
}

#[test]
fn broken_bytes_are_a_decode_error() {
    let mut png = sample(ImageFormat::Png);
    png.truncate(20);
    assert!(matches!(decode_raster(&png, "png"), Err(ApiError::DecodeError(_))));
    assert!(matches!(decode_raster(&[], "png"), Err(ApiError::DecodeError(_))));
    assert!(matches!(decode_raster(b"not an image", "bmp"), Err(ApiError::DecodeError(_))));
}

#[test]
fn the_words_of_the_codec_are_kept() {
    assert_eq!(
        decoded(Err("broken".to_string())),
        Err(ApiError::DecodeError("broken".to_string()))
    );
    let img = DynamicImage::new_rgb8(2, 1);
    assert_eq!(decoded(Ok(img.clone())), Ok(img));
}

#[test]
fn preview_becomes_an_rgba_image() {
    let rgba = vec![1, 2, 3, 4, 5, 6, 7, 8, 9, 10, 11, 12];
    let img = layered_preview(3, 1, rgba.clone()).unwrap();
    assert_eq!((img.width(), img.height()), (3, 1));
    assert_eq!(img.color(), image::ColorType::Rgba8);
    assert_eq!(img.as_bytes(), &rgba[..]);
}

#[test]
fn preview_that_does_not_match_its_size_is_a_decode_error() {
    let mismatch =
        Err(ApiError::DecodeError("the preview does not match its dimensions".to_string()));
    assert_eq!(layered_preview(3, 1, vec![0; 11]), mismatch);
    assert_eq!(layered_preview(3, 1, vec![0; 13]), mismatch);
    assert_eq!(layered_preview(1, 1, vec![]), mismatch);
    assert_eq!(layered_preview(u32::MAX, u32::MAX, vec![0; 4]), mismatch);
}

#[test]
fn empty_preview_is_an_empty_image() {
    let img = layered_preview(0, 7, vec![]).unwrap();
    assert_eq!((img.width(), img.height()), (0, 7));
}
