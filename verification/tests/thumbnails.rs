//! The thumbnail transformer on real encoded images.

use api_service::thumb::{crop_origin, make_thumbnail, TransformError};

fn png_bytes(width: u32, height: u32) -> Vec<u8> {
    let img = image::DynamicImage::ImageRgb8(image::RgbImage::new(width, height));
    let mut buf: Vec<u8> = Vec::new();
    img.write_to(std::io::Cursor::new(&mut buf), image::ImageFormat::Png)
        .unwrap();
    buf
}

fn thumbnail_dims(bytes: &[u8]) -> (u32, u32) {
    let jpeg = make_thumbnail(bytes).unwrap();
    let img = image::load_from_memory(&jpeg).unwrap();
    (img.width(), img.height())
}

#[test]
fn thumbnail_downscales_tall_input_to_the_preview_size() {
    // crop box 150x150, downscaled to exactly 100x100
    assert_eq!(thumbnail_dims(&png_bytes(150, 200)), (100, 100));
}

#[test]
fn thumbnail_keeps_small_wide_input_at_its_box_size() {
    // crop box 40x40 already fits: kept as it is, never upscaled
    assert_eq!(thumbnail_dims(&png_bytes(300, 40)), (40, 40));
}

#[test]
fn thumbnail_downscales_square_input_to_the_preview_size() {
    assert_eq!(thumbnail_dims(&png_bytes(150, 150)), (100, 100));
}

#[test]
fn thumbnail_keeps_tiny_input_unscaled() {
    // crop box 3x3: the preview side is min(100, min(width, height))
    assert_eq!(thumbnail_dims(&png_bytes(3, 5)), (3, 3));
}

#[test]
fn crop_origin_centers_along_longer_axis() {
    // taller than wide: offset on the second axis only
    assert_eq!(crop_origin(150, 200), (0, 25));
    // wider than tall: offset on the first axis only
    assert_eq!(crop_origin(200, 150), (25, 0));
    // odd difference floors
    assert_eq!(crop_origin(10, 15), (0, 2));
    // square: no offset at all
    assert_eq!(crop_origin(100, 100), (0, 0));
}

#[test]
fn undecodable_bytes_fail_with_decode() {
    let r = make_thumbnail(&b"this is no image at all"[..]);
    assert_eq!(r.unwrap_err(), TransformError::Decode);
}
