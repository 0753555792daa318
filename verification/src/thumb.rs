//! The thumbnail transformer: decode raw bytes, center-crop to a square
//! along the longer axis, downscale — never upscale — to the fixed preview
//! size, and re-encode as JPEG. The geometric part is proved; the codec
//! work of the `image` crate stands behind trusted items over an abstract
//! pixel grid.

use vstd::prelude::*;
use image::GenericImageView;

verus! {

/// A decoded raster image of the `image` crate, opaque to the verifier; its
/// observable content is `image_grid`.
#[verifier::external_type_specification]
#[verifier::external_body]
pub struct ExDynamicImage(image::DynamicImage);

/// The `image` crate's error type, mapped to `TransformError` by the
/// verified code.
#[verifier::external_type_specification]
#[verifier::external_body]
pub struct ExImageError(image::ImageError);

/// What a decoded image holds: its pixels as rows top to bottom, each row
/// left to right, each pixel by its RGBA rendering.
pub uninterp spec fn image_grid(img: image::DynamicImage) -> Seq<Seq<u32>>;

/// What decoding a byte sequence yields: `None` when the bytes are not a
/// decodable raster image, otherwise the decoded pixel grid. The decode
/// depends on the bytes alone.
pub uninterp spec fn decoded_grid_of(bytes: Seq<u8>) -> Option<Seq<Seq<u32>>>;

/// The JPEG stream that encoding an image yields: a function of the image
/// value alone.
pub uninterp spec fn jpeg_encoding_of(img: image::DynamicImage) -> Seq<u8>;

/// A grid is rectangular: every row is as long as the first.
pub open spec fn grid_rect(g: Seq<Seq<u32>>) -> bool {
    forall|i: int| 0 <= i < g.len() ==> (#[trigger] g[i]).len() == grid_width(g)
}

/// Number of pixel columns.
pub open spec fn grid_width(g: Seq<Seq<u32>>) -> nat {
    if g.len() == 0 {
        0
    } else {
        g[0].len()
    }
}

/// Number of pixel rows.
pub open spec fn grid_height(g: Seq<Seq<u32>>) -> nat {
    g.len()
}

/// The `w` x `h` cut-out of `g` whose top-left corner stands at `(x, y)`.
pub open spec fn sub_grid(g: Seq<Seq<u32>>, x: int, y: int, w: int, h: int) -> Seq<Seq<u32>> {
    Seq::new(h as nat, |r: int| g[y + r].subrange(x, x + w))
}

/// The side of the square crop box: the shorter of the two dimensions.
pub open spec fn box_side(g: Seq<Seq<u32>>) -> nat {
    if grid_width(g) <= grid_height(g) {
        grid_width(g)
    } else {
        grid_height(g)
    }
}

/// Where the crop box's top-left corner stands: centered along the longer
/// axis, with floor division; no offset at all for a square grid.
pub open spec fn crop_box_origin(g: Seq<Seq<u32>>) -> (int, int) {
    if grid_width(g) > grid_height(g) {
        (((grid_width(g) - box_side(g)) as int) / 2, 0int)
    } else {
        (0int, ((grid_height(g) - box_side(g)) as int) / 2)
    }
}

/// The centered `box_side` x `box_side` square cut out of `g`.
pub open spec fn center_square(g: Seq<Seq<u32>>) -> Seq<Seq<u32>> {
    sub_grid(g, crop_box_origin(g).0, crop_box_origin(g).1, box_side(g) as int, box_side(g) as int)
}

/// The finished preview's side: the crop box's side, downscaled to 100 when
/// it is larger — never upscaled when it is smaller.
pub open spec fn preview_side(g: Seq<Seq<u32>>) -> nat {
    if box_side(g) <= 100 {
        box_side(g)
    } else {
        100
    }
}

/// A non-empty square grid with a side of at most `bound`: the shape every
/// finished thumbnail has.
pub open spec fn grid_square_within(g: Seq<Seq<u32>>, bound: nat) -> bool {
    &&& grid_rect(g)
    &&& grid_width(g) == grid_height(g)
    &&& 1 <= grid_height(g) <= bound
}

/// Why a thumbnail could not be derived: the bytes did not decode to a
/// usable image — media-type validation checks the declared type, not the
/// content, so this is the second line of defense — or the preview could
/// not be encoded.
#[derive(Clone, Copy, Debug, PartialEq, Eq, Structural)]
pub enum TransformError {
    Decode,
    Encode,
}

/// Relies on `image::load_from_memory`: decodes the bytes as a raster image
/// of a guessed format; whether the bytes decode, and to which rectangular
/// pixel grid, is a function of the bytes alone.
#[verifier::external_body]
fn load_image(bytes: &[u8]) -> (r: Result<image::DynamicImage, image::ImageError>)
    ensures
        r is Ok == decoded_grid_of(bytes@) is Some,
        r matches Ok(img) ==> (decoded_grid_of(bytes@) == Some(image_grid(img)) && grid_rect(
            image_grid(img),
        )),
{
    image::load_from_memory(bytes)
}

/// Relies on `GenericImageView::dimensions` for `DynamicImage`: the width
/// and the height of the pixel grid, in that order.
#[verifier::external_body]
fn image_dimensions(img: &image::DynamicImage) -> (r: (u32, u32))
    ensures
        r.0 == grid_width(image_grid(*img)),
        r.1 == grid_height(image_grid(*img)),
{
    img.dimensions()
}

/// Relies on `DynamicImage::crop_imm`: with the rectangle in bounds, the
/// result is exactly the `width` x `height` cut-out whose top-left corner
/// stands at `(x, y)`.
#[verifier::external_body]
fn crop_image(img: &image::DynamicImage, x: u32, y: u32, width: u32, height: u32) -> (r:
    image::DynamicImage)
    requires
        grid_rect(image_grid(*img)),
        x + width <= grid_width(image_grid(*img)),
        y + height <= grid_height(image_grid(*img)),
    ensures
        image_grid(r) == sub_grid(
            image_grid(*img),
            x as int,
            y as int,
            width as int,
            height as int,
        ),
{
    img.crop_imm(x, y, width, height)
}

/// Relies on `DynamicImage::thumbnail`: scaling that keeps the aspect ratio
/// within the given bounds. For a square image and one positive bound the
/// scaled side is computed by the identical rounding expression on both
/// axes and lands exactly on the bound, far inside the rounding margin for
/// every representable size.
#[verifier::external_body]
fn thumbnail_image(img: &image::DynamicImage, bound: u32) -> (r: image::DynamicImage)
    requires
        grid_rect(image_grid(*img)),
        grid_width(image_grid(*img)) == grid_height(image_grid(*img)),
        1 <= grid_height(image_grid(*img)),
        1 <= bound,
    ensures
        grid_rect(image_grid(r)),
        grid_width(image_grid(r)) == bound,
        grid_height(image_grid(r)) == bound,
{
    img.thumbnail(bound, bound)
}

/// Relies on `DynamicImage::write_to` with `ImageFormat::Jpeg`: encodes the
/// image as a JPEG stream into an in-memory buffer, converting the color
/// type where the encoder needs it; encoding fails only for a width or
/// height outside 1 to 65535.
#[verifier::external_body]
fn encode_jpeg(img: &image::DynamicImage) -> (r: Result<Vec<u8>, image::ImageError>)
    ensures
        r matches Ok(b) ==> b@ == jpeg_encoding_of(*img),
        1 <= grid_width(image_grid(*img)) <= 65535 && 1 <= grid_height(image_grid(*img)) <= 65535
            ==> r is Ok,
{
    let mut buf: Vec<u8> = Vec::new();
    match img.write_to(std::io::Cursor::new(&mut buf), image::ImageFormat::Jpeg) {
        Ok(()) => Ok(buf),
        Err(e) => Err(e),
    }
}

/// The top-left corner of the square crop box for a `width` x `height`
/// image: the box of side `min(width, height)` is centered along the longer
/// axis, so the offset is always applied to the longer dimension, with floor
/// division; a square image is not offset at all.
pub fn crop_origin(width: u32, height: u32) -> (r: (u32, u32))
    ensures
        width > height ==> r == (((width - height) / 2) as u32, 0u32),
        height > width ==> r == (0u32, ((height - width) / 2) as u32),
        width == height ==> r == (0u32, 0u32),
{
    if width > height {
        ((width - height) / 2, 0)
    } else if height > width {
        (0, (height - width) / 2)
    } else {
        (0, 0)
    }
}

/// Decodes `bytes` and derives the square preview image: crop the centered
/// `min(width, height)` square, then scale it down to the fixed preview
/// size when it is larger — a square that already fits is kept as it is.
/// Succeeds exactly on bytes that decode to an image with at least one
/// pixel; everything else is a decode failure.
pub fn make_thumbnail_image(bytes: &[u8]) -> (r: Result<image::DynamicImage, TransformError>)
    ensures
        r is Ok == (decoded_grid_of(bytes@) matches Some(g) && box_side(g) >= 1),
        r matches Err(e) ==> e == TransformError::Decode,
        r matches Ok(img) ==> (decoded_grid_of(bytes@) matches Some(g) && grid_rect(
            image_grid(img),
        ) && grid_width(image_grid(img)) == preview_side(g) && grid_height(image_grid(img))
            == preview_side(g) && (box_side(g) <= 100 ==> image_grid(img) == center_square(g))),
        r matches Ok(img) ==> grid_square_within(image_grid(img), 100),
{
    let img = match load_image(bytes) {
        Ok(i) => i,
        Err(_) => {
            return Err(TransformError::Decode);
        },
    };
    let ghost g = image_grid(img);
    let dims = image_dimensions(&img);
    let width = dims.0;
    let height = dims.1;
    if width == 0 || height == 0 {
        // a grid without pixels is no usable raster image
        assert(box_side(g) == 0);
        return Err(TransformError::Decode);
    }
    let box_size: u32 = if height <= width {
        height
    } else {
        width
    };
    assert(box_size == box_side(g));
    let origin = crop_origin(width, height);
    assert(origin.0 == crop_box_origin(g).0 && origin.1 == crop_box_origin(g).1);
    assert(origin.0 + box_size <= width);
    assert(origin.1 + box_size <= height);
    let cropped = crop_image(&img, origin.0, origin.1, box_size, box_size);
    proof {
        assert(image_grid(cropped) == center_square(g));
        let c = image_grid(cropped);
        assert forall|i: int| 0 <= i < c.len() implies (#[trigger] c[i]).len() == grid_width(c) by {
            assert(c[0].len() == box_size);
            assert(c[i].len() == box_size);
        }
        assert(grid_width(c) == box_size && grid_height(c) == box_size);
    }
    if box_size <= 100 {
        // already within the preview size: keep it, never upscale
        Ok(cropped)
    } else {
        let thumb = thumbnail_image(&cropped, 100);
        Ok(thumb)
    }
}

/// Derives the preview's JPEG bytes from raw image bytes. Succeeds exactly
/// on bytes that decode to an image with at least one pixel; the bytes
/// returned are the JPEG encoding of that input's own preview: square, at
/// most 100 x 100, and — when no downscaling was needed — exactly the
/// centered square cut from the decoded grid.
pub fn make_thumbnail(bytes: &[u8]) -> (r: Result<Vec<u8>, TransformError>)
    ensures
        r is Ok == (decoded_grid_of(bytes@) matches Some(g) && box_side(g) >= 1),
        r matches Err(e) ==> e == TransformError::Decode,
        r matches Ok(b) ==> (decoded_grid_of(bytes@) matches Some(g) && exists|
            img: image::DynamicImage,
        |
            b@ == jpeg_encoding_of(img) && grid_square_within(#[trigger] image_grid(img), 100)
                && grid_width(image_grid(img)) == preview_side(g) && (box_side(g) <= 100
                ==> image_grid(img) == center_square(g))),
{
    let thumb = match make_thumbnail_image(bytes) {
        Ok(t) => t,
        Err(e) => {
            return Err(e);
        },
    };
    match encode_jpeg(&thumb) {
        Ok(b) => {
            proof {
                assert(grid_square_within(image_grid(thumb), 100) && b@ == jpeg_encoding_of(
                    thumb,
                ));
            }
            Ok(b)
        },
        Err(_) => {
            // the preview is square with a side of 1 to 100, for which the
            // encoder is promised to succeed
            assert(false);
            Err(TransformError::Encode)
        },
    }
}

} // verus!
