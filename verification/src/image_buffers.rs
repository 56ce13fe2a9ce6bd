//! Trusted bindings to the in-memory pixel buffer of the `image` crate.
//!
//! The buffer type is generic over a pixel trait the verifier cannot take
//! as a bound, so a decoded image is held here in an opaque wrapper built
//! from plain values: the driver decodes a file to tightly packed RGB
//! bytes and the wrapper rebuilds the crate's buffer from them. The
//! buffer's dimensions and pixel grid are named below, and each method the
//! logic calls carries a contract over those names stating what the
//! crate's source shows.

use vstd::prelude::*;

verus! {

/// A decoded RGB image, held opaquely as an `image::RgbImage`.
#[verifier::external_body]
pub struct DecodedImage {
    img: image::RgbImage,
}

/// The width and height a decoded image holds.
pub uninterp spec fn rgb_image_dims(img: DecodedImage) -> (u32, u32);

/// The pixel grid of a decoded image: every in-bounds coordinate maps to
/// the red, green and blue channel bytes of its pixel.
pub uninterp spec fn rgb_image_pixels(img: DecodedImage) -> Map<(u32, u32), (u8, u8, u8)>;

/// Relies on `image::ImageBuffer::from_raw`: `Some` exactly when three
/// bytes per pixel fit in the machine and the buffer holds at least that
/// many; the bytes are taken as tightly packed row-major RGB rows, which
/// is also how `get_pixel` indexes them.
#[verifier::external_body]
pub fn decoded_from_raw(width: u32, height: u32, buf: Vec<u8>) -> (r: Option<DecodedImage>)
    ensures
        (r is Some) == (3 * width * height <= buf@.len() && 3 * width * height <= usize::MAX),
        r is Some ==> rgb_image_dims(r.unwrap()) == (width, height),
        r is Some ==> (forall|x: u32, y: u32|
            x < width && y < height ==> #[trigger] rgb_image_pixels(r.unwrap())[(x, y)] == (
            buf@[3 * (y * width + x)],
            buf@[3 * (y * width + x) + 1],
            buf@[3 * (y * width + x) + 2],
            )),
{
    match image::RgbImage::from_raw(width, height, buf) {
        Some(img) => Some(DecodedImage { img }),
        None => None,
    }
}

/// Relies on `image::ImageBuffer::get_pixel`, which panics outside the
/// image bounds; in bounds it yields the pixel at column `x` of row `y`.
#[verifier::external_body]
pub fn rgb_pixel_at(img: &DecodedImage, x: u32, y: u32) -> (r: (u8, u8, u8))
    requires
        x < rgb_image_dims(*img).0,
        y < rgb_image_dims(*img).1,
    ensures
        r == rgb_image_pixels(*img)[(x, y)],
{
    let p = img.img.get_pixel(x, y);
    (p.0[0], p.0[1], p.0[2])
}

} // verus!
