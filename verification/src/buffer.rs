//! The image buffer: `image::DynamicImage`, as this library sees it.
//!
//! The contracts of the three `external_body` functions in this file are
//! believed, not proved. The file declares the outside type, names what an
//! image holds, and states what the three calls that the library makes into
//! `image` do to it. Everything else in the crate is verified against these
//! statements.

use image::{DynamicImage, GenericImage, GenericImageView};
use vstd::prelude::*;

use crate::pixel::Pixel;

verus! {

/// `image::DynamicImage`, opaque to the verifier.
#[verifier::external_type_specification]
#[verifier::external_body]
pub struct ExDynamicImage(image::DynamicImage);

/// How an image stores each pixel: one case per variant of `DynamicImage`.
#[derive(Clone, Copy, Debug, PartialEq, Eq, Structural)]
pub enum Layout {
    Luma8,
    LumaA8,
    Rgb8,
    Rgba8,
    Bgr8,
    Bgra8,
}

impl Layout {
    /// Whether the layout stores red, green and blue separately, so that a
    /// written colour reads back unchanged.
    pub open spec fn has_color(self) -> bool {
        self != Layout::Luma8 && self != Layout::LumaA8
    }

    /// Whether the layout stores an alpha channel.
    pub open spec fn has_alpha(self) -> bool {
        self == Layout::Rgba8 || self == Layout::Bgra8 || self == Layout::LumaA8
    }
}

/// What stays fixed for the lifetime of an image buffer.
pub struct Shape {
    pub width: u32,
    pub height: u32,
    pub layout: Layout,
}

/// Names the width and height that `GenericImageView::dimensions` reports
/// for an image, and which variant of `DynamicImage` the image is.
pub uninterp spec fn image_shape(img: DynamicImage) -> Shape;

/// Names what an image holds: for each coordinate `(x, y)` inside it, the
/// RGBA value that `GenericImageView::get_pixel` returns there. Nothing is
/// said of coordinates with `x >= width` or `y >= height`.
pub uninterp spec fn image_pixels(img: DynamicImage) -> Map<(int, int), Pixel>;

/// Names the luminance that `image::Pixel::to_luma` computes for an RGBA
/// pixel with these colour channels, which is what `put_pixel` stores in a
/// grayscale buffer; `to_luma_alpha` computes the same number. It is a
/// weighted sum of the three channels, truncated to 8 bits.
pub uninterp spec fn luma_of(r: u8, g: u8, b: u8) -> u8;

/// The pixel at `(x, y)`.
pub open spec fn pixel_at(img: DynamicImage, x: int, y: int) -> Pixel {
    image_pixels(img)[(x, y)]
}

/// Whether `(x, y)` lies inside the image.
pub open spec fn in_bounds(img: DynamicImage, x: int, y: int) -> bool {
    0 <= x < image_shape(img).width && 0 <= y < image_shape(img).height
}

/// What reading a pixel gives back after `p` was written to a buffer of the
/// given layout, where `luma` is the luminance of `p`. Layouts with colour
/// and alpha keep `p` as it is; layouts without alpha read back as opaque;
/// grayscale layouts keep only the luminance.
pub open spec fn stored_pixel(layout: Layout, p: Pixel, luma: u8) -> Pixel {
    match layout {
        Layout::Rgba8 | Layout::Bgra8 => p,
        Layout::Rgb8 | Layout::Bgr8 => Pixel { a: 255, ..p },
        Layout::LumaA8 => Pixel { r: luma, g: luma, b: luma, a: p.a },
        Layout::Luma8 => Pixel { r: luma, g: luma, b: luma, a: 255 },
    }
}

/// What reading a pixel gives back after `p` was written to a buffer of the
/// given layout, with the luminance that `image` computes for `p`.
pub open spec fn written(layout: Layout, p: Pixel) -> Pixel {
    stored_pixel(layout, p, luma_of(p.r, p.g, p.b))
}

/// Calls `GenericImageView::dimensions` on a `DynamicImage`, which returns
/// the width and the height of the underlying buffer, in this order.
#[verifier::external_body]
pub(crate) fn image_dimensions(img: &DynamicImage) -> (size: (u32, u32))
    ensures
        size.0 == image_shape(*img).width,
        size.1 == image_shape(*img).height,
{
    img.dimensions()
}

/// Calls `GenericImageView::get_pixel` on a `DynamicImage`, which converts
/// the stored pixel at `(x, y)` to RGBA, and hands its four channels over
/// as a `Pixel`. It panics outside the image, hence the `requires`.
#[verifier::external_body]
pub(crate) fn image_get_pixel(img: &DynamicImage, x: u32, y: u32) -> (p: Pixel)
    requires
        in_bounds(*img, x as int, y as int),
    ensures
        p == pixel_at(*img, x as int, y as int),
{
    let px = img.get_pixel(x, y);
    Pixel { r: px.data[0], g: px.data[1], b: px.data[2], a: px.data[3] }
}

/// Calls `GenericImage::put_pixel` on a `DynamicImage`, which converts the
/// RGBA pixel to the buffer's own pixel type and overwrites the one slot at
/// `(x, y)`. Width, height and layout stay; every other pixel stays; the
/// written slot reads back as `stored_pixel` says, given the luminance that
/// `image` computes for `p`. It panics outside the image, hence the
/// `requires`.
#[verifier::external_body]
pub(crate) fn image_put_pixel(img: &mut DynamicImage, x: u32, y: u32, p: Pixel)
    requires
        in_bounds(*old(img), x as int, y as int),
    ensures
        image_shape(*final(img)) == image_shape(*old(img)),
        image_pixels(*final(img)) == image_pixels(*old(img)).insert(
            (x as int, y as int),
            stored_pixel(image_shape(*old(img)).layout, p, luma_of(p.r, p.g, p.b)),
        ),
{
    img.put_pixel(x, y, image::Rgba { data: [p.r, p.g, p.b, p.a] });
}

} // verus!
