//! Visual filters for raster images, built from a handful of per-pixel
//! channel transformations that saturate into the 8-bit range.

use image::DynamicImage;
use vstd::prelude::*;

use crate::accessor::{is_image_of, map_pixels};
use crate::arith::add_spec;
use crate::buffer::image_shape;
use crate::pixel::Pixel;
use crate::primitive::Primitive;

pub mod accessor;
pub mod arith;
pub mod buffer;
pub mod channels;
pub mod filters;
pub mod monochrome;
pub mod pixel;
pub mod primitive;

verus! {

/// A pixel with an offset added, saturating, to each colour channel. Alpha
/// is carried over.
pub open spec fn tinted(p: Pixel, r_offset: i32, g_offset: i32, b_offset: i32) -> Pixel {
    Pixel {
        r: add_spec(p.r, r_offset as int),
        g: add_spec(p.g, g_offset as int),
        b: add_spec(p.b, b_offset as int),
        a: p.a,
    }
}

/// Adds an offset to each colour channel of a pixel, saturating into
/// `0..=255`.
pub fn tint_pixel(p: Pixel, r_offset: i32, g_offset: i32, b_offset: i32) -> (q: Pixel)
    ensures
        q == tinted(p, r_offset, g_offset, b_offset),
{
    Pixel {
        r: crate::arith::add(p.r, r_offset),
        g: crate::arith::add(p.g, g_offset),
        b: crate::arith::add(p.b, b_offset),
        a: p.a,
    }
}

/// Tints an image: all three colour channels of every pixel are shifted at
/// once, each by its own offset.
pub fn tint(img: DynamicImage, r_offset: i32, g_offset: i32, b_offset: i32) -> (out: DynamicImage)
    ensures
        image_shape(out) == image_shape(img),
        is_image_of(out, img, |p: Pixel| tinted(p, r_offset, g_offset, b_offset)),
{
    map_pixels(img, &Primitive::Tint { r_offset, g_offset, b_offset })
}

} // verus!
