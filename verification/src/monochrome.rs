//! Monochrome blend: every pixel collapses to one intensity, which is then
//! spread over the three colour channels with an offset for each.

use image::DynamicImage;
use vstd::prelude::*;

use crate::accessor::{is_image_of, map_pixels};
use crate::arith::add_spec;
use crate::buffer::{image_shape, in_bounds, pixel_at, written};
use crate::pixel::Pixel;
use crate::primitive::Primitive;

verus! {

/// The mean of the three colour channels, rounded down.
pub open spec fn average(p: Pixel) -> u8 {
    ((p.r + p.g + p.b) / 3) as u8
}

/// A pixel whose colour channels are its average intensity plus the offset
/// of each channel, saturated. Alpha is carried over.
pub open spec fn monochrome_blended(p: Pixel, r_offset: i32, g_offset: i32, b_offset: i32) -> Pixel {
    Pixel {
        r: add_spec(average(p), r_offset as int),
        g: add_spec(average(p), g_offset as int),
        b: add_spec(average(p), b_offset as int),
        a: p.a,
    }
}

/// Computes `(r + g + b) / 3` with truncating division.
pub fn average_pixel(p: Pixel) -> (avg: u8)
    ensures
        avg == average(p),
        avg as int == (p.r + p.g + p.b) / 3,
{
    let sum: u16 = p.r as u16 + p.g as u16 + p.b as u16;
    (sum / 3) as u8
}

/// Replaces the colour channels of a pixel by its average intensity plus
/// the offset of each channel.
pub fn monochroma_pixel(p: Pixel, r_offset: i32, g_offset: i32, b_offset: i32) -> (q: Pixel)
    ensures
        q == monochrome_blended(p, r_offset, g_offset, b_offset),
{
    let avg: u8 = average_pixel(p);
    Pixel {
        r: crate::arith::add(avg, r_offset),
        g: crate::arith::add(avg, g_offset),
        b: crate::arith::add(avg, b_offset),
        a: p.a,
    }
}

/// Turns an image monochrome with a colour cast given by three offsets.
pub fn monochroma(
    img: DynamicImage,
    r_offset: i32,
    g_offset: i32,
    b_offset: i32,
) -> (out: DynamicImage)
    ensures
        image_shape(out) == image_shape(img),
        is_image_of(out, img, |p: Pixel| monochrome_blended(p, r_offset, g_offset, b_offset)),
{
    map_pixels(img, &Primitive::Monochrome { r_offset, g_offset, b_offset })
}

/// The average of a pixel whose colour channels all hold `k` is `k`.
pub proof fn lemma_average_of_gray(p: Pixel)
    requires
        p.is_gray(),
    ensures
        average(p) == p.r,
{
}

/// On a gray pixel the blend adds each offset to the common value.
pub proof fn lemma_monochrome_of_gray(p: Pixel, r_offset: i32, g_offset: i32, b_offset: i32)
    requires
        p.is_gray(),
    ensures
        monochrome_blended(p, r_offset, g_offset, b_offset) == (Pixel {
            r: add_spec(p.r, r_offset as int),
            g: add_spec(p.r, g_offset as int),
            b: add_spec(p.r, b_offset as int),
            a: p.a,
        }),
{
}

/// On a buffer whose pixels are all gray, the blend takes the common value
/// of each pixel as its average, exactly, and adds the offsets to it.
pub proof fn lemma_monochroma_of_gray_image(
    out: DynamicImage,
    img: DynamicImage,
    r_offset: i32,
    g_offset: i32,
    b_offset: i32,
    x: int,
    y: int,
)
    requires
        is_image_of(out, img, |p: Pixel| monochrome_blended(p, r_offset, g_offset, b_offset)),
        forall|i: int, j: int| in_bounds(img, i, j) ==> (#[trigger] pixel_at(img, i, j)).is_gray(),
        in_bounds(img, x, y),
    ensures
        pixel_at(out, x, y) == written(
            image_shape(img).layout,
            Pixel {
                r: add_spec(pixel_at(img, x, y).r, r_offset as int),
                g: add_spec(pixel_at(img, x, y).r, g_offset as int),
                b: add_spec(pixel_at(img, x, y).r, b_offset as int),
                a: pixel_at(img, x, y).a,
            },
        ),
{
    lemma_monochrome_of_gray(pixel_at(img, x, y), r_offset, g_offset, b_offset);
}

} // verus!
