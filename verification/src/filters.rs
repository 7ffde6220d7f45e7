//! Preset filters, and the solarizations that three of them are.

use image::DynamicImage;
use vstd::prelude::*;

use crate::accessor::{is_image_of, map_pixels};
use crate::arith::invert_spec;
use crate::buffer::{image_shape, in_bounds, pixel_at};
use crate::channels::{
    channel_incremented, inc_blue_channel, inc_two_channels, two_channels_incremented,
};
use crate::monochrome::{monochroma, monochrome_blended};
use crate::pixel::{Channel, Pixel};
use crate::primitive::Primitive;
use crate::{tint, tinted};

verus! {

/// Blue inverted, unless it is 255: then the pixel stays as it is.
pub open spec fn blue_solarized(p: Pixel) -> Pixel {
    if 255 - p.b > 0 {
        Pixel { b: invert_spec(p.b), ..p }
    } else {
        p
    }
}

/// Red and green inverted, whatever their values.
pub open spec fn red_green_solarized(p: Pixel) -> Pixel {
    Pixel { r: invert_spec(p.r), g: invert_spec(p.g), ..p }
}

/// Red and blue inverted, unless blue is 255: then the pixel stays as it
/// is.
pub open spec fn red_blue_solarized(p: Pixel) -> Pixel {
    if 255 - p.b > 0 {
        Pixel { r: invert_spec(p.r), b: invert_spec(p.b), ..p }
    } else {
        p
    }
}

/// Inverts the blue channel of a pixel when `255 - b > 0`.
pub fn solarize_blue(p: Pixel) -> (q: Pixel)
    ensures
        q == blue_solarized(p),
{
    if p.b < 255 {
        Pixel { r: p.r, g: p.g, b: crate::arith::invert(p.b), a: p.a }
    } else {
        p
    }
}

/// Inverts the red and green channels of a pixel.
pub fn solarize_red_green(p: Pixel) -> (q: Pixel)
    ensures
        q == red_green_solarized(p),
{
    Pixel { r: crate::arith::invert(p.r), g: crate::arith::invert(p.g), b: p.b, a: p.a }
}

/// Inverts the red and blue channels of a pixel when `255 - b > 0`.
pub fn solarize_red_blue(p: Pixel) -> (q: Pixel)
    ensures
        q == red_blue_solarized(p),
{
    if p.b < 255 {
        Pixel { r: crate::arith::invert(p.r), g: p.g, b: crate::arith::invert(p.b), a: p.a }
    } else {
        p
    }
}

/// Adds an aquamarine-tinted hue to an image. Green rises by 9 and blue by 173.
pub fn oceanic(img: DynamicImage) -> (out: DynamicImage)
    ensures
        image_shape(out) == image_shape(img),
        is_image_of(
            out,
            img,
            |p: Pixel| two_channels_incremented(p, Channel::Green, 9, Channel::Blue, 173),
        ),
{
    inc_two_channels(img, Channel::Green, 9, Channel::Blue, 173)
}

/// Aquamarine tint. Green rises by 24 and blue by 95.
pub fn islands(img: DynamicImage) -> (out: DynamicImage)
    ensures
        image_shape(out) == image_shape(img),
        is_image_of(
            out,
            img,
            |p: Pixel| two_channels_incremented(p, Channel::Green, 24, Channel::Blue, 95),
        ),
{
    inc_two_channels(img, Channel::Green, 24, Channel::Blue, 95)
}

/// Adds a green/blue mixed hue to an image. Green rises by 14 and blue by 119.
pub fn marine(img: DynamicImage) -> (out: DynamicImage)
    ensures
        image_shape(out) == image_shape(img),
        is_image_of(
            out,
            img,
            |p: Pixel| two_channels_incremented(p, Channel::Green, 14, Channel::Blue, 119),
        ),
{
    inc_two_channels(img, Channel::Green, 14, Channel::Blue, 119)
}

/// Dark green hue, with tones of blue. Green rises by 68 and blue by 62.
pub fn seagreen(img: DynamicImage) -> (out: DynamicImage)
    ensures
        image_shape(out) == image_shape(img),
        is_image_of(
            out,
            img,
            |p: Pixel| two_channels_incremented(p, Channel::Green, 68, Channel::Blue, 62),
        ),
{
    inc_two_channels(img, Channel::Green, 68, Channel::Blue, 62)
}

/// Royal blue tint: blue rises by 131.
pub fn flagblue(img: DynamicImage) -> (out: DynamicImage)
    ensures
        image_shape(out) == image_shape(img),
        is_image_of(out, img, |p: Pixel| channel_incremented(p, Channel::Blue, 131)),
{
    inc_blue_channel(img, 131)
}

/// Blue/turquoise tint. Green rises by 82 and blue by 87.
pub fn diamante(img: DynamicImage) -> (out: DynamicImage)
    ensures
        image_shape(out) == image_shape(img),
        is_image_of(
            out,
            img,
            |p: Pixel| two_channels_incremented(p, Channel::Green, 82, Channel::Blue, 87),
        ),
{
    inc_two_channels(img, Channel::Green, 82, Channel::Blue, 87)
}

/// Blue-inspired tint. Green rises by 10 and blue by 75.
pub fn liquid(img: DynamicImage) -> (out: DynamicImage)
    ensures
        image_shape(out) == image_shape(img),
        is_image_of(
            out,
            img,
            |p: Pixel| two_channels_incremented(p, Channel::Green, 10, Channel::Blue, 75),
        ),
{
    inc_two_channels(img, Channel::Green, 10, Channel::Blue, 75)
}

/// Solarization on the blue channel.
pub fn neue(img: DynamicImage) -> (out: DynamicImage)
    ensures
        image_shape(out) == image_shape(img),
        is_image_of(out, img, |p: Pixel| blue_solarized(p)),
{
    map_pixels(img, &Primitive::SolarizeBlue)
}

/// Solarization on the red and green channels.
pub fn lix(img: DynamicImage) -> (out: DynamicImage)
    ensures
        image_shape(out) == image_shape(img),
        is_image_of(out, img, |p: Pixel| red_green_solarized(p)),
{
    map_pixels(img, &Primitive::SolarizeRedGreen)
}

/// Solarization on the red and blue channels.
pub fn ryo(img: DynamicImage) -> (out: DynamicImage)
    ensures
        image_shape(out) == image_shape(img),
        is_image_of(out, img, |p: Pixel| red_blue_solarized(p)),
{
    map_pixels(img, &Primitive::SolarizeRedBlue)
}

/// Radio effect: monochrome with a green cast. The offsets are 5, 40 and 20.
pub fn radio(img: DynamicImage) -> (out: DynamicImage)
    ensures
        image_shape(out) == image_shape(img),
        is_image_of(out, img, |p: Pixel| monochrome_blended(p, 5, 40, 20)),
{
    monochroma(img, 5, 40, 20)
}

/// Slightly blue-tinted historical effect. The offsets are 18, 12 and 20.
pub fn twenties(img: DynamicImage) -> (out: DynamicImage)
    ensures
        image_shape(out) == image_shape(img),
        is_image_of(out, img, |p: Pixel| monochrome_blended(p, 18, 12, 20)),
{
    monochroma(img, 18, 12, 20)
}

/// Rose-tinted monochrome. The offsets are 80, 20 and 31.
pub fn rosetint(img: DynamicImage) -> (out: DynamicImage)
    ensures
        image_shape(out) == image_shape(img),
        is_image_of(out, img, |p: Pixel| monochrome_blended(p, 80, 20, 31)),
{
    monochroma(img, 80, 20, 31)
}

/// Purple-infused monochrome. The offsets are 90, 40 and 80.
pub fn mauve(img: DynamicImage) -> (out: DynamicImage)
    ensures
        image_shape(out) == image_shape(img),
        is_image_of(out, img, |p: Pixel| monochrome_blended(p, 90, 40, 80)),
{
    monochroma(img, 90, 40, 80)
}

/// Blue monochrome effect. The offsets are 20, 30 and 60.
pub fn bluechrome(img: DynamicImage) -> (out: DynamicImage)
    ensures
        image_shape(out) == image_shape(img),
        is_image_of(out, img, |p: Pixel| monochrome_blended(p, 20, 30, 60)),
{
    monochroma(img, 20, 30, 60)
}

/// Vintage look with a red tint. The offsets are 120, 70 and 13.
pub fn vintage(img: DynamicImage) -> (out: DynamicImage)
    ensures
        image_shape(out) == image_shape(img),
        is_image_of(out, img, |p: Pixel| tinted(p, 120, 70, 13)),
{
    tint(img, 120, 70, 13)
}

/// Raises blue, with moderate increases in red and green. The offsets are 80, 40 and 120.
pub fn perfume(img: DynamicImage) -> (out: DynamicImage)
    ensures
        image_shape(out) == image_shape(img),
        is_image_of(out, img, |p: Pixel| tinted(p, 80, 40, 120)),
{
    tint(img, 80, 40, 120)
}

/// Raises blue, with a slight increase in red and green. The offsets are 10, 40 and 90.
pub fn serenity(img: DynamicImage) -> (out: DynamicImage)
    ensures
        image_shape(out) == image_shape(img),
        is_image_of(out, img, |p: Pixel| tinted(p, 10, 40, 90)),
{
    tint(img, 10, 40, 90)
}

/// Blue solarization leaves a pixel whose blue is 255 exactly as it is: the
/// channel is not inverted to 0.
pub proof fn lemma_blue_solarized_full_blue(p: Pixel)
    requires
        p.b == 255,
    ensures
        blue_solarized(p) == p,
        red_blue_solarized(p) == p,
{
}

/// Each solarization touches the channels it names and no other.
pub proof fn lemma_solarized_keeps_others(p: Pixel)
    ensures
        blue_solarized(p) == (Pixel { b: blue_solarized(p).b, ..p }),
        red_green_solarized(p) == (Pixel { r: invert_spec(p.r), g: invert_spec(p.g), ..p }),
        red_blue_solarized(p) == (Pixel {
            r: red_blue_solarized(p).r,
            b: red_blue_solarized(p).b,
            ..p
        }),
{
}

/// Red and green solarization undoes itself.
pub proof fn lemma_red_green_solarized_involution(p: Pixel)
    ensures
        red_green_solarized(red_green_solarized(p)) == p,
{
}

/// On an image that stores colour, blue solarization leaves the colour of
/// every pixel whose blue is 255 as it was: blue stays 255.
pub proof fn lemma_neue_keeps_full_blue(img: DynamicImage, out: DynamicImage, x: int, y: int)
    requires
        is_image_of(out, img, |p: Pixel| blue_solarized(p)),
        image_shape(img).layout.has_color(),
        in_bounds(img, x, y),
        pixel_at(img, x, y).b == 255,
    ensures
        pixel_at(out, x, y).b == 255,
        pixel_at(out, x, y).r == pixel_at(img, x, y).r,
        pixel_at(out, x, y).g == pixel_at(img, x, y).g,
{
}

} // verus!
