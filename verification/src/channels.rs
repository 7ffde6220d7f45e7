//! Channel increments: a constant offset added to one or two selected
//! channels of every pixel.

use image::DynamicImage;
use vstd::prelude::*;

use crate::accessor::{is_image_of, map_pixels};
use crate::arith::add_spec;
use crate::buffer::{image_shape, in_bounds, pixel_at};
use crate::pixel::{Channel, Pixel};
use crate::primitive::Primitive;

verus! {

/// A pixel with `offset` added, saturating, to one channel.
pub open spec fn channel_incremented(p: Pixel, channel: Channel, offset: i32) -> Pixel {
    p.with_channel(channel, add_spec(p.channel(channel), offset as int))
}

/// A pixel with two increments applied one after the other. With two
/// different channels each selected channel is the value it had plus its
/// own offset; with the same channel named twice the second offset is added
/// to the saturated result of the first.
pub open spec fn two_channels_incremented(
    p: Pixel,
    first: Channel,
    first_offset: i32,
    second: Channel,
    second_offset: i32,
) -> Pixel {
    channel_incremented(channel_incremented(p, first, first_offset), second, second_offset)
}

/// Adds `offset` to one channel of a pixel, saturating into `0..=255`.
pub fn inc_channel_pixel(p: Pixel, channel: Channel, offset: i32) -> (q: Pixel)
    ensures
        q == channel_incremented(p, channel, offset),
{
    let value: u8 = crate::arith::add(p.get(channel), offset);
    p.set(channel, value)
}

/// Adds an offset to each of two channels of a pixel, first then second.
pub fn inc_two_channels_pixel(
    p: Pixel,
    first: Channel,
    first_offset: i32,
    second: Channel,
    second_offset: i32,
) -> (q: Pixel)
    ensures
        q == two_channels_incremented(p, first, first_offset, second, second_offset),
{
    inc_channel_pixel(inc_channel_pixel(p, first, first_offset), second, second_offset)
}

/// Adds `offset` to one channel of every pixel.
pub fn inc_channel(img: DynamicImage, channel: Channel, offset: i32) -> (out: DynamicImage)
    ensures
        image_shape(out) == image_shape(img),
        is_image_of(out, img, |p: Pixel| channel_incremented(p, channel, offset)),
{
    map_pixels(img, &Primitive::IncChannel { channel, offset })
}

/// Adds `offset` to the blue channel of every pixel.
pub fn inc_blue_channel(img: DynamicImage, offset: i32) -> (out: DynamicImage)
    ensures
        image_shape(out) == image_shape(img),
        is_image_of(out, img, |p: Pixel| channel_incremented(p, Channel::Blue, offset)),
{
    inc_channel(img, Channel::Blue, offset)
}

/// Adds an offset of its own to each of two channels of every pixel.
pub fn inc_two_channels(
    img: DynamicImage,
    first: Channel,
    first_offset: i32,
    second: Channel,
    second_offset: i32,
) -> (out: DynamicImage)
    ensures
        image_shape(out) == image_shape(img),
        is_image_of(
            out,
            img,
            |p: Pixel| two_channels_incremented(p, first, first_offset, second, second_offset),
        ),
{
    map_pixels(img, &Primitive::IncTwoChannels { first, first_offset, second, second_offset })
}

/// An increment touches the selected channel only: every other colour
/// channel and alpha are carried over.
pub proof fn lemma_inc_channel_keeps_others(p: Pixel, channel: Channel, offset: i32, other: Channel)
    requires
        other != channel,
    ensures
        channel_incremented(p, channel, offset).channel(channel) == add_spec(
            p.channel(channel),
            offset as int,
        ),
        channel_incremented(p, channel, offset).channel(other) == p.channel(other),
        channel_incremented(p, channel, offset).a == p.a,
{
}

/// With two different channels selected, each is the value it had plus its
/// own offset, saturated.
pub proof fn lemma_inc_two_channels_selected(
    p: Pixel,
    first: Channel,
    first_offset: i32,
    second: Channel,
    second_offset: i32,
)
    requires
        first != second,
    ensures
        two_channels_incremented(p, first, first_offset, second, second_offset).channel(first)
            == add_spec(p.channel(first), first_offset as int),
        two_channels_incremented(p, first, first_offset, second, second_offset).channel(second)
            == add_spec(p.channel(second), second_offset as int),
{
}

/// A dual-channel increment leaves every channel that was not selected,
/// and alpha, exactly as it was.
pub proof fn lemma_inc_two_channels_keeps_others(
    p: Pixel,
    first: Channel,
    first_offset: i32,
    second: Channel,
    second_offset: i32,
    other: Channel,
)
    requires
        other != first,
        other != second,
    ensures
        two_channels_incremented(p, first, first_offset, second, second_offset).channel(other)
            == p.channel(other),
        two_channels_incremented(p, first, first_offset, second, second_offset).a == p.a,
{
}

/// On an image that stores colour, a dual-channel increment leaves the
/// channels that were not selected byte for byte as they were, at every
/// coordinate.
pub proof fn lemma_inc_two_channels_image_keeps_others(
    img: DynamicImage,
    out: DynamicImage,
    first: Channel,
    first_offset: i32,
    second: Channel,
    second_offset: i32,
    other: Channel,
    x: int,
    y: int,
)
    requires
        is_image_of(
            out,
            img,
            |p: Pixel| two_channels_incremented(p, first, first_offset, second, second_offset),
        ),
        image_shape(img).layout.has_color(),
        in_bounds(img, x, y),
        other != first,
        other != second,
    ensures
        pixel_at(out, x, y).channel(other) == pixel_at(img, x, y).channel(other),
{
}

} // verus!
