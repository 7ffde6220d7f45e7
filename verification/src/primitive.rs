//! The primitive transformations as data: which one, and with which
//! parameters.

use vstd::prelude::*;

use crate::channels::{
    channel_incremented, inc_channel_pixel, inc_two_channels_pixel, two_channels_incremented,
};
use crate::filters::{
    blue_solarized, red_blue_solarized, red_green_solarized, solarize_blue, solarize_red_blue,
    solarize_red_green,
};
use crate::monochrome::{monochroma_pixel, monochrome_blended};
use crate::pixel::{Channel, Pixel};
use crate::{tint_pixel, tinted};

verus! {

/// A per-pixel transformation together with its parameters.
#[derive(Clone, Copy, Debug)]
pub enum Primitive {
    /// Add an offset to one channel.
    IncChannel { channel: Channel, offset: i32 },
    /// Add an offset of its own to each of two channels.
    IncTwoChannels { first: Channel, first_offset: i32, second: Channel, second_offset: i32 },
    /// Collapse to the average intensity, then add an offset per channel.
    Monochrome { r_offset: i32, g_offset: i32, b_offset: i32 },
    /// Add an offset to each of the three colour channels.
    Tint { r_offset: i32, g_offset: i32, b_offset: i32 },
    /// Invert blue unless it is 255.
    SolarizeBlue,
    /// Invert red and green.
    SolarizeRedGreen,
    /// Invert red and blue unless blue is 255.
    SolarizeRedBlue,
}

impl Primitive {
    /// What the primitive makes of one pixel.
    pub open spec fn on_pixel(self, p: Pixel) -> Pixel {
        match self {
            Primitive::IncChannel { channel, offset } => channel_incremented(p, channel, offset),
            Primitive::IncTwoChannels { first, first_offset, second, second_offset } =>
                two_channels_incremented(p, first, first_offset, second, second_offset),
            Primitive::Monochrome { r_offset, g_offset, b_offset } => monochrome_blended(
                p,
                r_offset,
                g_offset,
                b_offset,
            ),
            Primitive::Tint { r_offset, g_offset, b_offset } => tinted(
                p,
                r_offset,
                g_offset,
                b_offset,
            ),
            Primitive::SolarizeBlue => blue_solarized(p),
            Primitive::SolarizeRedGreen => red_green_solarized(p),
            Primitive::SolarizeRedBlue => red_blue_solarized(p),
        }
    }

    /// No primitive changes alpha.
    pub proof fn lemma_keeps_alpha(self, p: Pixel)
        ensures
            self.on_pixel(p).a == p.a,
    {
    }

    /// Applies the primitive to one pixel.
    pub fn apply(&self, p: Pixel) -> (q: Pixel)
        ensures
            q == self.on_pixel(p),
    {
        match *self {
            Primitive::IncChannel { channel, offset } => inc_channel_pixel(p, channel, offset),
            Primitive::IncTwoChannels { first, first_offset, second, second_offset } =>
                inc_two_channels_pixel(p, first, first_offset, second, second_offset),
            Primitive::Monochrome { r_offset, g_offset, b_offset } => monochroma_pixel(
                p,
                r_offset,
                g_offset,
                b_offset,
            ),
            Primitive::Tint { r_offset, g_offset, b_offset } => tint_pixel(
                p,
                r_offset,
                g_offset,
                b_offset,
            ),
            Primitive::SolarizeBlue => solarize_blue(p),
            Primitive::SolarizeRedGreen => solarize_red_green(p),
            Primitive::SolarizeRedBlue => solarize_red_blue(p),
        }
    }
}

} // verus!
