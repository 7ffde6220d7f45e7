//! Pixels and the channels a transformation can select.

use vstd::prelude::*;

verus! {

/// One pixel: red, green, blue and alpha, each in `0..=255`.
#[derive(Clone, Copy, Debug, PartialEq, Eq, Structural)]
pub struct Pixel {
    pub r: u8,
    pub g: u8,
    pub b: u8,
    pub a: u8,
}

/// The channels a transformation may select. Alpha is never selected.
#[derive(Clone, Copy, Debug, PartialEq, Eq, Structural)]
pub enum Channel {
    Red,
    Green,
    Blue,
}

impl Pixel {
    /// The value of one colour channel.
    pub open spec fn channel(self, c: Channel) -> u8 {
        match c {
            Channel::Red => self.r,
            Channel::Green => self.g,
            Channel::Blue => self.b,
        }
    }

    /// This pixel with one colour channel replaced.
    pub open spec fn with_channel(self, c: Channel, value: u8) -> Pixel {
        match c {
            Channel::Red => Pixel { r: value, ..self },
            Channel::Green => Pixel { g: value, ..self },
            Channel::Blue => Pixel { b: value, ..self },
        }
    }

    /// Whether the three colour channels hold one and the same value.
    pub open spec fn is_gray(self) -> bool {
        self.r == self.g && self.g == self.b
    }

    /// Reads one colour channel.
    pub fn get(&self, c: Channel) -> (value: u8)
        ensures
            value == self.channel(c),
    {
        match c {
            Channel::Red => self.r,
            Channel::Green => self.g,
            Channel::Blue => self.b,
        }
    }

    /// Returns this pixel with one colour channel replaced; the other
    /// channels, alpha included, are carried over.
    pub fn set(&self, c: Channel, value: u8) -> (result: Pixel)
        ensures
            result == self.with_channel(c, value),
    {
        match c {
            Channel::Red => Pixel { r: value, g: self.g, b: self.b, a: self.a },
            Channel::Green => Pixel { r: self.r, g: value, b: self.b, a: self.a },
            Channel::Blue => Pixel { r: self.r, g: self.g, b: value, a: self.a },
        }
    }
}

} // verus!
