//! Saturating arithmetic on 8-bit channel values.

use vstd::prelude::*;

verus! {

/// The nearest value to `n` inside the channel range `0..=255`.
pub open spec fn clamp_channel(n: int) -> int {
    if n < 0 {
        0
    } else if n > 255 {
        255
    } else {
        n
    }
}

/// A channel value shifted by `delta` and saturated into `0..=255`.
pub open spec fn add_spec(value: u8, delta: int) -> u8 {
    clamp_channel(value + delta) as u8
}

/// The photographic negative of a channel value.
pub open spec fn invert_spec(value: u8) -> u8 {
    (255 - value) as u8
}

/// Adds `delta` to a channel value. The sum is computed without wrapping
/// and then saturated: a sum below 0 gives 0, a sum above 255 gives 255.
pub fn add(value: u8, delta: i32) -> (result: u8)
    ensures
        result == add_spec(value, delta as int),
        result as int == vstd::math::min(255, vstd::math::max(0, value + delta)),
{
    let sum: i64 = value as i64 + delta as i64;
    if sum < 0 {
        0
    } else if sum > 255 {
        255
    } else {
        sum as u8
    }
}

/// Inverts a channel value: `255 - value`.
pub fn invert(value: u8) -> (result: u8)
    ensures
        result == invert_spec(value),
        result as int == 255 - value,
{
    255 - value
}

/// Saturated addition is the sum clamped from both sides.
pub proof fn lemma_add_is_clamped_sum(value: u8, delta: int)
    ensures
        add_spec(value, delta) as int == vstd::math::min(255, vstd::math::max(0, value + delta)),
{
}

/// Inverting twice gives the value back.
pub proof fn lemma_invert_involution(value: u8)
    ensures
        invert_spec(invert_spec(value)) == value,
{
}

} // verus!
