//! The integer side of turning NES colour indices into RGB: packing a
//! colour, the phase of the colour square wave, and clamping. The NTSC
//! decoding itself is floating point and is done outside the library.

use vstd::prelude::*;

verus! {

/// An RGB colour with one integer per channel.
#[derive(PartialEq, Eq, Structural, Debug, Clone, Copy)]
pub struct RgbColor {
    pub r: u32,
    pub g: u32,
    pub b: u32,
}

impl RgbColor {
    /// The channels packed into one word: red shifted by 24, green by 16,
    /// blue unshifted.
    pub fn merge(&self) -> (r: u32)
        ensures
            r == (self.r << 24u32) | (self.g << 16u32) | self.b,
    {
        (self.r << 24) | (self.g << 16) | self.b
    }
}

/// Whether the square wave of colour `color` is high at sample `p` of the
/// 12 samples of a pixel.
pub open spec fn spec_wave(p: u32, color: u32) -> bool {
    (color + p + 8) % 12 < 6
}

pub fn wave(p: u32, color: u32) -> (r: bool)
    requires
        color + p + 8 <= u32::MAX,
    ensures
        r == spec_wave(p, color),
{
    ((color + p + 8) % 12) < 6
}

/// `value` clamped to `lower ..= upper`.
pub fn bound(lower: i32, value: i32, upper: i32) -> (r: i32)
    ensures
        r == (if value < upper { if lower > value { lower } else { value } } else { if lower > upper { lower } else { upper } }),
{
    let m = if value < upper { value } else { upper };
    if lower > m { lower } else { m }
}

} // verus!
