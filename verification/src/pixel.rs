//! The pixel type and the strictest comparison of two pixels.

use vstd::prelude::*;

verus! {

/// One picture element: red, green, blue and alpha, eight bits each.
#[derive(Clone, Copy, Debug, PartialEq, Eq, Structural)]
pub struct RgbaPixel {
    pub r: u8,
    pub g: u8,
    pub b: u8,
    pub a: u8,
}

/// The alpha value of a fully opaque pixel.
pub const OPAQUE: u8 = 255;

impl RgbaPixel {
    /// A pixel from its four channels.
    pub fn new(r: u8, g: u8, b: u8, a: u8) -> (pixel: RgbaPixel)
        ensures
            pixel == (RgbaPixel { r, g, b, a }),
    {
        RgbaPixel { r, g, b, a }
    }

    /// The four channels in the order red, green, blue, alpha.
    pub fn channels4(&self) -> (channels: (u8, u8, u8, u8))
        ensures
            channels == (self.r, self.g, self.b, self.a),
    {
        (self.r, self.g, self.b, self.a)
    }
}

/// Two pixels match exactly when all four channels hold the same bits.
pub open spec fn spec_exact_match(first: RgbaPixel, second: RgbaPixel) -> bool {
    &&& first.r == second.r
    &&& first.g == second.g
    &&& first.b == second.b
    &&& first.a == second.a
}

/// Compares two pixels with no tolerance: true when all four channels,
/// alpha included, are identical.
pub fn exact_match(first: RgbaPixel, second: RgbaPixel) -> (same: bool)
    ensures
        same == spec_exact_match(first, second),
        same == (first == second),
{
    first.r == second.r && first.g == second.g && first.b == second.b && first.a == second.a
}

} // verus!
