//! Channel differences under a tolerance, and the match decision for a
//! pixel pair that follows from them.
//!
//! A pixel pair matches when, on each of red, green and blue, the unsigned
//! distance of the two channel values is at most the tolerance. Alpha plays
//! no part in the decision.

use vstd::prelude::*;
use crate::pixel::{spec_exact_match, RgbaPixel, OPAQUE};

verus! {

/// The unsigned distance `|first - second|` of two channel values.
pub open spec fn channel_delta(first: u8, second: u8) -> int {
    if second >= first {
        second - first
    } else {
        first - second
    }
}

/// A magnitude as it is reported under a tolerance: magnitudes up to the
/// tolerance count as no difference, larger ones are reported unchanged.
pub open spec fn suppressed(magnitude: int, threshold: u8) -> int {
    if magnitude <= threshold {
        0
    } else {
        magnitude
    }
}

/// The reported difference of one channel pair.
pub open spec fn spec_channel_difference(first: u8, second: u8, threshold: u8) -> int {
    suppressed(channel_delta(first, second), threshold)
}

/// Whether any of three reported differences is non-zero.
pub open spec fn spec_any_difference(first: u8, second: u8, third: u8) -> bool {
    first != 0 || second != 0 || third != 0
}

/// A pixel pair matches when no colour channel is further apart than the
/// tolerance.
pub open spec fn spec_pixels_match(first: RgbaPixel, second: RgbaPixel, threshold: u8) -> bool {
    &&& channel_delta(first.r, second.r) <= threshold
    &&& channel_delta(first.g, second.g) <= threshold
    &&& channel_delta(first.b, second.b) <= threshold
}

/// The pixel of the difference picture for one pixel pair: the reported
/// differences of red, green and blue, and full opacity.
pub open spec fn spec_difference_pixel(first: RgbaPixel, second: RgbaPixel, threshold: u8) -> RgbaPixel {
    RgbaPixel {
        r: spec_channel_difference(first.r, second.r, threshold) as u8,
        g: spec_channel_difference(first.g, second.g, threshold) as u8,
        b: spec_channel_difference(first.b, second.b, threshold) as u8,
        a: OPAQUE,
    }
}

/// Reports a magnitude under a tolerance: 0 when the magnitude does not
/// exceed the tolerance, the magnitude itself otherwise. The magnitude is
/// neither clipped nor rescaled.
pub fn apply_threshold(magnitude: u8, threshold: u8) -> (reported: u8)
    ensures
        reported == suppressed(magnitude as int, threshold),
        reported == 0 <==> magnitude <= threshold,
        magnitude > threshold ==> reported == magnitude,
{
    if magnitude > threshold {
        magnitude
    } else {
        0
    }
}

/// The reported difference of one channel pair: 0 when the two values are
/// at most `threshold` apart, their unsigned distance otherwise.
pub fn channel_difference(first: u8, second: u8, threshold: u8) -> (difference: u8)
    ensures
        difference == spec_channel_difference(first, second, threshold),
        difference == 0 <==> channel_delta(first, second) <= threshold,
        channel_delta(first, second) > threshold ==> difference == channel_delta(first, second),
{
    let distance: u8 = if second >= first {
        second - first
    } else {
        first - second
    };
    apply_threshold(distance, threshold)
}

/// Whether a pixel counts as different, given its three reported channel
/// differences: it does as soon as one of them is not zero.
pub fn any_difference(first: u8, second: u8, third: u8) -> (different: bool)
    ensures
        different == spec_any_difference(first, second, third),
{
    let differences: [u8; 3] = [first, second, third];
    let mut index: usize = 0;
    while index < 3
        invariant
            index <= 3,
            differences@ == seq![first, second, third],
            forall|k: int| 0 <= k < index ==> differences@[k] == 0,
        decreases 3 - index,
    {
        if differences[index] != 0 {
            return true;
        }
        index += 1;
    }
    false
}

/// The pixel of the difference picture for one pixel pair. Its alpha is
/// fully opaque whether or not the pair matches.
pub fn difference_pixel(first: RgbaPixel, second: RgbaPixel, threshold: u8) -> (pixel: RgbaPixel)
    ensures
        pixel == spec_difference_pixel(first, second, threshold),
        pixel.a == 255,
{
    RgbaPixel {
        r: channel_difference(first.r, second.r, threshold),
        g: channel_difference(first.g, second.g, threshold),
        b: channel_difference(first.b, second.b, threshold),
        a: OPAQUE,
    }
}

/// Decides whether a pixel pair matches under a tolerance.
pub fn pixels_match(first: RgbaPixel, second: RgbaPixel, threshold: u8) -> (matching: bool)
    ensures
        matching == spec_pixels_match(first, second, threshold),
{
    let red: u8 = channel_difference(first.r, second.r, threshold);
    let green: u8 = channel_difference(first.g, second.g, threshold);
    let blue: u8 = channel_difference(first.b, second.b, threshold);
    !any_difference(red, green, blue)
}

/// A pixel pair matches exactly when its difference pixel shows no
/// difference on any colour channel: deciding on the raw distances and
/// deciding on the reported differences come to the same.
pub proof fn lemma_match_iff_no_difference(first: RgbaPixel, second: RgbaPixel, threshold: u8)
    ensures
        spec_pixels_match(first, second, threshold) <==> !spec_any_difference(
            spec_difference_pixel(first, second, threshold).r,
            spec_difference_pixel(first, second, threshold).g,
            spec_difference_pixel(first, second, threshold).b,
        ),
{
}

/// Reporting under a tolerance keeps the order of magnitudes: of two
/// magnitudes the larger is never reported as the smaller one, and a
/// magnitude of zero is reported as zero under every tolerance.
pub proof fn lemma_suppressed_monotone(smaller: u8, larger: u8, threshold: u8)
    requires
        smaller <= larger,
    ensures
        suppressed(smaller as int, threshold) <= suppressed(larger as int, threshold),
        suppressed(0, threshold) == 0,
{
}

/// Two pixels that agree on all four channels match exactly, every channel
/// difference between them is zero under every tolerance, they match under
/// every tolerance, and their difference pixel is black and opaque.
pub proof fn lemma_identical_pixels(first: RgbaPixel, second: RgbaPixel, threshold: u8)
    requires
        first == second,
    ensures
        spec_exact_match(first, second),
        spec_channel_difference(first.r, second.r, threshold) == 0,
        spec_channel_difference(first.g, second.g, threshold) == 0,
        spec_channel_difference(first.b, second.b, threshold) == 0,
        spec_channel_difference(first.a, second.a, threshold) == 0,
        spec_pixels_match(first, second, threshold),
        spec_difference_pixel(first, second, threshold) == (RgbaPixel { r: 0, g: 0, b: 0, a: 255 }),
{
}

} // verus!
