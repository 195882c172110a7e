//! The comparison of two whole pictures: how many pixel pairs match, and
//! the picture of their differences.

use vstd::prelude::*;
use crate::pixel::RgbaPixel;
use crate::grid::PixelGrid;
use crate::difference::{
    difference_pixel, pixels_match, spec_difference_pixel, spec_pixels_match,
};

verus! {

/// Why two pictures cannot be compared.
#[derive(Clone, Copy, Debug, PartialEq, Eq)]
pub enum CompareError {
    /// The two pictures differ in width or in height.
    DimensionMismatch { first_width: u32, first_height: u32, second_width: u32, second_height: u32 },
}

/// What the comparison of two pictures of the same shape yields.
#[derive(Clone, Debug, PartialEq, Eq)]
pub struct Comparison {
    /// The number of pixel pairs.
    pub total: usize,
    /// The number of pixel pairs that match.
    pub matching: usize,
    /// For each position, the difference pixel of the pair at that position.
    pub difference: PixelGrid,
}

/// The number of positions below `upto` at which the two sequences hold a
/// matching pixel pair.
pub open spec fn matching_upto(
    first: Seq<RgbaPixel>,
    second: Seq<RgbaPixel>,
    threshold: u8,
    upto: nat,
) -> nat
    decreases upto,
{
    if upto == 0 {
        0
    } else {
        let last = (upto - 1) as nat;
        matching_upto(first, second, threshold, last) + if spec_pixels_match(
            first[last as int],
            second[last as int],
            threshold,
        ) {
            1nat
        } else {
            0nat
        }
    }
}

/// The number of matching pixel pairs of two pictures of the same length.
pub open spec fn spec_matching_count(first: Seq<RgbaPixel>, second: Seq<RgbaPixel>, threshold: u8) -> nat
    recommends
        first.len() == second.len(),
{
    matching_upto(first, second, threshold, first.len())
}

/// The difference picture: at each position the difference pixel of the
/// pair found there.
pub open spec fn spec_difference(first: Seq<RgbaPixel>, second: Seq<RgbaPixel>, threshold: u8) -> Seq<
    RgbaPixel,
>
    recommends
        first.len() == second.len(),
{
    Seq::new(first.len(), |i: int| spec_difference_pixel(first[i], second[i], threshold))
}

/// Compares two pictures pixel by pixel under a channel tolerance.
///
/// Pictures of different width or height are rejected before any pixel is
/// looked at. Otherwise the result counts the pixel pairs and those that
/// match, and holds the difference picture, which has the shape of the
/// inputs and is opaque everywhere. The count of matching pairs equals the
/// total exactly when every pair matches, and is zero exactly when none
/// does.
pub fn compare(first: &PixelGrid, second: &PixelGrid, threshold: u8) -> (result: Result<
    Comparison,
    CompareError,
>)
    ensures
        result is Ok <==> first.same_shape(second),
        result matches Err(e) ==> e == (CompareError::DimensionMismatch {
            first_width: first.spec_width(),
            first_height: first.spec_height(),
            second_width: second.spec_width(),
            second_height: second.spec_height(),
        }),
        result matches Ok(c) ==> {
            &&& c.total == first@.len()
            &&& c.matching == spec_matching_count(first@, second@, threshold)
            &&& c.matching <= c.total
            &&& c.matching == c.total <==> (forall|i: int|
                0 <= i < first@.len() ==> spec_pixels_match(
                    #[trigger] first@[i],
                    second@[i],
                    threshold,
                ))
            &&& c.matching == 0 <==> (forall|i: int|
                0 <= i < first@.len() ==> !spec_pixels_match(
                    #[trigger] first@[i],
                    second@[i],
                    threshold,
                ))
            &&& c.difference.wf()
            &&& c.difference.same_shape(first)
            &&& c.difference@ == spec_difference(first@, second@, threshold)
            &&& forall|i: int| 0 <= i < c.difference@.len() ==> (#[trigger] c.difference@[i]).a == 255
        },
{
    let (first_width, first_height) = first.dimensions();
    let (second_width, second_height) = second.dimensions();
    if first_width != second_width || first_height != second_height {
        return Err(
            CompareError::DimensionMismatch {
                first_width,
                first_height,
                second_width,
                second_height,
            },
        );
    }
    let first_pixels: &Vec<RgbaPixel> = first.pixels();
    let second_pixels: &Vec<RgbaPixel> = second.pixels();
    let total: usize = first_pixels.len();
    let mut matching: usize = 0;
    let mut differences: Vec<RgbaPixel> = Vec::new();
    let mut index: usize = 0;
    while index < total
        invariant
            index <= total,
            total == first_pixels@.len(),
            total == second_pixels@.len(),
            matching == matching_upto(first_pixels@, second_pixels@, threshold, index as nat),
            matching <= index,
            differences@.len() == index,
            forall|i: int|
                0 <= i < index ==> differences@[i] == spec_difference_pixel(
                    first_pixels@[i],
                    second_pixels@[i],
                    threshold,
                ),
        decreases total - index,
    {
        let first_pixel: RgbaPixel = first_pixels[index];
        let second_pixel: RgbaPixel = second_pixels[index];
        differences.push(difference_pixel(first_pixel, second_pixel, threshold));
        if pixels_match(first_pixel, second_pixel, threshold) {
            matching += 1;
        }
        index += 1;
    }
    assert(differences@ =~= spec_difference(first@, second@, threshold));
    proof {
        lemma_matching_count_bounds(first@, second@, threshold);
    }
    let difference: PixelGrid = PixelGrid::assemble(first_width, first_height, differences);
    Ok(Comparison { total, matching, difference })
}

/// The matching pairs are never more than the pairs. All pairs match
/// exactly when the count equals the number of pairs, and no pair matches
/// exactly when the count is zero. So the share of matching pairs lies
/// between nought and one, and reaches either end only in those two cases.
pub proof fn lemma_matching_count_bounds(first: Seq<RgbaPixel>, second: Seq<RgbaPixel>, threshold: u8)
    requires
        first.len() == second.len(),
    ensures
        0 <= spec_matching_count(first, second, threshold) <= first.len(),
        spec_matching_count(first, second, threshold) == first.len() <==> (forall|i: int|
            0 <= i < first.len() ==> spec_pixels_match(#[trigger] first[i], second[i], threshold)),
        spec_matching_count(first, second, threshold) == 0 <==> (forall|i: int|
            0 <= i < first.len() ==> !spec_pixels_match(#[trigger] first[i], second[i], threshold)),
{
    lemma_matching_upto_bounds(first, second, threshold, first.len());
}

/// The same three facts for every prefix of the two pictures.
proof fn lemma_matching_upto_bounds(
    first: Seq<RgbaPixel>,
    second: Seq<RgbaPixel>,
    threshold: u8,
    upto: nat,
)
    requires
        upto <= first.len(),
        first.len() == second.len(),
    ensures
        matching_upto(first, second, threshold, upto) <= upto,
        matching_upto(first, second, threshold, upto) == upto <==> (forall|i: int|
            0 <= i < upto ==> spec_pixels_match(#[trigger] first[i], second[i], threshold)),
        matching_upto(first, second, threshold, upto) == 0 <==> (forall|i: int|
            0 <= i < upto ==> !spec_pixels_match(#[trigger] first[i], second[i], threshold)),
    decreases upto,
{
    if upto > 0 {
        let last = (upto - 1) as nat;
        lemma_matching_upto_bounds(first, second, threshold, last);
        let _ = first[last as int];
    }
}

} // verus!
