//! A rectangular grid of pixels in row-major order.

use vstd::prelude::*;
use crate::pixel::RgbaPixel;

verus! {

/// A picture: `width * height` pixels, row after row from the top, each row
/// from the left. The dimensions are fixed when the grid is made, and every
/// grid holds exactly one pixel for each position.
#[derive(Debug, PartialEq, Eq)]
pub struct PixelGrid {
    width: u32,
    height: u32,
    pixels: Vec<RgbaPixel>,
}

impl View for PixelGrid {
    type V = Seq<RgbaPixel>;

    /// The pixels in row-major order.
    closed spec fn view(&self) -> Seq<RgbaPixel> {
        self.pixels@
    }
}

impl Clone for PixelGrid {
    /// A copy with the same shape and the same pixels.
    fn clone(&self) -> (copy: PixelGrid)
        ensures
            copy@ == self@,
            copy.spec_width() == self.spec_width(),
            copy.spec_height() == self.spec_height(),
            copy.wf(),
    {
        proof {
            use_type_invariant(self);
        }
        let pixels: Vec<RgbaPixel> = self.pixels.clone();
        assert(pixels@ =~= self.pixels@);
        PixelGrid { width: self.width, height: self.height, pixels }
    }
}

impl PixelGrid {
    /// Holds of every grid that exists: one pixel for each position.
    #[verifier::type_invariant]
    spec fn one_pixel_per_position(self) -> bool {
        self.pixels@.len() == self.width * self.height
    }

    /// The number of pixels in a row.
    pub closed spec fn spec_width(&self) -> u32 {
        self.width
    }

    /// The number of rows.
    pub closed spec fn spec_height(&self) -> u32 {
        self.height
    }

    /// A grid is well formed when it holds exactly one pixel for each
    /// position. Every grid is; its accessors say so.
    pub open spec fn wf(&self) -> bool {
        self@.len() == self.spec_width() * self.spec_height()
    }

    /// Two grids have the same shape when they agree on width and height.
    pub open spec fn same_shape(&self, other: &PixelGrid) -> bool {
        self.spec_width() == other.spec_width() && self.spec_height() == other.spec_height()
    }

    /// The pixel at column `x` of row `y`.
    pub open spec fn spec_get(&self, x: u32, y: u32) -> RgbaPixel
        recommends
            self.wf(),
            x < self.spec_width(),
            y < self.spec_height(),
    {
        self@[y * self.spec_width() + x]
    }

    /// Makes a grid from its dimensions and its pixels in row-major order.
    /// The result is `None` exactly when the number of pixels is not
    /// `width * height`.
    pub fn from_pixels(width: u32, height: u32, pixels: Vec<RgbaPixel>) -> (grid: Option<PixelGrid>)
        ensures
            grid is Some <==> pixels@.len() == width * height,
            grid matches Some(g) ==> g.wf() && g@ == pixels@ && g.spec_width() == width
                && g.spec_height() == height,
    {
        assert(width * height <= u64::MAX) by (nonlinear_arith)
            requires
                width <= u32::MAX,
                height <= u32::MAX,
        ;
        let expected: u64 = (width as u64) * (height as u64);
        if pixels.len() as u64 == expected {
            Some(PixelGrid { width, height, pixels })
        } else {
            None
        }
    }

    /// Makes a grid whose shape is already known to fit its pixels.
    pub(crate) fn assemble(width: u32, height: u32, pixels: Vec<RgbaPixel>) -> (grid: PixelGrid)
        requires
            pixels@.len() == width * height,
        ensures
            grid.wf(),
            grid@ == pixels@,
            grid.spec_width() == width,
            grid.spec_height() == height,
    {
        PixelGrid { width, height, pixels }
    }

    /// The number of pixels in a row.
    pub fn width(&self) -> (width: u32)
        ensures
            width == self.spec_width(),
            self.wf(),
    {
        proof {
            use_type_invariant(self);
        }
        self.width
    }

    /// The number of rows.
    pub fn height(&self) -> (height: u32)
        ensures
            height == self.spec_height(),
            self.wf(),
    {
        proof {
            use_type_invariant(self);
        }
        self.height
    }

    /// Width and height together.
    pub fn dimensions(&self) -> (dimensions: (u32, u32))
        ensures
            dimensions.0 == self.spec_width(),
            dimensions.1 == self.spec_height(),
            self.wf(),
    {
        proof {
            use_type_invariant(self);
        }
        (self.width, self.height)
    }

    /// The number of pixels.
    pub fn len(&self) -> (count: usize)
        ensures
            count == self@.len(),
            self.wf(),
    {
        proof {
            use_type_invariant(self);
        }
        self.pixels.len()
    }

    /// The pixels in row-major order.
    pub fn pixels(&self) -> (pixels: &Vec<RgbaPixel>)
        ensures
            pixels@ == self@,
            self.wf(),
    {
        proof {
            use_type_invariant(self);
        }
        &self.pixels
    }

    /// The pixel at a position in row-major order.
    pub fn pixel(&self, index: usize) -> (pixel: Option<RgbaPixel>)
        ensures
            pixel is Some <==> index < self@.len(),
            pixel matches Some(p) ==> p == self@[index as int],
    {
        if index < self.pixels.len() {
            Some(self.pixels[index])
        } else {
            None
        }
    }

    /// The pixel at column `x` of row `y`, or `None` outside the grid.
    pub fn get(&self, x: u32, y: u32) -> (pixel: Option<RgbaPixel>)
        ensures
            pixel is Some <==> x < self.spec_width() && y < self.spec_height(),
            pixel matches Some(p) ==> p == self.spec_get(x, y),
            self.wf(),
    {
        proof {
            use_type_invariant(self);
        }
        if x < self.width && y < self.height {
            let row: usize = y as usize;
            let column: usize = x as usize;
            let stride: usize = self.width as usize;
            let count: usize = self.pixels.len();
            assert(0 <= row * stride && row * stride + column < count)
                by (nonlinear_arith)
                requires
                    0 <= column < stride,
                    0 <= row < self.height,
                    count == stride * self.height,
            ;
            let index: usize = row * stride + column;
            Some(self.pixels[index])
        } else {
            None
        }
    }
}

} // verus!
