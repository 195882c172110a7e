//! Pictures as the `image` crate holds them, and the way between them and
//! the grids of this crate.
//!
//! A [`Raster`] keeps an `image::RgbaImage`. The verifier does not look
//! inside it: its shape and its pixels are given names, and each method of
//! the buffer that is called here has a small wrapper whose contract is
//! taken on trust from the `image` crate's source. The functions that read a
//! raster into a grid and write a grid into a raster are verified against
//! those contracts.

use vstd::prelude::*;
use crate::pixel::RgbaPixel;
use crate::grid::PixelGrid;

verus! {

/// An RGBA picture held in the buffer type of the `image` crate.
#[verifier::external_body]
pub struct Raster {
    buffer: image::RgbaImage,
}

/// Width and height of a raster, as `ImageBuffer::dimensions` reports them.
pub uninterp spec fn raster_dimensions(raster: Raster) -> (u32, u32);

/// The pixels of a raster, row after row from the top, each row from the
/// left: the pixel at column `x` of row `y` stands at `y * width + x`.
pub uninterp spec fn raster_pixels(raster: Raster) -> Seq<RgbaPixel>;

/// The pixel whose four samples start at `4 * index` in a sequence of
/// samples laid out as red, green, blue, alpha.
pub open spec fn sample_pixel(samples: Seq<u8>, index: int) -> RgbaPixel {
    RgbaPixel {
        r: samples[4 * index],
        g: samples[4 * index + 1],
        b: samples[4 * index + 2],
        a: samples[4 * index + 3],
    }
}

/// The first `count` pixels that a sequence of samples holds.
pub open spec fn sample_pixels(samples: Seq<u8>, count: nat) -> Seq<RgbaPixel> {
    Seq::new(count, |index: int| sample_pixel(samples, index))
}

/// Calls `ImageBuffer::from_raw`. The source counts the samples it needs
/// with checked multiplication, first `4 * width`, then that times
/// `height`, and builds the buffer exactly when neither step leaves `usize`
/// and the count is no more than what was handed in. It then keeps the
/// dimensions and reads the samples in row-major order.
#[verifier::external_body]
fn buffer_from_raw(width: u32, height: u32, samples: Vec<u8>) -> (raster: Option<Raster>)
    ensures
        raster is Some <==> (4 * width <= usize::MAX && 4 * width * height <= samples@.len()),
        raster matches Some(r) ==> raster_dimensions(r) == (width, height) && raster_pixels(r)
            == sample_pixels(samples@, (width * height) as nat),
{
    match image::RgbaImage::from_raw(width, height, samples) {
        Some(buffer) => Some(Raster { buffer }),
        None => None,
    }
}

/// Calls `ImageBuffer::into_raw`, which hands out the samples the buffer
/// was keeping: at least four for each pixel, the pixels in row-major order
/// from the start.
#[verifier::external_body]
fn buffer_into_raw(raster: Raster) -> (samples: Vec<u8>)
    ensures
        4 * raster_dimensions(raster).0 * raster_dimensions(raster).1 <= samples@.len(),
        sample_pixels(
            samples@,
            (raster_dimensions(raster).0 * raster_dimensions(raster).1) as nat,
        ) == raster_pixels(raster),
{
    raster.buffer.into_raw()
}

/// Calls `ImageBuffer::dimensions`, which returns the width and height the
/// buffer was made with. The buffer holds one pixel for each position.
#[verifier::external_body]
fn buffer_dimensions(raster: &Raster) -> (size: (u32, u32))
    ensures
        size == raster_dimensions(*raster),
        size.0 * size.1 == raster_pixels(*raster).len(),
{
    raster.buffer.dimensions()
}

/// Calls `ImageBuffer::get_pixel`, which returns the pixel at column `x` of
/// row `y` and panics outside the buffer's bounds.
#[verifier::external_body]
fn buffer_get_pixel(raster: &Raster, x: u32, y: u32) -> (pixel: RgbaPixel)
    requires
        x < raster_dimensions(*raster).0,
        y < raster_dimensions(*raster).1,
    ensures
        pixel == raster_pixels(*raster)[y * raster_dimensions(*raster).0 + x],
{
    let found = raster.buffer.get_pixel(x, y);
    RgbaPixel { r: found.0[0], g: found.0[1], b: found.0[2], a: found.0[3] }
}

/// Calls `ImageBuffer::from_pixel`, which makes a buffer of the given
/// dimensions with the given pixel at every position. It counts the samples
/// with checked multiplication, first `4 * width`, then that times `height`,
/// and panics when either step leaves `usize`.
#[verifier::external_body]
fn buffer_from_pixel(width: u32, height: u32, pixel: RgbaPixel) -> (raster: Raster)
    requires
        4 * width <= usize::MAX,
        4 * width * height <= usize::MAX,
    ensures
        raster_dimensions(raster) == (width, height),
        raster_pixels(raster) == Seq::new((width * height) as nat, |index: int| pixel),
{
    let filling = image::Rgba([pixel.r, pixel.g, pixel.b, pixel.a]);
    Raster { buffer: image::RgbaImage::from_pixel(width, height, filling) }
}

/// Calls `ImageBuffer::put_pixel`, which replaces the pixel at column `x`
/// of row `y`, leaves every other pixel and the dimensions as they were,
/// and panics outside the buffer's bounds.
#[verifier::external_body]
fn buffer_put_pixel(raster: &mut Raster, x: u32, y: u32, pixel: RgbaPixel)
    requires
        x < raster_dimensions(*old(raster)).0,
        y < raster_dimensions(*old(raster)).1,
    ensures
        raster_dimensions(*final(raster)) == raster_dimensions(*old(raster)),
        raster_pixels(*final(raster)) == raster_pixels(*old(raster)).update(
            y * raster_dimensions(*old(raster)).0 + x,
            pixel,
        ),
{
    raster.buffer.put_pixel(x, y, image::Rgba([pixel.r, pixel.g, pixel.b, pixel.a]));
}

impl Raster {
    /// Makes a raster from its dimensions and its samples: four for each
    /// pixel, red, green, blue and alpha, the pixels in row-major order.
    /// The result is `None` exactly when the samples are fewer than the
    /// dimensions ask for, or when four samples for each pixel of one row
    /// are more than `usize` can count.
    pub fn from_raw(width: u32, height: u32, samples: Vec<u8>) -> (raster: Option<Raster>)
        ensures
            raster is Some <==> (4 * width <= usize::MAX && 4 * width * height <= samples@.len()),
            raster matches Some(r) ==> raster_dimensions(r) == (width, height) && raster_pixels(r)
                == sample_pixels(samples@, (width * height) as nat),
    {
        buffer_from_raw(width, height, samples)
    }

    /// Hands out the samples of the raster, its pixels in row-major order
    /// from the start.
    pub fn into_raw(self) -> (samples: Vec<u8>)
        ensures
            4 * raster_dimensions(self).0 * raster_dimensions(self).1 <= samples@.len(),
            sample_pixels(
                samples@,
                (raster_dimensions(self).0 * raster_dimensions(self).1) as nat,
            ) == raster_pixels(self),
    {
        buffer_into_raw(self)
    }

    /// Width and height of the raster.
    pub fn dimensions(&self) -> (size: (u32, u32))
        ensures
            size == raster_dimensions(*self),
            size.0 * size.1 == raster_pixels(*self).len(),
    {
        buffer_dimensions(self)
    }

    /// Reads the raster into a grid of the same shape with the same pixels.
    pub fn to_grid(&self) -> (grid: PixelGrid)
        ensures
            grid.wf(),
            grid.spec_width() == raster_dimensions(*self).0,
            grid.spec_height() == raster_dimensions(*self).1,
            grid@ == raster_pixels(*self),
    {
        let (width, height) = buffer_dimensions(self);
        let mut pixels: Vec<RgbaPixel> = Vec::new();
        let mut y: u32 = 0;
        while y < height
            invariant
                y <= height,
                (width, height) == raster_dimensions(*self),
                width * height == raster_pixels(*self).len(),
                pixels@.len() == y * width,
                forall|k: int| 0 <= k < pixels@.len() ==> pixels@[k] == raster_pixels(*self)[k],
            decreases height - y,
        {
            let mut x: u32 = 0;
            while x < width
                invariant
                    x <= width,
                    y < height,
                    (width, height) == raster_dimensions(*self),
                    width * height == raster_pixels(*self).len(),
                    pixels@.len() == y * width + x,
                    forall|k: int| 0 <= k < pixels@.len() ==> pixels@[k] == raster_pixels(*self)[k],
                decreases width - x,
            {
                let pixel: RgbaPixel = buffer_get_pixel(self, x, y);
                pixels.push(pixel);
                x += 1;
            }
            assert((y + 1) * width == y * width + width) by (nonlinear_arith);
            y += 1;
        }
        assert(pixels@ =~= raster_pixels(*self)) by {
            assert(height * width == width * height) by (nonlinear_arith);
        }
        PixelGrid::assemble(width, height, pixels)
    }

    /// Writes a grid into a new raster of the same shape with the same
    /// pixels. The raster starts out transparent black and every position
    /// is then overwritten. The result is `None` exactly when four samples
    /// for each pixel of one row, or of the whole grid, are more than
    /// `usize` can count.
    pub fn from_grid(grid: &PixelGrid) -> (raster: Option<Raster>)
        ensures
            raster is Some <==> (4 * grid.spec_width() <= usize::MAX && 4 * grid.spec_width()
                * grid.spec_height() <= usize::MAX),
            raster matches Some(r) ==> {
                &&& raster_dimensions(r).0 == grid.spec_width()
                &&& raster_dimensions(r).1 == grid.spec_height()
                &&& raster_pixels(r) == grid@
            },
    {
        let (width, height) = grid.dimensions();
        let source: &Vec<RgbaPixel> = grid.pixels();
        let count: usize = source.len();
        assert(4 * width * height == 4 * count) by (nonlinear_arith)
            requires
                count == width * height,
        ;
        if width as usize > usize::MAX / 4 || count > usize::MAX / 4 {
            return None;
        }
        let mut raster: Raster = buffer_from_pixel(
            width,
            height,
            RgbaPixel { r: 0, g: 0, b: 0, a: 0 },
        );
        let mut index: usize = 0;
        let mut y: u32 = 0;
        while y < height
            invariant
                y <= height,
                index == y * width,
                count == width * height,
                source@.len() == count,
                raster_dimensions(raster) == (width, height),
                raster_pixels(raster).len() == count,
                forall|k: int| 0 <= k < index ==> raster_pixels(raster)[k] == source@[k],
            decreases height - y,
        {
            let mut x: u32 = 0;
            while x < width
                invariant
                    x <= width,
                    y < height,
                    index == y * width + x,
                    count == width * height,
                    source@.len() == count,
                    raster_dimensions(raster) == (width, height),
                    raster_pixels(raster).len() == count,
                    forall|k: int| 0 <= k < index ==> raster_pixels(raster)[k] == source@[k],
                decreases width - x,
            {
                assert(y * width + x < width * height) by (nonlinear_arith)
                    requires
                        x < width,
                        y < height,
                ;
                buffer_put_pixel(&mut raster, x, y, source[index]);
                index += 1;
                x += 1;
            }
            assert((y + 1) * width == y * width + width) by (nonlinear_arith);
            y += 1;
        }
        assert(raster_pixels(raster) =~= source@) by {
            assert(height * width == width * height) by (nonlinear_arith);
        }
        Some(raster)
    }
}

} // verus!
