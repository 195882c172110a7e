//! Pixel-by-pixel comparison of two equally sized RGBA pictures.
//!
//! The crate works on decoded pixels only. It decides which pixel pairs
//! match under a channel tolerance, counts them, and builds the picture of
//! per-channel differences. Contracts are stated over plain mathematical
//! models of pixels and grids and are proved for every input.
//!
//! The `raster` module connects grids with the buffers of the `image` crate.
//! It calls that crate through a handful of small wrappers; what their
//! contracts say of the buffer is taken from its source and is not proved.

pub mod pixel;
pub mod difference;
pub mod grid;
pub mod compare;
pub mod raster;
