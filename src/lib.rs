//! Integer core of a Monte Carlo path tracer: the layout of the pixel
//! buffer, its 8-bit colours and its encoding as a PNG file, the choice of
//! the nearest surface a ray meets, the dispatch on material kinds, and the
//! Russian-roulette rule that ends light paths.
//!
//! Distances, vectors and radiance are floating point and are computed by
//! the caller; this crate receives what it decides on as integers.
use vstd::prelude::*;

pub mod camera;
pub mod colour;
pub mod framebuffer;
pub mod scene;
pub mod tracer;

verus! {

/// Width of the rendered image, in pixels.
pub const WIDTH: u32 = 800;

/// Height of the rendered image, in pixels.
pub const HEIGHT: u32 = 800;

/// Camera rays cast, and averaged, per pixel.
pub const SAMPLES: u32 = 8;

} // verus!
