//! A software rasterizer: a look-at camera with orthographic and perspective
//! projections, point / line / triangle rasterization with per-sample depth
//! testing and supersampled anti-aliasing, and a binary image encoding of the
//! resolved frame.
//!
//! All coordinates, colors and matrix entries are fixed-point numbers: an
//! `i64` holding the value scaled by `2^32` (see `fx`). Every arithmetic step
//! saturates at `±2^62`, so the pipeline is total and its results are pinned
//! down exactly by the contracts.

pub mod camera;
pub mod color;
pub mod fx;
pub mod mat;
pub mod mesh;
pub mod ppm;
pub mod renderer;
pub mod scene;
pub mod shape;
pub mod texture;
pub mod vec;

use vstd::prelude::*;

verus! {

} // verus!
