//! Fragments: the pixel candidates that rasterization hands to shading.

use vstd::prelude::*;
use crate::fixed::Fixed;
use crate::linalg::Vec3;

verus! {

/// A pixel candidate: where it lies on the screen, how deep, which point of the mesh it shows,
/// and how brightly that point is lit.
#[derive(Clone, Copy, Debug, PartialEq, Eq, Structural)]
pub struct Fragment {
    /// The pixel's column.
    pub x: i32,
    /// The pixel's row.
    pub y: i32,
    /// The interpolated screen-space depth.
    pub depth: Fixed,
    /// The interpolated object-space position.
    pub vertex_position: Vec3,
    /// The interpolated lighting intensity.
    pub intensity: Fixed,
}

impl Fragment {
    pub fn new(x: i32, y: i32, depth: Fixed, vertex_position: Vec3, intensity: Fixed) -> (f:
        Fragment)
        ensures
            f == (Fragment { x, y, depth, vertex_position, intensity }),
    {
        Fragment { x, y, depth, vertex_position, intensity }
    }
}

} // verus!
