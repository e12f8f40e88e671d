//! Quads.

use crate::color::Color;
use crate::draw::vertex::{ColorVertex, TexColVertex};
use crate::geom::{AaRect, Point2, Point3};
use crate::scalar::Scalar;
use vstd::prelude::*;

verus! {

/// Four corners in a plane of constant depth. The caller gives them in the
/// winding order that is to be drawn.
#[derive(Clone, Copy, Debug)]
pub struct Quad {
    pub corners: [Point2; 4],
    pub z: Scalar,
}

impl Quad {
    /// The quad with the given corners at depth `z`.
    pub fn new(corners: [Point2; 4], z: Scalar) -> (quad: Self)
        ensures
            quad.corners == corners,
            quad.z == z,
    {
        Quad { corners, z }
    }

    /// The vertex that corner `i` gives in a batch of colored vertices.
    pub open spec fn color_vertex(self, i: int, color: Color) -> ColorVertex {
        ColorVertex {
            world_pos: Point3 { x: self.corners[i].x, y: self.corners[i].y, z: self.z },
            color,
        }
    }

    /// The vertex that corner `i` gives in a batch of textured vertices:
    /// corner `i` of the quad shows corner `i` of `uv_rect`.
    pub open spec fn tex_col_vertex(self, i: int, uv_rect: AaRect, color: Color) -> TexColVertex {
        TexColVertex {
            world_pos: Point3 { x: self.corners[i].x, y: self.corners[i].y, z: self.z },
            tex_coords: uv_rect.corners()[i],
            color,
        }
    }
}

} // verus!
