//! Vertex layouts: how a vertex goes into the flat buffer of a batch.

use crate::color::Color;
use crate::geom::{Point2, Point3};
use vstd::prelude::*;

verus! {

/// A vertex that can be drawn: it appends its numbers to a flat buffer, always
/// the same count of them and in the same order.
pub trait Vertex: Sized {
    /// How many words a vertex of this type takes in the buffer.
    spec fn stride() -> nat;

    /// The words of this vertex, in the order in which they go into the
    /// buffer.
    spec fn words(&self) -> Seq<u32>;

    /// Every vertex of the type takes `stride()` words, and at least one.
    proof fn lemma_stride(&self)
        ensures
            self.words().len() == Self::stride(),
            Self::stride() > 0,
    ;

    /// Appends the words of this vertex to `out`.
    fn append(&self, out: &mut Vec<u32>)
        ensures
            final(out)@ == old(out)@ + self.words(),
    ;
}

/// A vertex with a position and a color.
#[derive(Clone, Copy, Debug, PartialEq, Eq, Structural)]
pub struct ColorVertex {
    pub world_pos: Point3,
    pub color: Color,
}

impl Vertex for ColorVertex {
    open spec fn stride() -> nat {
        7
    }

    open spec fn words(&self) -> Seq<u32> {
        seq![
            self.world_pos.x.bits,
            self.world_pos.y.bits,
            self.world_pos.z.bits,
            self.color.r.bits,
            self.color.g.bits,
            self.color.b.bits,
            self.color.a.bits,
        ]
    }

    proof fn lemma_stride(&self) {
    }

    fn append(&self, out: &mut Vec<u32>) {
        out.push(self.world_pos.x.bits);
        out.push(self.world_pos.y.bits);
        out.push(self.world_pos.z.bits);
        out.push(self.color.r.bits);
        out.push(self.color.g.bits);
        out.push(self.color.b.bits);
        out.push(self.color.a.bits);
        assert(out@ =~= old(out)@ + self.words());
    }
}

/// A vertex with a position, a place in a texture and a color.
#[derive(Clone, Copy, Debug, PartialEq, Eq, Structural)]
pub struct TexColVertex {
    pub world_pos: Point3,
    pub tex_coords: Point2,
    pub color: Color,
}

impl Vertex for TexColVertex {
    open spec fn stride() -> nat {
        9
    }

    open spec fn words(&self) -> Seq<u32> {
        seq![
            self.world_pos.x.bits,
            self.world_pos.y.bits,
            self.world_pos.z.bits,
            self.tex_coords.x.bits,
            self.tex_coords.y.bits,
            self.color.r.bits,
            self.color.g.bits,
            self.color.b.bits,
            self.color.a.bits,
        ]
    }

    proof fn lemma_stride(&self) {
    }

    fn append(&self, out: &mut Vec<u32>) {
        out.push(self.world_pos.x.bits);
        out.push(self.world_pos.y.bits);
        out.push(self.world_pos.z.bits);
        out.push(self.tex_coords.x.bits);
        out.push(self.tex_coords.y.bits);
        out.push(self.color.r.bits);
        out.push(self.color.g.bits);
        out.push(self.color.b.bits);
        out.push(self.color.a.bits);
        assert(out@ =~= old(out)@ + self.words());
    }
}

} // verus!
