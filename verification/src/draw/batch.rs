//! Batches: the geometry of one draw call, gathered on the CPU and uploaded
//! when it has changed.
//!
//! A batch holds the flattened vertices and the element indices, and a record
//! of what the GPU buffers hold. [`Batch::flush`] says whether the buffers
//! are stale; the caller then uploads both arrays. As long as nothing is
//! pushed, a second flush asks for nothing.

use crate::color::Color;
use crate::draw::quad::Quad;
use crate::draw::vertex::{ColorVertex, TexColVertex, Vertex};
use crate::geom::{AaRect, Point3};
use std::marker::PhantomData;
use vstd::prelude::*;

verus! {

/// How the elements of a batch are read when it is drawn.
#[derive(Clone, Copy, Debug, PartialEq, Eq, Structural)]
pub enum GeometryMode {
    /// Every three elements are a triangle.
    Triangles,
    /// Every two elements are a line.
    Lines,
}

/// What a flush asks of the caller.
#[derive(Clone, Copy, Debug, PartialEq, Eq, Structural)]
pub enum FlushAction {
    /// Upload the whole vertex array and the whole element array.
    Upload,
    /// The buffers are up to date.
    Nothing,
}

/// What a pair of GPU buffers holds.
pub struct BufferContents {
    /// The words of the vertex buffer.
    pub vertices: Seq<u32>,
    /// The indices of the element buffer.
    pub elements: Seq<u32>,
    /// How many elements a draw call reads.
    pub num_elements: nat,
}

impl BufferContents {
    /// Two new buffers: nothing in them.
    pub open spec fn empty() -> BufferContents {
        BufferContents { vertices: Seq::empty(), elements: Seq::empty(), num_elements: 0 }
    }
}

/// The record of a vertex buffer and an element buffer on the GPU.
///
/// The buffers themselves belong to whoever talks to the GPU. This is what a
/// batch knows of them: their contents after the last upload, and the number
/// of elements that a draw call is to read.
pub struct Buffers<V> {
    num_elements: usize,
    vertices: Ghost<Seq<u32>>,
    elements: Ghost<Seq<u32>>,
    _phantom: PhantomData<V>,
}

impl<V> View for Buffers<V> {
    type V = BufferContents;

    closed spec fn view(&self) -> BufferContents {
        BufferContents {
            vertices: self.vertices@,
            elements: self.elements@,
            num_elements: self.num_elements as nat,
        }
    }
}

impl<V> Buffers<V> {
    /// The record of two new, empty buffers.
    pub fn new() -> (buffers: Self)
        ensures
            buffers@ == BufferContents::empty(),
    {
        Buffers {
            num_elements: 0,
            vertices: Ghost(Seq::empty()),
            elements: Ghost(Seq::empty()),
            _phantom: PhantomData,
        }
    }

    /// The record of two buffers that were filled elsewhere, of which
    /// `num_elements` elements are to be drawn. Nothing is known of what
    /// they hold, and the number is taken on trust.
    pub fn from_buffers_unchecked(num_elements: usize) -> (buffers: Self)
        ensures
            buffers@.num_elements == num_elements,
    {
        Buffers {
            num_elements,
            vertices: Ghost(arbitrary()),
            elements: Ghost(arbitrary()),
            _phantom: PhantomData,
        }
    }

    /// How many elements a draw call reads from the element buffer.
    pub fn num_elements(&self) -> (n: usize)
        ensures
            n == self@.num_elements,
    {
        self.num_elements
    }
}

/// The six elements of a quad whose first vertex has index `first`: the
/// triangles (0, 1, 2) and (2, 3, 0), counted from that vertex.
pub open spec fn quad_elements(first: u32) -> Seq<u32>
    recommends
        first + 3 <= u32::MAX,
{
    seq![
        first,
        (first + 1) as u32,
        (first + 2) as u32,
        (first + 2) as u32,
        (first + 3) as u32,
        first,
    ]
}

/// What a [`Batch`] stands for.
pub struct Geometry {
    /// How the elements are read.
    pub geometry_mode: GeometryMode,
    /// The vertices, flattened: the words of the first, then of the second,
    /// and so on.
    pub vertices: Seq<u32>,
    /// The element indices.
    pub elements: Seq<u32>,
    /// How many vertices were pushed.
    pub num_vertices: nat,
    /// Whether anything changed since the last flush.
    pub dirty: bool,
    /// What the GPU buffers hold.
    pub buffers: BufferContents,
}

impl Geometry {
    /// The geometry of a new batch.
    pub open spec fn empty(geometry_mode: GeometryMode) -> Geometry {
        Geometry {
            geometry_mode,
            vertices: Seq::empty(),
            elements: Seq::empty(),
            num_vertices: 0,
            dirty: false,
            buffers: BufferContents::empty(),
        }
    }

    /// Whether the GPU buffers hold what the CPU arrays hold.
    pub open spec fn in_sync(self) -> bool {
        &&& self.buffers.vertices == self.vertices
        &&& self.buffers.elements == self.elements
        &&& self.buffers.num_elements == self.elements.len()
    }

    /// The invariant of a batch whose vertices take `stride` words each: the
    /// vertex array is as long as its vertices are wide, and a batch that is
    /// not dirty is in sync with its buffers.
    pub open spec fn wf(self, stride: nat) -> bool {
        &&& self.vertices.len() == self.num_vertices * stride
        &&& !self.dirty ==> self.in_sync()
    }

    /// Whether every element is the index of a vertex of the batch.
    pub open spec fn elements_in_range(self) -> bool {
        forall|i: int| 0 <= i < self.elements.len() ==> self.elements[i] < self.num_vertices
    }

    /// The geometry after a vertex with the given words was pushed.
    pub open spec fn push_vertex(self, words: Seq<u32>) -> Geometry {
        Geometry {
            vertices: self.vertices + words,
            num_vertices: self.num_vertices + 1,
            dirty: true,
            ..self
        }
    }

    /// The geometry after an element was pushed.
    pub open spec fn push_element(self, element: u32) -> Geometry {
        Geometry { elements: self.elements.push(element), dirty: true, ..self }
    }

    /// The geometry after a quad with the four given vertices was pushed:
    /// the vertices in their order, and the six elements that make two
    /// triangles of them.
    pub open spec fn push_quad(self, a: Seq<u32>, b: Seq<u32>, c: Seq<u32>, d: Seq<u32>) -> Geometry
        recommends
            self.num_vertices + 3 <= u32::MAX,
    {
        Geometry {
            vertices: self.vertices + a + b + c + d,
            elements: self.elements + quad_elements(self.num_vertices as u32),
            num_vertices: self.num_vertices + 4,
            dirty: true,
            ..self
        }
    }

    /// The geometry after `clear`: no elements; the vertices stay.
    pub open spec fn clear(self) -> Geometry {
        Geometry { elements: Seq::empty(), dirty: true, ..self }
    }

    /// What a flush asks for.
    pub open spec fn flush_action(self) -> FlushAction {
        if self.dirty {
            FlushAction::Upload
        } else {
            FlushAction::Nothing
        }
    }

    /// The geometry after a flush and the upload it asked for, if any.
    pub open spec fn flush(self) -> Geometry {
        if self.dirty {
            Geometry {
                dirty: false,
                buffers: BufferContents {
                    vertices: self.vertices,
                    elements: self.elements,
                    num_elements: self.elements.len(),
                },
                ..self
            }
        } else {
            self
        }
    }
}

/// A second flush right after a flush asks for no upload and changes
/// nothing.
pub proof fn lemma_flush_idempotent(geometry: Geometry)
    ensures
        geometry.flush().flush_action() == FlushAction::Nothing,
        geometry.flush().flush() == geometry.flush(),
{
}

/// After a flush the buffers hold what the batch holds.
pub proof fn lemma_flush_syncs(geometry: Geometry, stride: nat)
    requires
        geometry.wf(stride),
    ensures
        geometry.flush().wf(stride),
        geometry.flush().in_sync(),
        geometry.flush().vertices == geometry.vertices,
        geometry.flush().elements == geometry.elements,
{
}

/// After a push, the first flush asks for one upload and the second for
/// none.
pub proof fn lemma_one_upload_per_change(geometry: Geometry, words: Seq<u32>, element: u32)
    ensures
        geometry.push_vertex(words).flush_action() == FlushAction::Upload,
        geometry.push_vertex(words).flush().flush_action() == FlushAction::Nothing,
        geometry.push_element(element).flush_action() == FlushAction::Upload,
        geometry.push_element(element).flush().flush_action() == FlushAction::Nothing,
        geometry.clear().flush_action() == FlushAction::Upload,
        geometry.clear().flush().flush_action() == FlushAction::Nothing,
{
}

/// Nothing that is done to a batch changes how its elements are read.
pub proof fn lemma_geometry_mode_is_fixed(
    geometry: Geometry,
    a: Seq<u32>,
    b: Seq<u32>,
    c: Seq<u32>,
    d: Seq<u32>,
    element: u32,
)
    ensures
        geometry.push_vertex(a).geometry_mode == geometry.geometry_mode,
        geometry.push_element(element).geometry_mode == geometry.geometry_mode,
        geometry.push_quad(a, b, c, d).geometry_mode == geometry.geometry_mode,
        geometry.clear().geometry_mode == geometry.geometry_mode,
        geometry.flush().geometry_mode == geometry.geometry_mode,
{
}

/// A quad brings its own vertices: if every element was the index of a
/// vertex before, every element is so after.
pub proof fn lemma_push_quad_in_range(
    geometry: Geometry,
    a: Seq<u32>,
    b: Seq<u32>,
    c: Seq<u32>,
    d: Seq<u32>,
)
    requires
        geometry.elements_in_range(),
        geometry.num_vertices + 3 <= u32::MAX,
    ensures
        geometry.push_quad(a, b, c, d).elements_in_range(),
{
}

/// Only `push_element` can bring in an element that is not the index of a
/// vertex, and it does so exactly when it is given one: pushing a vertex and
/// flushing keep the elements in range, and clearing leaves none.
pub proof fn lemma_elements_stay_in_range(geometry: Geometry, words: Seq<u32>, element: u32)
    requires
        geometry.elements_in_range(),
    ensures
        geometry.push_vertex(words).elements_in_range(),
        geometry.flush().elements_in_range(),
        geometry.clear().elements_in_range(),
        geometry.push_element(element).elements_in_range() <==> element < geometry.num_vertices,
{
    let pushed = geometry.push_element(element);
    if pushed.elements_in_range() {
        assert(pushed.elements[geometry.elements.len() as int] == element);
    }
}

/// A quad is what pushing its four vertices and then its six elements
/// gives.
pub proof fn lemma_push_quad_is_pushes(
    geometry: Geometry,
    a: Seq<u32>,
    b: Seq<u32>,
    c: Seq<u32>,
    d: Seq<u32>,
)
    requires
        geometry.num_vertices + 3 <= u32::MAX,
    ensures
        geometry.push_quad(a, b, c, d) == geometry.push_vertex(a).push_vertex(b).push_vertex(
            c,
        ).push_vertex(d).push_element(geometry.num_vertices as u32).push_element(
            (geometry.num_vertices + 1) as u32,
        ).push_element((geometry.num_vertices + 2) as u32).push_element(
            (geometry.num_vertices + 2) as u32,
        ).push_element((geometry.num_vertices + 3) as u32).push_element(
            geometry.num_vertices as u32,
        ),
{
    let first = geometry.num_vertices as u32;
    let pushed = geometry.push_vertex(a).push_vertex(b).push_vertex(c).push_vertex(d).push_element(
        first,
    ).push_element((first + 1) as u32).push_element((first + 2) as u32).push_element(
        (first + 2) as u32,
    ).push_element((first + 3) as u32).push_element(first);
    assert(pushed.elements =~= geometry.elements + quad_elements(first));
}

/// The geometry of one draw call.
pub struct Batch<V> {
    geometry_mode: GeometryMode,
    vertices: Vec<u32>,
    elements: Vec<u32>,
    num_vertices: usize,
    buffers: Buffers<V>,
    is_dirty: bool,
    _phantom: PhantomData<V>,
}

/// A batch of the textured, colored quads that text is drawn with.
pub type TextBatch = Batch<TexColVertex>;

impl<V> View for Batch<V> {
    type V = Geometry;

    closed spec fn view(&self) -> Geometry {
        Geometry {
            geometry_mode: self.geometry_mode,
            vertices: self.vertices@,
            elements: self.elements@,
            num_vertices: self.num_vertices as nat,
            dirty: self.is_dirty,
            buffers: self.buffers@,
        }
    }
}

impl<V: Vertex> Batch<V> {
    /// The invariant of a batch.
    pub open spec fn wf(&self) -> bool {
        self@.wf(V::stride())
    }

    /// An empty batch of triangles.
    pub fn new_triangles() -> (batch: Self)
        ensures
            batch.wf(),
            batch@ == Geometry::empty(GeometryMode::Triangles),
    {
        Self::new(GeometryMode::Triangles)
    }

    /// An empty batch, made as `new_triangles` makes it: its elements are
    /// read as triangles.
    pub fn new_lines() -> (batch: Self)
        ensures
            batch.wf(),
            batch@ == Geometry::empty(GeometryMode::Triangles),
    {
        Self::new(GeometryMode::Triangles)
    }

    /// An empty batch whose buffers are empty too, so it is not dirty.
    pub fn new(geometry_mode: GeometryMode) -> (batch: Self)
        ensures
            batch.wf(),
            batch@ == Geometry::empty(geometry_mode),
    {
        Batch {
            geometry_mode,
            vertices: Vec::new(),
            elements: Vec::new(),
            num_vertices: 0,
            buffers: Buffers::new(),
            is_dirty: false,
            _phantom: PhantomData,
        }
    }

    /// How the elements are read. It is fixed when the batch is made.
    pub fn geometry_mode(&self) -> (mode: GeometryMode)
        ensures
            mode == self@.geometry_mode,
    {
        self.geometry_mode
    }

    /// How many vertices the batch holds.
    pub fn num_vertices(&self) -> (n: usize)
        ensures
            n == self@.num_vertices,
    {
        self.num_vertices
    }

    /// How many elements the batch holds.
    pub fn num_elements(&self) -> (n: usize)
        ensures
            n == self@.elements.len(),
    {
        self.elements.len()
    }

    /// Whether anything was pushed or cleared since the last flush.
    pub fn is_dirty(&self) -> (dirty: bool)
        ensures
            dirty == self@.dirty,
    {
        self.is_dirty
    }

    /// The vertex array: what an upload writes to the vertex buffer.
    pub fn vertices(&self) -> (words: &[u32])
        ensures
            words@ == self@.vertices,
    {
        self.vertices.as_slice()
    }

    /// The element array: what an upload writes to the element buffer.
    pub fn elements(&self) -> (elements: &[u32])
        ensures
            elements@ == self@.elements,
    {
        self.elements.as_slice()
    }

    /// Drops the elements and marks the batch dirty. The vertices stay.
    pub fn clear(&mut self)
        requires
            old(self).wf(),
        ensures
            final(self).wf(),
            final(self)@ == old(self)@.clear(),
    {
        self.elements.clear();
        self.is_dirty = true;
    }

    /// Appends an index and marks the batch dirty. The index is not
    /// checked: that it names a vertex of the batch is up to the caller.
    pub fn push_element(&mut self, element: u32)
        requires
            old(self).wf(),
        ensures
            final(self).wf(),
            final(self)@ == old(self)@.push_element(element),
    {
        self.elements.push(element);
        self.is_dirty = true;
    }

    /// Appends the words of a vertex and marks the batch dirty.
    pub fn push_vertex(&mut self, vertex: &V)
        requires
            old(self).wf(),
        ensures
            final(self).wf(),
            final(self)@ == old(self)@.push_vertex(vertex.words()),
    {
        vertex.append(&mut self.vertices);
        proof {
            vertex.lemma_stride();
            let n = old(self).num_vertices as int;
            let stride = V::stride() as int;
            assert(n * stride + stride == (n + 1) * stride) by (nonlinear_arith);
            assert(n + 1 <= (n + 1) * stride) by (nonlinear_arith)
                requires
                    stride >= 1,
                    n >= 0,
            ;
            assert(self.vertices@.len() == (n + 1) * stride);
            assert(self.vertices@.len() == self.vertices.len() <= usize::MAX);
        }
        self.num_vertices = self.num_vertices + 1;
        self.is_dirty = true;
    }

    /// Brings the buffers up to date. If the batch is dirty, the caller is
    /// to upload the vertex array and the element array, whole; the record
    /// of the buffers takes the element count and the batch is clean. If it
    /// is not dirty, nothing is asked and nothing changes.
    pub fn flush(&mut self) -> (action: FlushAction)
        requires
            old(self).wf(),
        ensures
            final(self).wf(),
            action == old(self)@.flush_action(),
            final(self)@ == old(self)@.flush(),
    {
        if self.is_dirty {
            self.buffers.vertices = Ghost(self.vertices@);
            self.buffers.elements = Ghost(self.elements@);
            self.buffers.num_elements = self.elements.len();
            self.is_dirty = false;
            FlushAction::Upload
        } else {
            FlushAction::Nothing
        }
    }

    /// The record of the GPU buffers, for the draw call.
    pub fn buffers(&self) -> (buffers: &Buffers<V>)
        ensures
            buffers@ == self@.buffers,
    {
        &self.buffers
    }

    /// Appends four vertices and the six elements that make the triangles
    /// (0, 1, 2) and (2, 3, 0) of them.
    fn push_quad_vertices(&mut self, vertices: &[V; 4])
        requires
            old(self).wf(),
            old(self)@.num_vertices + 3 <= u32::MAX,
        ensures
            final(self).wf(),
            final(self)@ == old(self)@.push_quad(
                vertices[0].words(),
                vertices[1].words(),
                vertices[2].words(),
                vertices[3].words(),
            ),
    {
        let first = self.num_vertices as u32;
        let mut i: usize = 0;
        while i < 4
            invariant
                i <= 4,
                self.wf(),
                self@ == (Geometry {
                    vertices: old(self)@.vertices + first_words(vertices@, i as int),
                    num_vertices: (old(self)@.num_vertices + i) as nat,
                    dirty: old(self)@.dirty || i > 0,
                    ..old(self)@
                }),
            decreases 4 - i,
        {
            self.push_vertex(&vertices[i]);
            i += 1;
            assert(self@.vertices =~= old(self)@.vertices + first_words(vertices@, i as int));
        }
        assert(self@.vertices =~= old(self)@.vertices + vertices[0].words() + vertices[1].words()
            + vertices[2].words() + vertices[3].words());
        self.elements.push(first);
        self.elements.push(first + 1);
        self.elements.push(first + 2);
        self.elements.push(first + 2);
        self.elements.push(first + 3);
        self.elements.push(first);
        assert(self.elements@ =~= old(self).elements@ + quad_elements(first));
    }
}

/// The words of the first `n` of four vertices, one vertex after the other.
spec fn first_words<V: Vertex>(vertices: Seq<V>, n: int) -> Seq<u32> {
    if n <= 0 {
        Seq::empty()
    } else if n == 1 {
        vertices[0].words()
    } else if n == 2 {
        vertices[0].words() + vertices[1].words()
    } else if n == 3 {
        vertices[0].words() + vertices[1].words() + vertices[2].words()
    } else {
        vertices[0].words() + vertices[1].words() + vertices[2].words() + vertices[3].words()
    }
}

impl Batch<ColorVertex> {
    /// Appends a quad in one color: a vertex for each corner, in the order
    /// of the corners, and six elements that make the triangles (0, 1, 2) and
    /// (2, 3, 0) of them.
    ///
    /// The batch must be one of triangles, and the indices of the new
    /// vertices must fit an element.
    pub fn push_quad(&mut self, quad: &Quad, color: Color)
        requires
            old(self).wf(),
            old(self)@.geometry_mode == GeometryMode::Triangles,
            old(self)@.num_vertices + 3 <= u32::MAX,
        ensures
            final(self).wf(),
            final(self)@ == old(self)@.push_quad(
                quad.color_vertex(0, color).words(),
                quad.color_vertex(1, color).words(),
                quad.color_vertex(2, color).words(),
                quad.color_vertex(3, color).words(),
            ),
    {
        let vertices = [
            Self::corner_vertex(quad, 0, color),
            Self::corner_vertex(quad, 1, color),
            Self::corner_vertex(quad, 2, color),
            Self::corner_vertex(quad, 3, color),
        ];
        self.push_quad_vertices(&vertices);
    }

    fn corner_vertex(quad: &Quad, i: usize, color: Color) -> (vertex: ColorVertex)
        requires
            i < 4,
        ensures
            vertex == quad.color_vertex(i as int, color),
    {
        let corner = quad.corners[i];
        ColorVertex { world_pos: Point3::new(corner.x, corner.y, quad.z), color }
    }
}

impl Batch<TexColVertex> {
    /// Appends a textured quad in one color: a vertex for each corner, in
    /// the order of the corners, each with the corner of `uv_rect` that has
    /// its number, and six elements that make the triangles (0, 1, 2) and
    /// (2, 3, 0) of them.
    ///
    /// The batch must be one of triangles, and the indices of the new
    /// vertices must fit an element.
    pub fn push_quad(&mut self, quad: &Quad, uv_rect: AaRect, color: Color)
        requires
            old(self).wf(),
            old(self)@.geometry_mode == GeometryMode::Triangles,
            old(self)@.num_vertices + 3 <= u32::MAX,
        ensures
            final(self).wf(),
            final(self)@ == old(self)@.push_quad(
                quad.tex_col_vertex(0, uv_rect, color).words(),
                quad.tex_col_vertex(1, uv_rect, color).words(),
                quad.tex_col_vertex(2, uv_rect, color).words(),
                quad.tex_col_vertex(3, uv_rect, color).words(),
            ),
    {
        let vertices = [
            Self::corner_vertex(quad, 0, uv_rect, color),
            Self::corner_vertex(quad, 1, uv_rect, color),
            Self::corner_vertex(quad, 2, uv_rect, color),
            Self::corner_vertex(quad, 3, uv_rect, color),
        ];
        self.push_quad_vertices(&vertices);
    }

    fn corner_vertex(quad: &Quad, i: usize, uv_rect: AaRect, color: Color) -> (vertex: TexColVertex)
        requires
            i < 4,
        ensures
            vertex == quad.tex_col_vertex(i as int, uv_rect, color),
    {
        let corner = quad.corners[i];
        TexColVertex {
            world_pos: Point3::new(corner.x, corner.y, quad.z),
            tex_coords: uv_rect.corner(i),
            color,
        }
    }
}

} // verus!
