//! A shelf packer: append-only allocation of rectangles in a texture of fixed
//! size.
//!
//! Rectangles are placed from left to right on a horizontal shelf. When one
//! does not fit in what is left of the shelf, a new shelf is opened below the
//! tallest rectangle of the current one. Nothing is ever freed.

use vstd::prelude::*;

verus! {

/// The atlas has no room left for a rectangle.
#[derive(Clone, Copy, Debug, PartialEq, Eq, Structural)]
pub struct AtlasFullError;

/// One texel: red, green, blue, alpha.
#[derive(Clone, Copy, Debug, PartialEq, Eq, Structural)]
pub struct Rgba {
    pub r: u8,
    pub g: u8,
    pub b: u8,
    pub a: u8,
}

/// A rectangle of texels, by its top left corner and its size.
#[derive(Clone, Copy, Debug, PartialEq, Eq, Structural)]
pub struct AtlasRect {
    pub x: usize,
    pub y: usize,
    pub width: usize,
    pub height: usize,
}

impl AtlasRect {
    /// Whether the texel in column `x` and row `y` belongs to the rectangle.
    pub open spec fn covers(self, x: int, y: int) -> bool {
        self.x <= x < self.x + self.width && self.y <= y < self.y + self.height
    }

    /// Whether the two rectangles have no texel in common.
    pub open spec fn disjoint(self, other: AtlasRect) -> bool {
        forall|x: int, y: int| !(#[trigger] self.covers(x, y) && other.covers(x, y))
    }

    /// Whether the rectangle lies inside a texture `width` wide and `height`
    /// high.
    pub open spec fn within(self, width: nat, height: nat) -> bool {
        self.x + self.width <= width && self.y + self.height <= height
    }
}

/// The texel in column `i` and row `j` of a bitmap of RGBA bytes, stored row
/// by row, `width` texels to a row.
pub open spec fn bitmap_texel(pixels: Seq<u8>, width: nat, i: int, j: int) -> Rgba {
    let k = 4 * (j * width + i);
    Rgba { r: pixels[k], g: pixels[k + 1], b: pixels[k + 2], a: pixels[k + 3] }
}

/// The arguments of one insertion.
pub struct Insertion {
    /// The bitmap, RGBA, row by row.
    pub pixels: Seq<u8>,
    /// Its width in texels.
    pub width: usize,
    /// Its height in texels.
    pub height: usize,
}

/// What a [`ShelfPacker`] stands for: the shelf it is filling, the rectangles
/// it has handed out, and the texels of its texture.
pub struct Atlas {
    /// Width of the texture.
    pub width: nat,
    /// Height of the texture.
    pub height: nat,
    /// Top row of the current shelf.
    pub shelf_y: nat,
    /// Height of the tallest rectangle on the current shelf.
    pub shelf_height: nat,
    /// First free column of the current shelf.
    pub cursor_x: nat,
    /// The rectangles handed out so far, oldest first.
    pub allocated: Seq<AtlasRect>,
    /// The bitmap that went into each of them.
    pub bitmaps: Seq<Seq<u8>>,
    /// The texture, texel by texel, once every write that `insert` asked for
    /// has been made.
    pub texels: Map<(int, int), Rgba>,
}

impl Atlas {
    /// The atlas of a new packer: nothing allocated, every texel zero.
    pub open spec fn empty(width: nat, height: nat) -> Atlas {
        Atlas {
            width,
            height,
            shelf_y: 0,
            shelf_height: 0,
            cursor_x: 0,
            allocated: Seq::empty(),
            bitmaps: Seq::empty(),
            texels: Map::new(
                |p: (int, int)| 0 <= p.0 < width && 0 <= p.1 < height,
                |p: (int, int)| Rgba { r: 0, g: 0, b: 0, a: 0 },
            ),
        }
    }

    /// Whether a rectangle `width` wide fits in what is left of the current
    /// shelf.
    pub open spec fn fits_on_shelf(self, width: nat) -> bool {
        self.cursor_x + width <= self.width
    }

    /// Column in which the next rectangle `width` wide starts.
    pub open spec fn slot_x(self, width: nat) -> nat {
        if self.fits_on_shelf(width) {
            self.cursor_x
        } else {
            0
        }
    }

    /// Row in which the next rectangle `width` wide starts: the current
    /// shelf, or a new one right below it.
    pub open spec fn slot_y(self, width: nat) -> nat {
        if self.fits_on_shelf(width) {
            self.shelf_y
        } else {
            self.shelf_y + self.shelf_height
        }
    }

    /// Whether a rectangle of this size can still be placed.
    pub open spec fn has_room(self, width: nat, height: nat) -> bool {
        width <= self.width && self.slot_y(width) + height <= self.height
    }

    /// The rectangle that an insertion of this size returns.
    pub open spec fn slot(self, width: usize, height: usize) -> AtlasRect
        recommends
            self.wf(),
            self.has_room(width as nat, height as nat),
    {
        AtlasRect {
            x: self.slot_x(width as nat) as usize,
            y: self.slot_y(width as nat) as usize,
            width,
            height,
        }
    }

    /// The atlas after `pixels` went into a rectangle of this size.
    pub open spec fn insert(self, pixels: Seq<u8>, width: usize, height: usize) -> Atlas
        recommends
            self.wf(),
            self.has_room(width as nat, height as nat),
    {
        let rect = self.slot(width, height);
        Atlas {
            width: self.width,
            height: self.height,
            shelf_y: self.slot_y(width as nat),
            shelf_height: if self.fits_on_shelf(width as nat) && height <= self.shelf_height {
                self.shelf_height
            } else {
                height as nat
            },
            cursor_x: (self.slot_x(width as nat) + width) as nat,
            allocated: self.allocated.push(rect),
            bitmaps: self.bitmaps.push(pixels),
            texels: Map::new(
                |p: (int, int)| self.texels.dom().contains(p),
                |p: (int, int)|
                    if rect.covers(p.0, p.1) {
                        bitmap_texel(pixels, width as nat, p.0 - rect.x, p.1 - rect.y)
                    } else {
                        self.texels[p]
                    },
            ),
        }
    }

    /// What an insertion of this size returns: the rectangle, or that the
    /// atlas is full.
    pub open spec fn placed(self, width: usize, height: usize) -> Result<AtlasRect, AtlasFullError> {
        if self.has_room(width as nat, height as nat) {
            Ok(self.slot(width, height))
        } else {
            Err(AtlasFullError)
        }
    }

    /// The atlas after one insertion was tried: changed if there was room,
    /// else as it was.
    pub open spec fn step(self, pixels: Seq<u8>, width: usize, height: usize) -> Atlas {
        if self.has_room(width as nat, height as nat) {
            self.insert(pixels, width, height)
        } else {
            self
        }
    }

    /// The atlas that a new texture of the given size becomes when the given
    /// insertions are tried on it, in order.
    pub open spec fn after(width: nat, height: nat, tried: Seq<Insertion>) -> Atlas
        decreases tried.len(),
    {
        if tried.len() == 0 {
            Atlas::empty(width, height)
        } else {
            let last = tried.last();
            Atlas::after(width, height, tried.drop_last()).step(
                last.pixels,
                last.width,
                last.height,
            )
        }
    }

    /// A rectangle that is out of the way of every later one: it ends above
    /// the current shelf, or stands on it left of the cursor.
    pub open spec fn settled(self, rect: AtlasRect) -> bool {
        ||| rect.y + rect.height <= self.shelf_y
        ||| (rect.y == self.shelf_y && rect.x + rect.width <= self.cursor_x && rect.height
            <= self.shelf_height)
    }

    /// The invariant of an atlas.
    pub open spec fn wf(self) -> bool {
        &&& self.width <= usize::MAX
        &&& self.height <= usize::MAX
        &&& self.cursor_x <= self.width
        &&& self.shelf_y + self.shelf_height <= self.height
        &&& forall|p: (int, int)|
            self.texels.dom().contains(p) <==> (0 <= p.0 < self.width && 0 <= p.1 < self.height)
        &&& forall|i: int|
            0 <= i < self.allocated.len() ==> {
                &&& (#[trigger] self.allocated[i]).within(self.width, self.height)
                &&& self.settled(self.allocated[i])
            }
        &&& forall|i: int, j: int|
            0 <= i < j < self.allocated.len() ==> (#[trigger] self.allocated[i]).disjoint(
                #[trigger] self.allocated[j],
            )
        &&& self.bitmaps.len() == self.allocated.len()
        &&& forall|i: int, x: int, y: int|
            0 <= i < self.allocated.len() && #[trigger] self.allocated[i].covers(x, y)
                ==> self.holds(i, x, y)
    }

    /// Whether texel (`x`, `y`) of the texture is the one that the `i`-th
    /// bitmap has for that place.
    pub open spec fn holds(self, i: int, x: int, y: int) -> bool {
        let rect = self.allocated[i];
        self.texels[(x, y)] == bitmap_texel(
            self.bitmaps[i],
            rect.width as nat,
            x - rect.x,
            y - rect.y,
        )
    }
}

/// Any two rectangles that an atlas has handed out have no texel in common,
/// and each lies inside the texture.
pub proof fn lemma_allocations_disjoint(atlas: Atlas, i: int, j: int)
    requires
        atlas.wf(),
        0 <= i < atlas.allocated.len(),
        0 <= j < atlas.allocated.len(),
        i != j,
    ensures
        atlas.allocated[i].disjoint(atlas.allocated[j]),
        atlas.allocated[i].within(atlas.width, atlas.height),
        atlas.allocated[j].within(atlas.width, atlas.height),
{
    if i < j {
        assert(atlas.allocated[i].disjoint(atlas.allocated[j]));
    } else {
        assert(atlas.allocated[j].disjoint(atlas.allocated[i]));
    }
}

/// Inserting where there is room keeps the invariant, so whatever sequence of
/// insertions led to an atlas, its rectangles are disjoint and inside it.
pub proof fn lemma_insert_keeps_wf(atlas: Atlas, pixels: Seq<u8>, width: usize, height: usize)
    requires
        atlas.wf(),
        atlas.has_room(width as nat, height as nat),
    ensures
        atlas.insert(pixels, width, height).wf(),
        atlas.slot(width, height).within(atlas.width, atlas.height),
        forall|i: int|
            0 <= i < atlas.allocated.len() ==> (#[trigger] atlas.allocated[i]).disjoint(
                atlas.slot(width, height),
            ),
{
    let rect = atlas.slot(width, height);
    let next = atlas.insert(pixels, width, height);
    assert forall|i: int| 0 <= i < atlas.allocated.len() implies (#[trigger] atlas.allocated[i]).disjoint(
        rect,
    ) by {
        assert(atlas.settled(atlas.allocated[i]));
    }
    assert forall|i: int| 0 <= i < next.allocated.len() implies {
        &&& (#[trigger] next.allocated[i]).within(next.width, next.height)
        &&& next.settled(next.allocated[i])
    } by {
        if i < atlas.allocated.len() {
            assert(next.allocated[i] == atlas.allocated[i]);
            assert(atlas.settled(atlas.allocated[i]));
        }
    }
    assert forall|i: int, j: int| 0 <= i < j < next.allocated.len() implies (
    #[trigger] next.allocated[i]).disjoint(#[trigger] next.allocated[j]) by {
        assert(next.allocated[i] == atlas.allocated[i]);
        if j < atlas.allocated.len() {
            assert(next.allocated[j] == atlas.allocated[j]);
        }
    }
}

/// Nothing is ever freed or moved: an insertion, whether it finds room or
/// not, leaves every rectangle that was handed out before where it was, and
/// the texture as large as it was.
pub proof fn lemma_step_keeps_allocations(atlas: Atlas, pixels: Seq<u8>, width: usize, height: usize)
    ensures
        atlas.allocated.is_prefix_of(atlas.step(pixels, width, height).allocated),
        atlas.step(pixels, width, height).width == atlas.width,
        atlas.step(pixels, width, height).height == atlas.height,
{
}

/// Whatever insertions are tried on a new atlas, and whichever of them
/// succeed, the atlas keeps its invariant.
pub proof fn lemma_after_wf(width: nat, height: nat, tried: Seq<Insertion>)
    requires
        width <= usize::MAX,
        height <= usize::MAX,
    ensures
        Atlas::after(width, height, tried).wf(),
    decreases tried.len(),
{
    if tried.len() > 0 {
        let last = tried.last();
        let before = Atlas::after(width, height, tried.drop_last());
        lemma_after_wf(width, height, tried.drop_last());
        if before.has_room(last.width as nat, last.height as nat) {
            lemma_insert_keeps_wf(before, last.pixels, last.width, last.height);
        }
    }
}

/// No insertion changes the size of the texture.
pub proof fn lemma_after_keeps_size(width: nat, height: nat, tried: Seq<Insertion>)
    ensures
        Atlas::after(width, height, tried).width == width,
        Atlas::after(width, height, tried).height == height,
    decreases tried.len(),
{
    if tried.len() > 0 {
        lemma_after_keeps_size(width, height, tried.drop_last());
    }
}

/// Whatever insertions are tried on a new atlas, the rectangles returned by
/// those that succeed are disjoint from one another, and each lies inside the
/// texture.
pub proof fn lemma_returned_rects_disjoint(
    width: nat,
    height: nat,
    tried: Seq<Insertion>,
    i: int,
    j: int,
)
    requires
        width <= usize::MAX,
        height <= usize::MAX,
        0 <= i < Atlas::after(width, height, tried).allocated.len(),
        0 <= j < Atlas::after(width, height, tried).allocated.len(),
        i != j,
    ensures
        Atlas::after(width, height, tried).allocated[i].disjoint(
            Atlas::after(width, height, tried).allocated[j],
        ),
        Atlas::after(width, height, tried).allocated[i].within(width, height),
        Atlas::after(width, height, tried).allocated[j].within(width, height),
{
    lemma_after_wf(width, height, tried);
    lemma_after_keeps_size(width, height, tried);
    lemma_allocations_disjoint(Atlas::after(width, height, tried), i, j);
}

/// Whatever insertions are tried on a new atlas, the texture holds the bitmap
/// of each one that succeeded, texel for texel, in the rectangle returned for
/// it: no later insertion writes over it.
pub proof fn lemma_texture_holds_bitmaps(
    width: nat,
    height: nat,
    tried: Seq<Insertion>,
    i: int,
    x: int,
    y: int,
)
    requires
        width <= usize::MAX,
        height <= usize::MAX,
        0 <= i < Atlas::after(width, height, tried).allocated.len(),
        Atlas::after(width, height, tried).allocated[i].covers(x, y),
    ensures
        Atlas::after(width, height, tried).holds(i, x, y),
{
    lemma_after_wf(width, height, tried);
}

/// Bin packer over a texture of fixed size.
///
/// The packer keeps the books; the texture itself belongs to the caller, who
/// writes each bitmap into the rectangle that [`ShelfPacker::insert`] returns
/// for it.
pub struct ShelfPacker {
    width: usize,
    height: usize,
    shelf_y: usize,
    shelf_height: usize,
    cursor_x: usize,
    allocated: Ghost<Seq<AtlasRect>>,
    bitmaps: Ghost<Seq<Seq<u8>>>,
    texels: Ghost<Map<(int, int), Rgba>>,
}

impl View for ShelfPacker {
    type V = Atlas;

    closed spec fn view(&self) -> Atlas {
        Atlas {
            width: self.width as nat,
            height: self.height as nat,
            shelf_y: self.shelf_y as nat,
            shelf_height: self.shelf_height as nat,
            cursor_x: self.cursor_x as nat,
            allocated: self.allocated@,
            bitmaps: self.bitmaps@,
            texels: self.texels@,
        }
    }
}

impl ShelfPacker {
    /// The invariant of a packer.
    pub open spec fn wf(&self) -> bool {
        self@.wf()
    }

    /// A packer for an empty, zeroed texture of the given size.
    pub fn new(width: usize, height: usize) -> (packer: Self)
        ensures
            packer.wf(),
            packer@ == Atlas::empty(width as nat, height as nat),
    {
        ShelfPacker {
            width,
            height,
            shelf_y: 0,
            shelf_height: 0,
            cursor_x: 0,
            allocated: Ghost(Seq::empty()),
            bitmaps: Ghost(Seq::empty()),
            texels: Ghost(Atlas::empty(width as nat, height as nat).texels),
        }
    }

    /// Width of the texture.
    pub fn width(&self) -> (width: usize)
        ensures
            width == self@.width,
    {
        self.width
    }

    /// Height of the texture.
    pub fn height(&self) -> (height: usize)
        ensures
            height == self@.height,
    {
        self.height
    }

    /// Rows of the texture that are taken: everything above the bottom of the
    /// current shelf.
    pub fn used_height(&self) -> (rows: usize)
        requires
            self.wf(),
        ensures
            rows == self@.shelf_y + self@.shelf_height,
    {
        self.shelf_y + self.shelf_height
    }

    /// Finds room for a bitmap of `width` by `height` texels, RGBA, stored
    /// row by row in `pixels`.
    ///
    /// The rectangle goes on the current shelf if it fits in the remaining
    /// width, else at the start of a new shelf. If it is wider than the
    /// texture, or would reach below its last row, the atlas is full and
    /// nothing changes. On success the caller owes the texture one write: of
    /// `pixels` into the rectangle returned.
    pub fn insert(&mut self, pixels: &[u8], width: usize, height: usize) -> (placed: Result<
        AtlasRect,
        AtlasFullError,
    >)
        requires
            old(self).wf(),
            pixels@.len() >= 4 * width * height,
        ensures
            final(self).wf(),
            placed == old(self)@.placed(width, height),
            final(self)@ == old(self)@.step(pixels@, width, height),
    {
        if width > self.width {
            return Err(AtlasFullError);
        }
        let fits = width <= self.width - self.cursor_x;
        let x: usize = if fits {
            self.cursor_x
        } else {
            0
        };
        let y: usize = if fits {
            self.shelf_y
        } else {
            self.shelf_y + self.shelf_height
        };
        if height > self.height - y {
            return Err(AtlasFullError);
        }
        let rect = AtlasRect { x, y, width, height };
        proof {
            lemma_insert_keeps_wf(self@, pixels@, width, height);
        }
        let ghost next = self@.insert(pixels@, width, height);
        if !fits || height > self.shelf_height {
            self.shelf_height = height;
        }
        self.shelf_y = y;
        self.cursor_x = x + width;
        self.allocated = Ghost(next.allocated);
        self.bitmaps = Ghost(next.bitmaps);
        self.texels = Ghost(next.texels);
        Ok(rect)
    }
}

} // verus!
