//! The glyph store of a font: which glyphs have been rasterized, and where in
//! the atlas each of them lives.
//!
//! Text is drawn glyph by glyph. For each glyph that a layout engine has
//! positioned, [`Font::write`] decides what is to be done: nothing, a quad
//! from the cache, or a rasterization first. The caller rasterizes and hands
//! the coverage bitmap to [`Font::cache_glyph`], which expands it to RGBA,
//! finds room in the atlas and remembers the place. An entry, once made,
//! stays as it is for the life of the font.

use crate::draw::text::packer::{bitmap_texel, Atlas, AtlasFullError, AtlasRect, Rgba, ShelfPacker};
use crate::scalar::Scalar;
use std::collections::HashMap;
use vstd::prelude::*;

verus! {

broadcast use vstd::std_specs::hash::group_hash_axioms;

/// Width of the atlas of every font.
pub const ATLAS_WIDTH: usize = 512;

/// Height of the atlas of every font.
pub const ATLAS_HEIGHT: usize = 256;

/// What tells one rasterized bitmap from every other.
#[derive(Clone, Copy, Debug, PartialEq, Eq, Structural)]
pub struct RasterKey {
    /// Hash of the font file.
    pub font_hash: usize,
    /// Index of the glyph in the font.
    pub glyph_index: u16,
    /// Size in pixels, as the bit pattern of a 32-bit float.
    pub px_bits: u32,
    /// Bucket of the fractional offset at which the glyph is rasterized.
    pub subpixel: u8,
}

impl RasterKey {
    /// The four fields in one number: they take 64, 32, 16 and 8 bits of it.
    spec fn packed(self) -> u128 {
        (self.font_hash * 0x100_0000_0000_0000 + self.px_bits * 0x100_0000 + self.glyph_index
            * 0x100 + self.subpixel) as u128
    }

    /// Different keys pack to different numbers.
    proof fn lemma_packed_injective(self, other: RasterKey)
        requires
            self.packed() == other.packed(),
        ensures
            self == other,
    {
    }

    fn pack(&self) -> (packed: u128)
        ensures
            packed == self.packed(),
    {
        (self.font_hash as u128) * 0x100_0000_0000_0000 + (self.px_bits as u128) * 0x100_0000 + (
        self.glyph_index as u128) * 0x100 + (self.subpixel as u128)
    }
}

/// The cached record of one rasterized glyph: its place in the atlas.
#[derive(Clone, Copy, Debug, PartialEq, Eq, Structural)]
pub struct Glyph {
    pub rect: AtlasRect,
}

/// One glyph as a layout engine has positioned it.
#[derive(Clone, Copy, Debug, PartialEq, Eq, Structural)]
pub struct GlyphPosition {
    /// Which bitmap the glyph is drawn with.
    pub key: RasterKey,
    /// Left edge of the glyph's box.
    pub x: Scalar,
    /// Top edge of the glyph's box.
    pub y: Scalar,
    /// Width of the box in pixels.
    pub width: usize,
    /// Height of the box in pixels.
    pub height: usize,
}

impl GlyphPosition {
    /// A glyph with no area, such as a space: it is never drawn.
    pub open spec fn is_empty(self) -> bool {
        self.width == 0 || self.height == 0
    }
}

/// What is to be done for one positioned glyph.
#[derive(Clone, Copy, Debug, PartialEq, Eq, Structural)]
pub enum GlyphAction {
    /// The glyph has no area: it adds no geometry.
    Skip,
    /// The glyph is in the atlas: draw a quad with this record.
    Draw(Glyph),
    /// The glyph is not in the atlas yet: rasterize it, cache it, then draw.
    Rasterize,
}

/// A coverage bitmap as RGBA: every alpha value four times, once for each
/// channel.
pub open spec fn rgba_of(alpha: Seq<u8>) -> Seq<u8> {
    Seq::new(4 * alpha.len(), |i: int| alpha[i / 4])
}

/// In the RGBA form of a coverage bitmap, every channel of a texel is the
/// coverage of that texel.
pub proof fn lemma_rgba_texel(alpha: Seq<u8>, width: nat, i: int, j: int)
    requires
        0 <= j * width + i < alpha.len(),
    ensures
        bitmap_texel(rgba_of(alpha), width, i, j) == (Rgba {
            r: alpha[j * width + i],
            g: alpha[j * width + i],
            b: alpha[j * width + i],
            a: alpha[j * width + i],
        }),
{
    let k = j * width + i;
    assert((4 * k) / 4 == k && (4 * k + 1) / 4 == k && (4 * k + 2) / 4 == k && (4 * k + 3) / 4 == k);
}

/// What a [`Font`] stands for.
pub struct GlyphStore {
    /// The cached glyphs.
    pub glyphs: Map<RasterKey, Glyph>,
    /// Their keys, in the order in which they were cached.
    pub keys: Seq<RasterKey>,
    /// The atlas they live in.
    pub atlas: Atlas,
    /// The RGBA bitmap of the glyph rasterized last.
    pub bitmap: Seq<u8>,
}

impl GlyphStore {
    /// The store of a new font: no glyph, an empty atlas.
    pub open spec fn empty() -> GlyphStore {
        GlyphStore {
            glyphs: Map::empty(),
            keys: Seq::empty(),
            atlas: Atlas::empty(ATLAS_WIDTH as nat, ATLAS_HEIGHT as nat),
            bitmap: Seq::empty(),
        }
    }

    /// The invariant of a store: the cache holds the keys, each once, and
    /// the glyph cached `i`-th lives in the `i`-th rectangle of the atlas.
    pub open spec fn wf(self) -> bool {
        &&& self.atlas.wf()
        &&& self.keys.no_duplicates()
        &&& self.keys.len() == self.atlas.allocated.len()
        &&& forall|key: RasterKey| #[trigger] self.glyphs.contains_key(key) <==> self.keys.contains(key)
        &&& forall|i: int|
            0 <= i < self.keys.len() ==> (#[trigger] self.glyphs[self.keys[i]]).rect
                == self.atlas.allocated[i]
    }

    /// What is to be done for a glyph.
    pub open spec fn action(self, glyph: GlyphPosition) -> GlyphAction {
        if glyph.is_empty() {
            GlyphAction::Skip
        } else if self.glyphs.contains_key(glyph.key) {
            GlyphAction::Draw(self.glyphs[glyph.key])
        } else {
            GlyphAction::Rasterize
        }
    }

    /// Whether a new glyph of this size can still be cached.
    pub open spec fn has_room(self, width: usize, height: usize) -> bool {
        self.atlas.has_room(width as nat, height as nat)
    }

    /// What caching a glyph returns: the record it had, the record it gets,
    /// or that the atlas is full.
    pub open spec fn cached(self, key: RasterKey, width: usize, height: usize) -> Result<
        Glyph,
        AtlasFullError,
    > {
        if self.glyphs.contains_key(key) {
            Ok(self.glyphs[key])
        } else if self.has_room(width, height) {
            Ok(Glyph { rect: self.atlas.slot(width, height) })
        } else {
            Err(AtlasFullError)
        }
    }

    /// The store after a glyph with the coverage bitmap `alpha` was cached
    /// under `key`. A key that is cached keeps its record and the store stays
    /// as it is. A new key gets the next rectangle of the atlas; if there is
    /// none, only the bitmap buffer has changed.
    pub open spec fn cache(self, key: RasterKey, width: usize, height: usize, alpha: Seq<u8>)
        -> GlyphStore {
        if self.glyphs.contains_key(key) {
            self
        } else if self.has_room(width, height) {
            GlyphStore {
                glyphs: self.glyphs.insert(key, Glyph { rect: self.atlas.slot(width, height) }),
                keys: self.keys.push(key),
                atlas: self.atlas.insert(rgba_of(alpha), width, height),
                bitmap: rgba_of(alpha),
            }
        } else {
            GlyphStore { bitmap: rgba_of(alpha), ..self }
        }
    }
}

/// Caching keeps the invariant of the store.
pub proof fn lemma_cache_keeps_wf(
    store: GlyphStore,
    key: RasterKey,
    width: usize,
    height: usize,
    alpha: Seq<u8>,
)
    requires
        store.wf(),
    ensures
        store.cache(key, width, height, alpha).wf(),
{
    let next = store.cache(key, width, height, alpha);
    if !store.glyphs.contains_key(key) && store.has_room(width, height) {
        crate::draw::text::packer::lemma_insert_keeps_wf(
            store.atlas,
            rgba_of(alpha),
            width,
            height,
        );
        assert(!store.keys.contains(key));
        assert forall|k: RasterKey| #[trigger] next.glyphs.contains_key(k) <==> next.keys.contains(
            k,
        ) by {
            if k == key {
                assert(next.keys[store.keys.len() as int] == key);
            } else if store.keys.contains(k) {
                let i = choose|i: int| 0 <= i < store.keys.len() && store.keys[i] == k;
                assert(next.keys[i] == k);
            }
        }
        assert forall|i: int| 0 <= i < next.keys.len() implies (#[trigger] next.glyphs[next.keys[i]]).rect
            == next.atlas.allocated[i] by {
            if i < store.keys.len() {
                assert(store.keys.contains(store.keys[i]));
                assert(next.keys[i] == store.keys[i]);
                assert(store.glyphs[store.keys[i]].rect == store.atlas.allocated[i]);
            }
        }
    }
}

/// The glyphs that add no geometry are those without area, whatever is
/// cached: every other glyph is drawn, at once or after its rasterization.
pub proof fn lemma_only_empty_glyphs_are_skipped(store: GlyphStore, glyph: GlyphPosition)
    ensures
        store.action(glyph) == GlyphAction::Skip <==> glyph.is_empty(),
{
}

/// The cache only grows: a glyph, once cached, keeps its record whatever is
/// cached afterwards, and `write` answers with that record and asks for no
/// second rasterization.
pub proof fn lemma_cached_glyph_stays(
    store: GlyphStore,
    glyph: GlyphPosition,
    key: RasterKey,
    width: usize,
    height: usize,
    alpha: Seq<u8>,
)
    requires
        store.glyphs.contains_key(glyph.key),
        !glyph.is_empty(),
    ensures
        store.action(glyph) == GlyphAction::Draw(store.glyphs[glyph.key]),
        store.cache(key, width, height, alpha).glyphs.contains_key(glyph.key),
        store.cache(key, width, height, alpha).glyphs[glyph.key] == store.glyphs[glyph.key],
        store.cache(key, width, height, alpha).action(glyph) == store.action(glyph),
{
}

/// Right after a glyph was cached, `write` finds it: one rasterization
/// serves every later use of the key.
pub proof fn lemma_cache_then_write(
    store: GlyphStore,
    glyph: GlyphPosition,
    width: usize,
    height: usize,
    alpha: Seq<u8>,
)
    requires
        !glyph.is_empty(),
        store.cached(glyph.key, width, height) is Ok,
    ensures
        store.cache(glyph.key, width, height, alpha).action(glyph) == GlyphAction::Draw(
            store.cached(glyph.key, width, height).unwrap(),
        ),
{
}

/// A glyph that goes into the atlas shows there as its coverage in all four
/// channels: texel for texel, the rectangle it got holds the alpha value of
/// the bitmap as red, green, blue and alpha.
pub proof fn lemma_cached_glyph_texels(
    store: GlyphStore,
    key: RasterKey,
    width: usize,
    height: usize,
    alpha: Seq<u8>,
    x: int,
    y: int,
)
    requires
        store.wf(),
        !store.glyphs.contains_key(key),
        store.has_room(width, height),
        alpha.len() >= width * height,
        store.atlas.slot(width, height).covers(x, y),
    ensures
        ({
            let rect = store.atlas.slot(width, height);
            let v = alpha[(y - rect.y) * width + (x - rect.x)];
            store.cache(key, width, height, alpha).atlas.texels[(x, y)] == (Rgba {
                r: v,
                g: v,
                b: v,
                a: v,
            })
        }),
{
    let rect = store.atlas.slot(width, height);
    let i = x - rect.x;
    let j = y - rect.y;
    crate::draw::text::packer::lemma_insert_keeps_wf(store.atlas, rgba_of(alpha), width, height);
    assert(store.atlas.texels.dom().contains((x, y)));
    assert(0 <= j * width + i < width * height) by (nonlinear_arith)
        requires
            0 <= i < width,
            0 <= j < height,
    ;
    lemma_rgba_texel(alpha, width as nat, i, j);
}

/// Two glyphs cached under different keys live in rectangles with no texel
/// in common, and each rectangle lies inside the atlas.
pub proof fn lemma_cached_glyphs_disjoint(store: GlyphStore, a: RasterKey, b: RasterKey)
    requires
        store.wf(),
        store.glyphs.contains_key(a),
        store.glyphs.contains_key(b),
        a != b,
    ensures
        store.glyphs[a].rect.disjoint(store.glyphs[b].rect),
        store.glyphs[a].rect.within(store.atlas.width, store.atlas.height),
        store.glyphs[b].rect.within(store.atlas.width, store.atlas.height),
{
    let i = choose|i: int| 0 <= i < store.keys.len() && store.keys[i] == a;
    let j = choose|j: int| 0 <= j < store.keys.len() && store.keys[j] == b;
    assert(store.glyphs[store.keys[i]].rect == store.atlas.allocated[i]);
    assert(store.glyphs[store.keys[j]].rect == store.atlas.allocated[j]);
    crate::draw::text::packer::lemma_allocations_disjoint(store.atlas, i, j);
}

/// The glyph store of one font.
pub struct Font {
    packer: ShelfPacker,
    cache: HashMap<u128, Glyph>,
    keys: Ghost<Seq<RasterKey>>,
    bitmap_buffer: Vec<u8>,
}

impl View for Font {
    type V = GlyphStore;

    closed spec fn view(&self) -> GlyphStore {
        GlyphStore {
            glyphs: Map::new(
                |key: RasterKey| self.cache@.contains_key(key.packed()),
                |key: RasterKey| self.cache@[key.packed()],
            ),
            keys: self.keys@,
            atlas: self.packer@,
            bitmap: self.bitmap_buffer@,
        }
    }
}

impl Font {
    /// The invariant of a font.
    pub open spec fn wf(&self) -> bool {
        self@.wf()
    }

    /// A font with no glyph cached and an empty atlas of `ATLAS_WIDTH` by
    /// `ATLAS_HEIGHT` texels.
    pub fn new() -> (font: Self)
        ensures
            font.wf(),
            font@ == GlyphStore::empty(),
    {
        let font = Font {
            packer: ShelfPacker::new(ATLAS_WIDTH, ATLAS_HEIGHT),
            cache: HashMap::new(),
            keys: Ghost(Seq::empty()),
            bitmap_buffer: Vec::new(),
        };
        assert(font@.glyphs =~= Map::empty());
        font
    }

    /// The packer of the atlas.
    pub fn packer(&self) -> (packer: &ShelfPacker)
        ensures
            packer@ == self@.atlas,
    {
        &self.packer
    }

    /// The RGBA bitmap of the glyph that was rasterized last: what the
    /// caller writes into the rectangle that `cache_glyph` returned.
    pub fn bitmap(&self) -> (bitmap: &[u8])
        ensures
            bitmap@ == self@.bitmap,
    {
        self.bitmap_buffer.as_slice()
    }

    /// The glyph that gives a run of text its size: the last one, whatever
    /// came before it. The size of the run is the far corner of that glyph's
    /// box, and zero for a run without glyphs.
    pub fn text_size(glyphs: &[GlyphPosition]) -> (last: Option<GlyphPosition>)
        ensures
            glyphs@.len() == 0 ==> last is None,
            glyphs@.len() > 0 ==> last == Some(glyphs@.last()),
    {
        let n = glyphs.len();
        if n == 0 {
            None
        } else {
            Some(glyphs[n - 1])
        }
    }

    /// Decides what is to be done for one glyph of a run: a glyph without
    /// area is skipped, one that is cached is drawn with its record, and any
    /// other has to be rasterized first.
    pub fn write(&self, glyph: &GlyphPosition) -> (action: GlyphAction)
        ensures
            action == self@.action(*glyph),
    {
        if glyph.width == 0 || glyph.height == 0 {
            return GlyphAction::Skip;
        }
        let packed = glyph.key.pack();
        match self.cache.get(&packed) {
            Some(cached) => GlyphAction::Draw(*cached),
            None => GlyphAction::Rasterize,
        }
    }

    /// Takes the coverage bitmap of a rasterized glyph, `width` by `height`
    /// values stored row by row, into the atlas and the cache.
    ///
    /// The bitmap is expanded to RGBA in the font's buffer, where it stays
    /// until the next call. If the atlas has no room for it the glyph is not
    /// cached. A key that is cached already keeps its record, and nothing
    /// changes at all.
    pub fn cache_glyph(&mut self, key: RasterKey, width: usize, height: usize, alpha: &[u8]) -> (cached:
        Result<Glyph, AtlasFullError>)
        requires
            old(self).wf(),
            alpha@.len() >= width * height,
        ensures
            final(self).wf(),
            cached == old(self)@.cached(key, width, height),
            final(self)@ == old(self)@.cache(key, width, height, alpha@),
    {
        let packed = key.pack();
        if let Some(known) = self.cache.get(&packed) {
            return Ok(*known);
        }
        proof {
            lemma_cache_keeps_wf(self@, key, width, height, alpha@);
            assert(4 * (width * height) == 4 * width * height) by (nonlinear_arith);
        }
        Self::alpha_to_rgba(alpha, &mut self.bitmap_buffer);
        match self.packer.insert(self.bitmap_buffer.as_slice(), width, height) {
            Ok(rect) => {
                let glyph = Glyph { rect };
                self.cache.insert(packed, glyph);
                self.keys = Ghost(self.keys@.push(key));
                proof {
                    assert forall|k: RasterKey| k.packed() == key.packed() implies k == key by {
                        k.lemma_packed_injective(key);
                    }
                    assert(self@.glyphs =~= old(self)@.glyphs.insert(key, glyph));
                }
                Ok(glyph)
            },
            Err(full) => {
                proof {
                    assert(self@.glyphs =~= old(self)@.glyphs);
                }
                Err(full)
            },
        }
    }

    /// Expands a coverage bitmap to RGBA in `output`: every value goes into
    /// all four channels of its texel. What `output` held before is dropped.
    pub fn alpha_to_rgba(bitmap: &[u8], output: &mut Vec<u8>)
        ensures
            final(output)@ == rgba_of(bitmap@),
    {
        output.clear();
        let mut i: usize = 0;
        while i < bitmap.len()
            invariant
                i <= bitmap@.len(),
                output@.len() == 4 * i,
                forall|k: int| 0 <= k < output@.len() ==> output@[k] == bitmap@[k / 4],
            decreases bitmap@.len() - i,
        {
            let v = bitmap[i];
            output.push(v);
            output.push(v);
            output.push(v);
            output.push(v);
            i += 1;
        }
        assert(output@ =~= rgba_of(bitmap@));
    }
}

} // verus!
