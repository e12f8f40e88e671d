//! Glyph atlas and glyph cache.

pub mod font;
pub mod packer;

pub use font::{Font, Glyph, GlyphAction, GlyphPosition, GlyphStore, RasterKey};
pub use packer::{Atlas, AtlasFullError, AtlasRect, Insertion, Rgba, ShelfPacker};
