//! Per-frame draw batches and a glyph atlas for a 2D graphics layer.
//!
//! A [`draw::Batch`] gathers vertices and element indices on the CPU and
//! decides when they have to be uploaded again. A [`draw::text::ShelfPacker`]
//! hands out disjoint regions of a texture of fixed size, and a
//! [`draw::text::Font`] remembers in which region each rasterized glyph lives.
//!
//! Nothing here talks to a GPU or to a rasterizer. Every operation that needs
//! one returns what has to be done, and the caller does it.

pub mod color;
pub mod draw;
pub mod geom;
pub mod scalar;

pub use color::Color;
pub use geom::{AaRect, Point2, Point3};
pub use scalar::Scalar;
