//! Geometry batches and text.

pub mod batch;
pub mod quad;
pub mod text;
pub mod vertex;

pub use batch::{Batch, Buffers, FlushAction, GeometryMode, TextBatch};
pub use quad::Quad;
pub use vertex::{ColorVertex, TexColVertex, Vertex};
