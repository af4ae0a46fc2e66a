//! Host-side logic of a small GPU renderer: the vertex format, a builder that
//! turns points and a flat colour into vertices, the mesh that is uploaded,
//! and the surface size that the presentation surface is configured with.
//!
//! Floating-point values are carried by their IEEE-754 bit patterns (`u32`),
//! so every value passes through the library unchanged and can be reasoned
//! about exactly.

mod element;
mod mesh;
mod surface;
mod vertex;

pub use element::{lemma_build_follows_shape, lemma_color_taken_at_build, lemma_new_builds_empty, Element};
pub use mesh::{
    half_bytes, halves_bytes, indices_in_bounds, triangle_indices, word_bytes, words_bytes, Mesh,
};
pub use surface::{config_for, lemma_resize_then_configure, SurfaceConfig, SurfaceSize, Viewport};
pub use vertex::{
    transparent_black, vertex_at, vertex_stream, vertex_words, vertices_of, AttributeFormat, FloatBits,
    Position, Rgba, Vertex, VertexAttribute, VertexLayout,
};
