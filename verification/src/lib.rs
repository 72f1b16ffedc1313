//! Index-buffer construction for batched 2D primitives.
//!
//! A draw call hands the GPU a vertex buffer and an index buffer; the index
//! buffer decides which vertices form triangles. This crate builds the index
//! buffers for the primitive shapes (quads, thick lines, triangle fans) and
//! proves that every index refers to an existing vertex.

pub mod mesh;
