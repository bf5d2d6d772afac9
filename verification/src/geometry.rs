//! Vertex records of the rasterization path: a position, a normal, and a
//! texture coordinate carried as one more vector (used for color for
//! now), and the eight-vertex block they tile.

use vstd::prelude::*;
use crate::vector::Vector;

verus! {

#[derive(Clone, Copy, Debug, PartialEq, Eq, Structural)]
pub struct Vertex {
    pub position: Vector,
    pub normal: Vector,
    pub uv: Vector,
}

#[derive(Clone, Copy, Debug)]
pub struct Block {
    pub vertices: [Vertex; 8],
    pub indices: [u32; 36], // 6 faces, 2 triangles per face, 3 vertices per triangle
}

} // verus!
