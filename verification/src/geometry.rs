//! The geometry buffer: tessellation output for one shape instance.

use vstd::prelude::*;

verus! {

/// One output vertex. The engine emits 2D binary32 positions; they are kept
/// here as their bit patterns, with the third component fixed to zero
/// (the bit pattern of `0.0` is `0`), so flat 2D shapes sit in the z = 0
/// plane.
#[derive(Clone, Copy, Debug, PartialEq, Eq, Structural)]
pub struct Vertex {
    pub x_bits: u32,
    pub y_bits: u32,
    pub z_bits: u32,
}

impl Vertex {
    /// The single vertex constructor: both fill and stroke output go through
    /// it, so the two modes share one coordinate convention.
    pub fn from_position_bits(x_bits: u32, y_bits: u32) -> (v: Vertex)
        ensures
            v.x_bits == x_bits,
            v.y_bits == y_bits,
            v.z_bits == 0,
    {
        Vertex { x_bits, y_bits, z_bits: 0 }
    }
}

/// Every vertex lies in the z = 0 plane.
pub open spec fn all_flat(vs: Seq<Vertex>) -> bool {
    forall|i: int| 0 <= i < vs.len() ==> vs[i].z_bits == 0
}

/// An owned pair of vertex and triangle-index lists, populated by exactly one
/// conversion call and handed to the caller wholesale.
#[derive(Debug, PartialEq)]
pub struct Geometry {
    pub vertices: Vec<Vertex>,
    pub indices: Vec<u32>,
}

impl Geometry {
    /// The mathematical content of the buffer.
    pub open spec fn mesh(self) -> (Seq<Vertex>, Seq<u32>) {
        (self.vertices@, self.indices@)
    }

    pub open spec fn is_empty(self) -> bool {
        self.vertices@.len() == 0 && self.indices@.len() == 0
    }

    /// The index list is a triangle list into the vertex list: a multiple of
    /// three indices, each one in range.
    pub open spec fn valid_triangles(self) -> bool {
        &&& self.indices@.len() % 3 == 0
        &&& forall|i: int|
            0 <= i < self.indices@.len() ==> (self.indices@[i] as int) < self.vertices@.len()
    }

    pub fn new() -> (g: Geometry)
        ensures
            g.is_empty(),
    {
        Geometry { vertices: Vec::new(), indices: Vec::new() }
    }
}

} // verus!
