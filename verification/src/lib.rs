//! Declarative 2D shapes (rectangles, circles, ellipses, polygons) turned into
//! triangulated vertex/index buffers through the lyon tessellation engine,
//! under a fill or a stroke mode.
//!
//! Coordinates are exact rationals (`Coord`); the engine receives the nearest
//! binary32 value of each. Tessellation output is a `Geometry`: a vertex list
//! (positions carried as binary32 bit patterns, z fixed to zero) and a
//! triangle index list.

pub mod coord;
pub mod engine;
pub mod geometry;
pub mod laws;
pub mod mode;
pub mod shapes;
