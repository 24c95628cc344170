//! Verified core of an isometric terrain engine: grid indexing of terrains,
//! rotation states of the isometric camera, text editing, glyph tables and
//! the integer bookkeeping behind vertex buffers.

pub mod event_handlers;
pub mod font;
pub mod graphics;
pub mod grid_matrix;
pub mod terrain;
pub mod transform;

use vstd::prelude::*;

verus! {

/// A pair of grid coordinates.
#[derive(Clone, Copy, Debug, PartialEq, Eq)]
pub struct V2 {
    pub x: usize,
    pub y: usize,
}

/// A triple of values, used for points in space.
#[derive(Clone, Copy, Debug, PartialEq)]
pub struct V3<T> {
    pub x: T,
    pub y: T,
    pub z: T,
}

/// Builds the grid coordinate `(x, y)`.
pub fn v2(x: usize, y: usize) -> (res: V2)
    ensures
        res.x == x,
        res.y == y,
{
    V2 { x, y }
}

/// Builds the triple `(x, y, z)`.
pub fn v3<T>(x: T, y: T, z: T) -> (res: V3<T>)
    ensures
        res.x == x,
        res.y == y,
        res.z == z,
{
    V3 { x, y, z }
}

} // verus!
