//! The integer side of the graphics: rotation states, vertex buffer
//! bookkeeping, drawing types and screen coordinates.

pub mod coords;
pub mod drawing;
pub mod engine;
pub mod transform;
pub mod transformer;
pub mod vertex_objects;

use vstd::prelude::*;

verus! {

/// The number of quarter-turn states of the fixed isometric projection.
pub const ISOMETRIC_ROTATIONS: usize = 4;

/// The rotation state after `rotations` further quarter turns from `rotation`.
pub fn next_rotation(rotation: usize, rotations: usize) -> (res: usize)
    requires
        rotation + rotations <= usize::MAX,
    ensures
        res == (rotation + rotations) % 4,
        res < ISOMETRIC_ROTATIONS,
{
    (rotation + rotations) % ISOMETRIC_ROTATIONS
}

} // verus!
