//! Positions in the frame buffer.

use vstd::prelude::*;

verus! {

/// A pixel of the frame buffer, counted from its bottom left corner.
#[derive(Debug, Clone, Copy, PartialEq, Eq)]
pub struct BufferCoord {
    pub x: i32,
    pub y: i32,
}

} // verus!
