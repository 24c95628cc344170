//! How a terrain drawing splits the terrain into square slabs, each drawn
//! from a slot of its own in one shared vertex buffer.

use vstd::prelude::*;
use crate::V2;

verus! {

/// The values that a slab of `slab_size` by `slab_size` cells can take: nine
/// values per triangle, two triangles per cell and four cells per grid cell.
pub open spec fn max_floats_for(slab_size: nat) -> nat {
    9 * 2 * slab_size * slab_size * 4
}

/// The number of slabs of a `width` by `height` terrain.
pub open spec fn slab_count(width: nat, height: nat, slab_size: nat) -> nat {
    (width * height) / (slab_size * slab_size)
}

/// The slab that holds the cell `from`: slabs are numbered row by row.
pub open spec fn slab_of(width: nat, slab_size: nat, from: V2) -> nat {
    (width / slab_size) * (from.y as nat / slab_size) + (from.x as nat / slab_size)
}

/// A terrain cut into slabs.
#[derive(Debug, Clone, Copy, PartialEq, Eq)]
pub struct TerrainSlabs {
    pub width: usize,
    pub height: usize,
    pub slab_size: usize,
}

impl TerrainSlabs {
    /// The slabs of a `width` by `height` terrain.
    pub fn new(width: usize, height: usize, slab_size: usize) -> (s: TerrainSlabs)
        ensures
            s == (TerrainSlabs { width, height, slab_size }),
    {
        TerrainSlabs { width, height, slab_size }
    }

    /// The values one slab can take.
    pub fn max_floats_per_index(&self) -> (res: usize)
        requires
            max_floats_for(self.slab_size as nat) <= usize::MAX,
        ensures
            res == max_floats_for(self.slab_size as nat),
    {
        proof {
            let s = self.slab_size as int;
            assert(9 * 2 * s <= 9 * 2 * s * s * 4 && 9 * 2 * s * s <= 9 * 2 * s * s * 4) by (nonlinear_arith)
                requires
                    s >= 0,
            ;
        }
        9 * 2 * self.slab_size * self.slab_size * 4
    }

    /// The number of slabs.
    pub fn indices(&self) -> (res: usize)
        requires
            self.slab_size > 0,
            self.width * self.height <= usize::MAX,
            self.slab_size * self.slab_size <= usize::MAX,
        ensures
            res == slab_count(self.width as nat, self.height as nat, self.slab_size as nat),
    {
        proof {
            let s = self.slab_size as int;
            assert(s * s > 0) by (nonlinear_arith)
                requires
                    s > 0,
            ;
        }
        (self.width * self.height) / (self.slab_size * self.slab_size)
    }

    /// The slab that holds the cell `from`.
    pub fn get_index(&self, from: &V2) -> (index: usize)
        requires
            self.slab_size > 0,
            slab_of(self.width as nat, self.slab_size as nat, *from) <= usize::MAX,
        ensures
            index == slab_of(self.width as nat, self.slab_size as nat, *from),
    {
        proof {
            let a = (self.width / self.slab_size) as int;
            let b = (from.y / self.slab_size) as int;
            assert(a * b <= a * b + (from.x / self.slab_size) as int);
            assert(a * b >= 0) by (nonlinear_arith)
                requires
                    a >= 0,
                    b >= 0,
            ;
        }
        ((self.width / self.slab_size) * (from.y / self.slab_size)) + (from.x / self.slab_size)
    }
}

/// When the slab size divides both sides of the terrain, every cell of the
/// terrain falls in a slab that the buffer has a slot for.
pub proof fn lemma_cells_fall_in_slabs(width: nat, height: nat, slab_size: nat, from: V2)
    requires
        slab_size > 0,
        width % slab_size == 0,
        height % slab_size == 0,
        from.x < width,
        from.y < height,
    ensures
        slab_of(width, slab_size, from) < slab_count(width, height, slab_size),
{
    let s = slab_size as int;
    let w = (width / slab_size) as int;
    let h = (height / slab_size) as int;
    let x = (from.x as nat / slab_size) as int;
    let y = (from.y as nat / slab_size) as int;
    assert(width == w * s) by (nonlinear_arith)
        requires
            width % slab_size == 0,
            w == width / slab_size,
            s == slab_size,
            slab_size > 0,
    ;
    assert(height == h * s) by (nonlinear_arith)
        requires
            height % slab_size == 0,
            h == height / slab_size,
            s == slab_size,
            slab_size > 0,
    ;
    assert(x < w) by (nonlinear_arith)
        requires
            from.x < width,
            width == w * s,
            x == from.x as nat / slab_size,
            s == slab_size,
            s > 0,
    ;
    assert(y < h) by (nonlinear_arith)
        requires
            from.y < height,
            height == h * s,
            y == from.y as nat / slab_size,
            s == slab_size,
            s > 0,
    ;
    assert(w * y + x < w * h) by (nonlinear_arith)
        requires
            0 <= x < w,
            0 <= y < h,
    ;
    assert((width * height) / (slab_size * slab_size) == w * h) by (nonlinear_arith)
        requires
            width == w * s,
            height == h * s,
            s == slab_size,
            s > 0,
    ;
}


/// A slab's slot grows with the square of the slab's side: 72 values per
/// cell of the slab (nine values per triangle, two triangles per grid cell,
/// four grid cells per terrain cell), so doubling the side takes four times
/// the room, and a side one longer adds `72 * (2 * s + 1)` values.
pub proof fn lemma_slab_room(s: nat)
    ensures
        max_floats_for(s) == 72 * (s * s),
        max_floats_for(2 * s) == 4 * max_floats_for(s),
        max_floats_for(s + 1) == max_floats_for(s) + 72 * (2 * s + 1),
{
    assert(9 * 2 * s * s * 4 == 72 * (s * s)) by (nonlinear_arith);
    assert(9 * 2 * (2 * s) * (2 * s) * 4 == 4 * (72 * (s * s))) by (nonlinear_arith);
    assert(9 * 2 * (s + 1) * (s + 1) * 4 == 72 * (s * s) + 72 * (2 * s + 1)) by (nonlinear_arith);
}

} // verus!
