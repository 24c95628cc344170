//! Scrolling the view by dragging.

use vstd::prelude::*;

verus! {

/// Translates the view by the distance the cursor is dragged.
#[derive(Debug, Clone, Copy, PartialEq, Eq)]
pub struct Scroller {}

impl Scroller {
    pub fn new() -> (s: Scroller)
        ensures
            s == (Scroller {}),
    {
        Scroller {}
    }
}

} // verus!
