//! Integer sizes for off-screen drawables.

use vstd::prelude::*;

verus! {

/// Width and height of a drawable, in pixels.
///
/// A size is merely a pair of integers; whether a backend can allocate a
/// drawable of this size is decided at allocation time, where a width or
/// height below 1 is rejected.
#[derive(Clone, Copy, Debug, PartialEq, Eq, Structural)]
pub struct Size2D {
    pub width: i32,
    pub height: i32,
}

impl Size2D {
    /// True when both dimensions are at least one pixel.
    pub open spec fn spec_is_positive(&self) -> bool {
        self.width >= 1 && self.height >= 1
    }

    pub fn new(width: i32, height: i32) -> (r: Size2D)
        ensures
            r.width == width,
            r.height == height,
    {
        Size2D { width, height }
    }

    /// True when both dimensions are at least one pixel.
    pub fn is_positive(&self) -> (r: bool)
        ensures
            r == self.spec_is_positive(),
    {
        self.width >= 1 && self.height >= 1
    }
}

} // verus!
