//! Screen rectangles and their corner points.

use vstd::prelude::*;

verus! {

/// A window rectangle: top-left corner plus extent, all in pixels.
#[derive(Clone, Copy, Debug, PartialEq, Eq, Structural)]
pub struct Rect {
    pub x: i32,
    pub y: i32,
    pub width: i32,
    pub height: i32,
}

impl Rect {
    /// The left-top corner, `(x, y)`.
    pub open spec fn spec_left_top(self) -> (int, int) {
        (self.x as int, self.y as int)
    }

    /// The right-top corner, `(x + width, y)`.
    pub open spec fn spec_right_top(self) -> (int, int) {
        (self.x + self.width, self.y as int)
    }

    /// The left-bottom corner, `(x, y + height)`.
    pub open spec fn spec_left_bottom(self) -> (int, int) {
        (self.x as int, self.y + self.height)
    }

    /// The right-bottom corner, `(x + width, y + height)`.
    pub open spec fn spec_right_bottom(self) -> (int, int) {
        (self.x + self.width, self.y + self.height)
    }

    pub fn new(x: i32, y: i32, width: i32, height: i32) -> (r: Rect)
        ensures
            r == (Rect { x, y, width, height }),
    {
        Rect { x, y, width, height }
    }

    pub fn left_top(&self) -> (p: (i32, i32))
        ensures
            (p.0 as int, p.1 as int) == self.spec_left_top(),
    {
        (self.x, self.y)
    }

    pub fn right_top(&self) -> (p: (i32, i32))
        requires
            i32::MIN <= self.x + self.width <= i32::MAX,
        ensures
            (p.0 as int, p.1 as int) == self.spec_right_top(),
    {
        (self.x + self.width, self.y)
    }

    pub fn left_bottom(&self) -> (p: (i32, i32))
        requires
            i32::MIN <= self.y + self.height <= i32::MAX,
        ensures
            (p.0 as int, p.1 as int) == self.spec_left_bottom(),
    {
        (self.x, self.y + self.height)
    }

    pub fn right_bottom(&self) -> (p: (i32, i32))
        requires
            i32::MIN <= self.x + self.width <= i32::MAX,
            i32::MIN <= self.y + self.height <= i32::MAX,
        ensures
            (p.0 as int, p.1 as int) == self.spec_right_bottom(),
    {
        (self.x + self.width, self.y + self.height)
    }
}

} // verus!
