//! Integer points and axis-aligned rectangles.

use vstd::prelude::*;

verus! {

/// A point on the integer grid; also used for velocities.
#[derive(Clone, Copy, Debug, PartialEq, Eq, Structural)]
pub struct Point {
    pub x: i16,
    pub y: i16,
}

/// An axis-aligned rectangle given by its top-left corner and its extents.
#[derive(Clone, Copy, Debug, PartialEq, Eq, Structural)]
pub struct Rect {
    pub x: i16,
    pub y: i16,
    pub width: i16,
    pub height: i16,
}

impl Rect {
    /// The x coordinate of the left edge.
    pub open spec fn spec_left(self) -> int {
        self.x as int
    }

    /// The x coordinate just past the right edge.
    pub open spec fn spec_right(self) -> int {
        self.x + self.width
    }

    /// The y coordinate of the top edge.
    pub open spec fn spec_top(self) -> int {
        self.y as int
    }

    /// The y coordinate just past the bottom edge.
    pub open spec fn spec_bottom(self) -> int {
        self.y + self.height
    }

    /// Two rectangles overlap when each begins strictly before the other
    /// ends, on both axes. Rectangles that only touch along an edge do not
    /// overlap.
    pub open spec fn overlaps(self, other: Rect) -> bool {
        &&& self.spec_left() < other.spec_right()
        &&& self.spec_right() > other.spec_left()
        &&& self.spec_top() < other.spec_bottom()
        &&& self.spec_bottom() > other.spec_top()
    }

    /// The right edge fits the coordinate type.
    pub open spec fn right_in_range(self) -> bool {
        i16::MIN <= self.spec_right() <= i16::MAX
    }

    /// The bottom edge fits the coordinate type.
    pub open spec fn bottom_in_range(self) -> bool {
        i16::MIN <= self.spec_bottom() <= i16::MAX
    }

    /// The x coordinate of the left edge.
    pub fn left(&self) -> (r: i16)
        ensures
            r == self.spec_left(),
    {
        self.x
    }

    /// The x coordinate just past the right edge.
    pub fn right(&self) -> (r: i16)
        requires
            self.right_in_range(),
        ensures
            r == self.spec_right(),
    {
        self.x + self.width
    }

    /// The y coordinate just past the bottom edge.
    pub fn bottom(&self) -> (r: i16)
        requires
            self.bottom_in_range(),
        ensures
            r == self.spec_bottom(),
    {
        self.y + self.height
    }

    /// The overlap test, for every pair of rectangles: the edges are compared
    /// in a wider type, so no coordinate is out of reach.
    pub fn intersects(&self, other: &Rect) -> (r: bool)
        ensures
            r == self.overlaps(*other),
    {
        let self_right: i32 = self.x as i32 + self.width as i32;
        let self_bottom: i32 = self.y as i32 + self.height as i32;
        let other_right: i32 = other.x as i32 + other.width as i32;
        let other_bottom: i32 = other.y as i32 + other.height as i32;
        (self.x as i32) < other_right && self_right > other.x as i32 && (self.y as i32)
            < other_bottom && self_bottom > other.y as i32
    }
}

} // verus!
