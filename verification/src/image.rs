//! A picture placed in the world: the rectangle that it covers.

use vstd::prelude::*;
use crate::geometry::{Point, Rect};

verus! {

/// A picture in the world, known by the rectangle that it covers.
#[derive(Clone, Copy, Debug, PartialEq, Eq, Structural)]
pub struct Image {
    pub bounding_box: Rect,
}

impl Image {
    /// A picture of the given extents with its corner at `position`.
    pub fn new(position: Point, width: i16, height: i16) -> (image: Self)
        ensures
            image.bounding_box == (Rect { x: position.x, y: position.y, width, height }),
    {
        Image { bounding_box: Rect { x: position.x, y: position.y, width, height } }
    }

    /// The rectangle that the picture covers.
    pub fn bounding_box(&self) -> (bounding_box: &Rect)
        ensures
            *bounding_box == self.bounding_box,
    {
        &self.bounding_box
    }

    /// The picture moved by `distance` stays within the coordinate range.
    pub open spec fn can_move_horizontally(self, distance: i16) -> bool {
        i16::MIN <= self.bounding_box.x + distance <= i16::MAX
    }

    /// Whether the picture can be moved by `distance`.
    pub fn fits_moved(&self, distance: i16) -> (fits: bool)
        ensures
            fits == self.can_move_horizontally(distance),
    {
        let x: i32 = self.bounding_box.x as i32 + distance as i32;
        -32768 <= x && x <= 32767
    }

    /// Whether the picture's right edge is within the coordinate range.
    pub fn has_right(&self) -> (fits: bool)
        ensures
            fits == self.bounding_box.right_in_range(),
    {
        let right: i32 = self.bounding_box.x as i32 + self.bounding_box.width as i32;
        -32768 <= right && right <= 32767
    }

    /// Moves the picture to the right by `distance`, or to the left where
    /// `distance` is negative.
    pub fn move_horizontally(&mut self, distance: i16)
        requires
            old(self).can_move_horizontally(distance),
        ensures
            final(self).bounding_box == (Rect {
                x: (old(self).bounding_box.x + distance) as i16,
                ..old(self).bounding_box
            }),
    {
        let x: i16 = self.bounding_box.x + distance;
        self.set_x(x);
    }

    /// Puts the picture's left edge at `x`.
    pub fn set_x(&mut self, x: i16)
        ensures
            final(self).bounding_box == (Rect { x, ..old(self).bounding_box }),
    {
        self.bounding_box.x = x;
    }

    /// The x coordinate just past the picture's right edge.
    pub fn right(&self) -> (right: i16)
        requires
            self.bounding_box.right_in_range(),
        ensures
            right == self.bounding_box.spec_right(),
    {
        self.bounding_box.right()
    }
}

} // verus!
