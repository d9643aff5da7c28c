//! The platform: a body on which the character can land, three tiles wide.

use vstd::prelude::*;
use crate::geometry::{Point, Rect};
use crate::sheet::{Cell, Sheet};

verus! {

/// Name of the sprite that shows one tile of the platform.
pub const PLATFORM_SPRITE: &'static str = "13.png";

/// Number of tiles that make up the platform.
pub const PLATFORM_TILES: i16 = 3;

/// Width of the boxes at the two ends of the platform.
pub const END_WIDTH: i16 = 60;

/// Height of the boxes at the two ends of the platform.
pub const END_HEIGHT: i16 = 54;

/// A platform of which `tile` shows one tile is no wider than the coordinate
/// range.
pub open spec fn platform_destination_fits(tile: Cell) -> bool {
    i16::MIN <= tile.frame.w * PLATFORM_TILES <= i16::MAX
}

/// The rectangle that a platform at `position` covers when `tile` shows one
/// of its tiles.
pub open spec fn platform_destination_of(position: Point, tile: Cell) -> Rect {
    Rect {
        x: position.x,
        y: position.y,
        width: (tile.frame.w * PLATFORM_TILES) as i16,
        height: tile.frame.h,
    }
}

/// The three bounding boxes of a platform that covers `destination` lie
/// within the coordinate range.
pub open spec fn platform_boxes_fit(destination: Rect) -> bool {
    &&& destination.x + END_WIDTH <= i16::MAX
    &&& i16::MIN <= destination.width - END_WIDTH * 2
    &&& i16::MIN <= destination.x + destination.width - END_WIDTH <= i16::MAX
}

/// The three bounding boxes of a platform that covers `destination`, from
/// left to right: a low box at the left end, a box of the platform's full
/// height between the ends, and a low box at the right end.
pub open spec fn platform_boxes_of(destination: Rect) -> Seq<Rect> {
    seq![
        Rect { x: destination.x, y: destination.y, width: END_WIDTH, height: END_HEIGHT },
        Rect {
            x: (destination.x + END_WIDTH) as i16,
            y: destination.y,
            width: (destination.width - END_WIDTH * 2) as i16,
            height: destination.height,
        },
        Rect {
            x: (destination.x + destination.width - END_WIDTH) as i16,
            y: destination.y,
            width: END_WIDTH,
            height: END_HEIGHT,
        },
    ]
}

/// The sprite of one tile of the platform, if `sheet` holds it.
pub open spec fn platform_tile(sheet: Map<Seq<char>, Cell>) -> Option<Cell> {
    Sheet::lookup(sheet, PLATFORM_SPRITE@)
}

/// `sheet` holds the tile's sprite, and three tiles side by side are no
/// wider than the coordinate range.
pub open spec fn platform_destination_defined(sheet: Map<Seq<char>, Cell>) -> bool {
    &&& platform_tile(sheet) is Some
    &&& platform_destination_fits(platform_tile(sheet)->0)
}

/// A platform at `position`, with its sprite taken from `sheet`, covers a
/// rectangle, and its three bounding boxes lie within the coordinate range.
pub open spec fn platform_boxes_defined(sheet: Map<Seq<char>, Cell>, position: Point) -> bool {
    &&& platform_destination_defined(sheet)
    &&& platform_boxes_fit(platform_destination_of(position, platform_tile(sheet)->0))
}

/// The three bounding boxes of a platform at `position`, with its sprite
/// taken from `sheet`, from left to right.
pub open spec fn platform_boxes(sheet: Map<Seq<char>, Cell>, position: Point) -> Seq<Rect> {
    platform_boxes_of(platform_destination_of(position, platform_tile(sheet)->0))
}

/// A platform in the world, with the sheet that holds its sprite.
pub struct Platform {
    pub sheet: Sheet,
    pub position: Point,
}

impl Platform {
    /// A platform with its corner at `position`.
    pub fn new(sheet: Sheet, position: Point) -> (platform: Self)
        ensures
            platform.sheet == sheet,
            platform.position == position,
    {
        Platform { sheet, position }
    }

    /// Whether the rectangle that the platform covers can be had.
    pub fn has_destination_box(&self) -> (defined: bool)
        ensures
            defined == platform_destination_defined(self.sheet@),
    {
        match self.sheet.get(PLATFORM_SPRITE) {
            Some(tile) => {
                let width: i32 = tile.frame.w as i32 * PLATFORM_TILES as i32;
                -32768 <= width && width <= 32767
            },
            None => false,
        }
    }

    /// Whether the platform's bounding boxes can be had.
    pub fn has_bounding_boxes(&self) -> (defined: bool)
        ensures
            defined == platform_boxes_defined(self.sheet@, self.position),
    {
        if !self.has_destination_box() {
            return false;
        }
        let destination = self.destination_box();
        let middle_x: i32 = destination.x as i32 + END_WIDTH as i32;
        let middle_width: i32 = destination.width as i32 - END_WIDTH as i32 * 2;
        let right_x: i32 = destination.x as i32 + destination.width as i32 - END_WIDTH as i32;
        middle_x <= 32767 && -32768 <= middle_width && -32768 <= right_x && right_x <= 32767
    }

    /// The rectangle that the platform covers: three tiles side by side,
    /// from the platform's position.
    pub fn destination_box(&self) -> (destination: Rect)
        requires
            platform_destination_defined(self.sheet@),
        ensures
            destination == platform_destination_of(self.position, platform_tile(self.sheet@)->0),
            destination.width == platform_tile(self.sheet@)->0.frame.w * PLATFORM_TILES,
    {
        let tile = self.sheet.get(PLATFORM_SPRITE).unwrap();
        Rect {
            x: self.position.x,
            y: self.position.y,
            width: tile.frame.w * PLATFORM_TILES,
            height: tile.frame.h,
        }
    }

    /// The rectangles with which the platform collides, from left to right.
    pub fn bounding_boxes(&self) -> (boxes: Vec<Rect>)
        requires
            platform_boxes_defined(self.sheet@, self.position),
        ensures
            boxes@ == platform_boxes(self.sheet@, self.position),
    {
        let destination_box = self.destination_box();
        let bounding_box_one = Rect {
            x: destination_box.x,
            y: destination_box.y,
            width: END_WIDTH,
            height: END_HEIGHT,
        };
        let bounding_box_two = Rect {
            x: destination_box.x + END_WIDTH,
            y: destination_box.y,
            width: destination_box.width - (END_WIDTH * 2),
            height: destination_box.height,
        };
        let right_x: i32 = destination_box.x as i32 + destination_box.width as i32
            - END_WIDTH as i32;
        let bounding_box_three = Rect {
            x: right_x as i16,
            y: destination_box.y,
            width: END_WIDTH,
            height: END_HEIGHT,
        };
        let boxes = vec![bounding_box_one, bounding_box_two, bounding_box_three];
        assert(boxes@ =~= platform_boxes(self.sheet@, self.position));
        boxes
    }
}

} // verus!
