use walk_the_dog::geometry::{Point, Rect};
use walk_the_dog::keys::KeyState;
use walk_the_dog::platform::{Platform, END_HEIGHT, END_WIDTH, PLATFORM_SPRITE, PLATFORM_TILES};
use walk_the_dog::sheet::{Cell, Sheet, SheetRect};

fn tile(x: i16, y: i16, w: i16, h: i16) -> Cell {
    Cell { frame: SheetRect { x, y, w, h }, sprite_source_size: SheetRect { x: 0, y: 0, w, h } }
}

fn tiles(cell: Cell) -> Sheet {
    let mut sheet = Sheet::new();
    sheet.insert("13.png".to_string(), cell);
    sheet
}

#[test]
fn platform_constants() {
    assert_eq!(PLATFORM_SPRITE, "13.png");
    assert_eq!(PLATFORM_TILES, 3);
    assert_eq!(END_WIDTH, 60);
    assert_eq!(END_HEIGHT, 54);
}

#[test]
fn platform_destination_is_three_tiles_wide() {
    let platform = Platform::new(tiles(tile(256, 128, 128, 93)), Point { x: 370, y: 420 });
    assert!(platform.has_destination_box());
    assert_eq!(platform.destination_box(), Rect { x: 370, y: 420, width: 384, height: 93 });
}

#[test]
fn platform_has_three_bounding_boxes() {
    let platform = Platform::new(tiles(tile(256, 128, 128, 93)), Point { x: 370, y: 420 });
    assert!(platform.has_bounding_boxes());
    assert_eq!(
        platform.bounding_boxes(),
        vec![
            Rect { x: 370, y: 420, width: 60, height: 54 },
            Rect { x: 430, y: 420, width: 264, height: 93 },
            Rect { x: 694, y: 420, width: 60, height: 54 },
        ]
    );
}

#[test]
fn platform_boxes_follow_the_position() {
    let mut platform = Platform::new(tiles(tile(0, 0, 100, 80)), Point { x: 0, y: 0 });
    platform.position.x = -500;
    platform.position.y = 375;
    assert_eq!(
        platform.bounding_boxes(),
        vec![
            Rect { x: -500, y: 375, width: 60, height: 54 },
            Rect { x: -440, y: 375, width: 180, height: 80 },
            Rect { x: -260, y: 375, width: 60, height: 54 },
        ]
    );
}

#[test]
fn platform_without_its_sprite_has_no_boxes() {
    let mut sheet = Sheet::new();
    sheet.insert("14.png".to_string(), tile(0, 0, 128, 93));
    let platform = Platform::new(sheet, Point { x: 370, y: 420 });
    assert!(!platform.has_destination_box());
    assert!(!platform.has_bounding_boxes());
}

#[test]
fn platform_boxes_at_the_ends_of_the_range() {
    let platform = Platform::new(tiles(tile(0, 0, 10922, 93)), Point { x: 0, y: 0 });
    assert!(platform.has_destination_box());
    assert_eq!(platform.destination_box().width, 32766);
    assert!(platform.has_bounding_boxes());
    let platform = Platform::new(tiles(tile(0, 0, 10923, 93)), Point { x: 0, y: 0 });
    assert!(!platform.has_destination_box());
    assert!(!platform.has_bounding_boxes());
    let platform = Platform::new(tiles(tile(0, 0, 128, 93)), Point { x: 32443, y: 0 });
    assert!(platform.has_destination_box());
    assert!(platform.has_bounding_boxes());
    assert_eq!(platform.bounding_boxes()[1].x, 32503);
    assert_eq!(platform.bounding_boxes()[2].x, 32767);
    let platform = Platform::new(tiles(tile(0, 0, 128, 93)), Point { x: 32444, y: 0 });
    assert!(platform.has_destination_box());
    assert!(!platform.has_bounding_boxes());
    let platform = Platform::new(tiles(tile(0, 0, 20, 93)), Point { x: 32707, y: 0 });
    assert!(platform.has_bounding_boxes());
    assert_eq!(platform.bounding_boxes()[1], Rect { x: 32767, y: 0, width: -60, height: 93 });
    assert_eq!(platform.bounding_boxes()[2].x, 32707);
    let platform = Platform::new(tiles(tile(0, 0, 20, 93)), Point { x: 32708, y: 0 });
    assert!(!platform.has_bounding_boxes());
    let platform = Platform::new(tiles(tile(0, 0, 128, 93)), Point { x: -32768, y: 0 });
    assert!(platform.has_bounding_boxes());
    assert_eq!(platform.bounding_boxes()[2].x, -32768 + 324);
    let platform = Platform::new(tiles(tile(0, 0, 10, 93)), Point { x: -32768, y: 0 });
    assert!(!platform.has_bounding_boxes());
    let platform = Platform::new(tiles(tile(0, 0, -10882, 93)), Point { x: 0, y: 0 });
    assert!(platform.has_destination_box());
    assert_eq!(platform.destination_box().width, -32646);
    assert!(platform.has_bounding_boxes());
    assert_eq!(platform.bounding_boxes()[1].width, -32766);
    let platform = Platform::new(tiles(tile(0, 0, -10883, 93)), Point { x: 0, y: 0 });
    assert!(platform.has_destination_box());
    assert!(!platform.has_bounding_boxes());
}

#[test]
fn keys_are_pressed_and_released() {
    let mut keys = KeyState::new();
    assert!(!keys.is_pressed("Space"));
    keys.set_pressed("Space");
    keys.set_pressed("ArrowRight");
    assert!(keys.is_pressed("Space"));
    assert!(keys.is_pressed("ArrowRight"));
    assert!(!keys.is_pressed("ArrowDown"));
    assert!(!keys.is_pressed("space"));
    keys.set_released("Space");
    assert!(!keys.is_pressed("Space"));
    assert!(keys.is_pressed("ArrowRight"));
    keys.set_released("Space");
    keys.set_pressed("ArrowRight");
    assert!(keys.is_pressed("ArrowRight"));
}
