use walk_the_dog::boy::RedHatBoy;
use walk_the_dog::context::{RedHatBoyContext, FLOOR, STARTING_POINT};
use walk_the_dog::geometry::{Point, Rect};
use walk_the_dog::machine::{Event, RedHatBoyStateMachine};
use walk_the_dog::sheet::{Cell, Sheet, SheetRect};

fn cell(w: i16, h: i16, source_x: i16, source_y: i16) -> Cell {
    Cell {
        frame: SheetRect { x: 0, y: 0, w, h },
        sprite_source_size: SheetRect { x: source_x, y: source_y, w, h },
    }
}

fn sheet_with(cells: &[(&str, Cell)]) -> Sheet {
    let mut sheet = Sheet::new();
    for (name, cell) in cells {
        sheet.insert(name.to_string(), *cell);
    }
    sheet
}

fn full_sheet() -> Sheet {
    let mut sheet = Sheet::new();
    let animations = [("Idle", 10), ("Run", 8), ("Slide", 5), ("Jump", 12), ("Dead", 10)];
    for (name, pictures) in animations {
        for index in 1..=pictures {
            sheet.insert(format!("{} ({}).png", name, index), cell(128, 114, 2, 6));
        }
    }
    sheet
}

fn context(frame: u8, y: i16, vx: i16, vy: i16) -> RedHatBoyContext {
    RedHatBoyContext {
        frame,
        position: Point { x: STARTING_POINT, y },
        velocity: Point { x: vx, y: vy },
    }
}

fn is_running(boy: &RedHatBoy) -> bool {
    matches!(boy.state_machine, RedHatBoyStateMachine::Running(_))
}

fn is_falling(boy: &RedHatBoy) -> bool {
    matches!(boy.state_machine, RedHatBoyStateMachine::Falling(_))
}

fn ticks(boy: &mut RedHatBoy, count: usize) {
    for _ in 0..count {
        boy.update();
    }
}

#[test]
fn sheet_lookup() {
    let a = cell(1, 2, 3, 4);
    let b = cell(5, 6, 7, 8);
    let mut sheet = sheet_with(&[("a.png", a), ("b.png", b)]);
    assert_eq!(sheet.get("a.png"), Some(a));
    assert_eq!(sheet.get("b.png"), Some(b));
    assert_eq!(sheet.get("c.png"), None);
    assert_eq!(sheet.get(""), None);
    assert_eq!(Sheet::new().get("a.png"), None);
    sheet.insert("a.png".to_string(), b);
    assert_eq!(sheet.get("a.png"), Some(b));
}

#[test]
fn boy_starts_idle() {
    let boy = RedHatBoy::new(full_sheet());
    assert!(matches!(boy.state_machine, RedHatBoyStateMachine::Idle(_)));
    assert_eq!(*boy.state_machine.context(), context(0, FLOOR, 0, 0));
    assert_eq!(boy.walking_speed(), 0);
    assert_eq!(boy.pos_y(), FLOOR);
    assert_eq!(boy.velocity_y(), 0);
}

#[test]
fn frame_name_of_the_idle_boy() {
    let mut boy = RedHatBoy::new(Sheet::new());
    assert_eq!(boy.frame_name(), "Idle (1).png");
    ticks(&mut boy, 2);
    assert_eq!(boy.frame_name(), "Idle (1).png");
    ticks(&mut boy, 1);
    assert_eq!(boy.frame_name(), "Idle (2).png");
    ticks(&mut boy, 23);
    assert_eq!(boy.frame_name(), "Idle (9).png");
    ticks(&mut boy, 1);
    assert_eq!(boy.frame_name(), "Idle (10).png");
    ticks(&mut boy, 2);
    assert_eq!(boy.frame_name(), "Idle (10).png");
    ticks(&mut boy, 1);
    assert_eq!(boy.frame_name(), "Idle (1).png");
}

#[test]
fn frame_name_holds_each_picture_for_three_ticks() {
    let mut boy = RedHatBoy::new(Sheet::new());
    boy.run_right();
    for tick in 0..24usize {
        assert_eq!(boy.frame_name(), format!("Run ({}).png", tick / 3 + 1));
        boy.update();
    }
    assert_eq!(boy.frame_name(), "Run (1).png");
}

#[test]
fn frame_names_of_the_other_states() {
    let mut boy = RedHatBoy::new(Sheet::new());
    boy.run_right();
    boy.slide();
    assert_eq!(boy.frame_name(), "Slide (1).png");
    ticks(&mut boy, 13);
    assert_eq!(boy.frame_name(), "Slide (5).png");
    ticks(&mut boy, 1);
    assert_eq!(boy.frame_name(), "Run (1).png");
    boy.jump();
    assert_eq!(boy.frame_name(), "Jump (1).png");
    ticks(&mut boy, 35);
    assert_eq!(boy.frame_name(), "Jump (12).png");
    boy.knock_out();
    assert_eq!(boy.frame_name(), "Dead (1).png");
    ticks(&mut boy, 28);
    assert_eq!(boy.frame_name(), "Dead (10).png");
    ticks(&mut boy, 1);
    assert!(matches!(boy.state_machine, RedHatBoyStateMachine::KnockedOut(_)));
    assert_eq!(boy.frame_name(), "Dead (10).png");
}

#[test]
fn current_sprite_is_looked_up_by_name() {
    let first = cell(10, 20, 1, 2);
    let second = cell(30, 40, 3, 4);
    let mut boy = RedHatBoy::new(sheet_with(&[("Idle (1).png", first), ("Idle (2).png", second)]));
    assert_eq!(boy.current_sprite(), Some(first));
    ticks(&mut boy, 3);
    assert_eq!(boy.current_sprite(), Some(second));
    ticks(&mut boy, 3);
    assert_eq!(boy.current_sprite(), None);
    assert!(!boy.has_destination_box());
    assert!(!boy.has_bounding_box());
}

#[test]
fn destination_box_adds_the_sprite_offset() {
    let boy = RedHatBoy::new(full_sheet());
    assert!(boy.has_destination_box());
    assert_eq!(boy.destination_box(), Rect { x: -18, y: 485, width: 128, height: 114 });
}

#[test]
fn bounding_box_leaves_out_the_margin() {
    let boy = RedHatBoy::new(full_sheet());
    assert!(boy.has_bounding_box());
    assert_eq!(boy.bounding_box(), Rect { x: 0, y: 499, width: 100, height: 100 });
}

#[test]
fn bounding_box_follows_the_character() {
    let mut boy = RedHatBoy::new(full_sheet());
    boy.run_right();
    boy.jump();
    boy.update();
    assert_eq!(boy.pos_y(), 455);
    assert_eq!(boy.bounding_box(), Rect { x: 0, y: 475, width: 100, height: 100 });
    assert_eq!(boy.destination_box(), Rect { x: -18, y: 461, width: 128, height: 114 });
}

#[test]
fn boxes_at_the_ends_of_the_range() {
    let boy = RedHatBoy::new(sheet_with(&[("Idle (1).png", cell(-32740, -32754, 32767, 32274))]));
    assert!(boy.has_destination_box());
    assert_eq!(
        boy.destination_box(),
        Rect { x: 32747, y: 32753, width: -32740, height: -32754 }
    );
    assert!(boy.has_bounding_box());
    assert_eq!(boy.bounding_box(), Rect { x: 32765, y: 32767, width: -32768, height: -32768 });
    let boy = RedHatBoy::new(sheet_with(&[("Idle (1).png", cell(0, 0, 32767, 32275))]));
    assert!(boy.has_destination_box());
    assert!(!boy.has_bounding_box());
    let boy = RedHatBoy::new(sheet_with(&[("Idle (1).png", cell(0, 0, 32767, 32289))]));
    assert!(!boy.has_destination_box());
    assert!(!boy.has_bounding_box());
    let boy = RedHatBoy::new(sheet_with(&[("Idle (1).png", cell(-32741, 0, 0, 0))]));
    assert!(boy.has_destination_box());
    assert!(!boy.has_bounding_box());
    let boy = RedHatBoy::new(sheet_with(&[("Idle (1).png", cell(0, -32755, 0, 0))]));
    assert!(!boy.has_bounding_box());
}

#[test]
fn boy_events_move_the_machine() {
    let mut boy = RedHatBoy::new(full_sheet());
    boy.slide();
    boy.jump();
    boy.knock_out();
    boy.land_on(420);
    assert!(matches!(boy.state_machine, RedHatBoyStateMachine::Idle(_)));
    assert_eq!(*boy.state_machine.context(), context(0, FLOOR, 0, 0));
    boy.run_right();
    assert!(is_running(&boy));
    assert_eq!(boy.walking_speed(), 4);
    boy.land_on(420);
    assert_eq!(boy.pos_y(), 299);
    boy.slide();
    assert!(matches!(boy.state_machine, RedHatBoyStateMachine::Sliding(_)));
    boy.knock_out();
    assert!(is_falling(&boy));
    assert_eq!(boy.walking_speed(), 0);
    assert_eq!(boy.velocity_y(), 0);
}

#[test]
fn boy_knows_whether_it_can_move() {
    let mut boy = RedHatBoy::new(full_sheet());
    boy.run_right();
    assert!(boy.can_update());
    assert!(boy.can_land_on(-32647));
    assert!(!boy.can_land_on(-32648));
    boy.land_on(-32647);
    boy.jump();
    assert!(!boy.can_update());
}

#[test]
fn platform_box_from_above_lands() {
    let mut boy = RedHatBoy::new(full_sheet());
    boy.run_right();
    boy.land_on(400);
    boy.update();
    assert_eq!(*boy.state_machine.context(), context(1, 280, 4, 1));
    assert_eq!(boy.bounding_box(), Rect { x: 0, y: 300, width: 100, height: 100 });
    let platform_box = Rect { x: 50, y: 390, width: 60, height: 54 };
    assert!(boy.can_meet_platform_box(&platform_box, 390));
    boy.meet_platform_box(&platform_box, 390);
    assert!(is_running(&boy));
    assert_eq!(*boy.state_machine.context(), context(1, 269, 4, 1));
}

#[test]
fn sliding_boy_from_above_lands_and_slides_on() {
    let mut boy = RedHatBoy::new(full_sheet());
    boy.run_right();
    boy.land_on(400);
    boy.slide();
    boy.update();
    let platform_box = Rect { x: 50, y: 390, width: 60, height: 54 };
    boy.meet_platform_box(&platform_box, 390);
    assert!(matches!(boy.state_machine, RedHatBoyStateMachine::Sliding(_)));
    assert_eq!(*boy.state_machine.context(), context(1, 269, 4, 1));
}

#[test]
fn jumping_boy_from_above_lands_and_runs() {
    let mut boy = RedHatBoy::new(full_sheet());
    boy.run_right();
    boy.jump();
    ticks(&mut boy, 30);
    assert_eq!(*boy.state_machine.context(), context(30, 194, 4, 5));
    let platform_box = Rect { x: 50, y: 300, width: 60, height: 54 };
    boy.meet_platform_box(&platform_box, 300);
    assert!(is_running(&boy));
    assert_eq!(*boy.state_machine.context(), context(0, 179, 4, 5));
}

#[test]
fn platform_box_while_rising_knocks_out() {
    let mut boy = RedHatBoy::new(full_sheet());
    boy.run_right();
    boy.jump();
    ticks(&mut boy, 10);
    assert_eq!(*boy.state_machine.context(), context(10, 284, 4, -15));
    let platform_box = Rect { x: 50, y: 300, width: 60, height: 54 };
    boy.meet_platform_box(&platform_box, 300);
    assert!(is_falling(&boy));
    assert_eq!(*boy.state_machine.context(), context(0, 284, 0, 0));
}

#[test]
fn platform_box_at_rest_knocks_out() {
    let mut boy = RedHatBoy::new(full_sheet());
    boy.run_right();
    boy.jump();
    ticks(&mut boy, 25);
    assert_eq!(*boy.state_machine.context(), context(25, 179, 4, 0));
    let platform_box = Rect { x: 50, y: 250, width: 60, height: 54 };
    boy.meet_platform_box(&platform_box, 250);
    assert!(is_falling(&boy));
}

#[test]
fn platform_box_from_beside_knocks_out() {
    let mut boy = RedHatBoy::new(full_sheet());
    boy.run_right();
    ticks(&mut boy, 5);
    assert_eq!(*boy.state_machine.context(), context(5, FLOOR, 4, 5));
    let platform_box = Rect { x: 98, y: 420, width: 264, height: 93 };
    boy.meet_platform_box(&platform_box, 420);
    assert!(is_falling(&boy));
    assert_eq!(*boy.state_machine.context(), context(0, FLOOR, 0, 0));
}

#[test]
fn platform_box_at_the_same_height_knocks_out() {
    let mut boy = RedHatBoy::new(full_sheet());
    boy.run_right();
    boy.land_on(541);
    boy.update();
    assert_eq!(*boy.state_machine.context(), context(1, 421, 4, 1));
    let platform_box = Rect { x: 50, y: 421, width: 60, height: 54 };
    let mut above = RedHatBoy::new(full_sheet());
    above.run_right();
    above.land_on(540);
    above.update();
    assert_eq!(above.pos_y(), 420);
    boy.meet_platform_box(&platform_box, 421);
    assert!(is_falling(&boy));
    above.meet_platform_box(&platform_box, 421);
    assert!(is_running(&above));
    assert_eq!(above.pos_y(), 300);
}

#[test]
fn platform_box_that_is_not_touched_changes_nothing() {
    let mut boy = RedHatBoy::new(full_sheet());
    boy.run_right();
    ticks(&mut boy, 5);
    let platform_box = Rect { x: 100, y: 420, width: 264, height: 93 };
    boy.meet_platform_box(&platform_box, 420);
    assert!(is_running(&boy));
    assert_eq!(*boy.state_machine.context(), context(5, FLOOR, 4, 5));
    let platform_box = Rect { x: 50, y: 420, width: 60, height: 79 };
    boy.meet_platform_box(&platform_box, 420);
    assert!(is_running(&boy));
    assert_eq!(*boy.state_machine.context(), context(5, FLOOR, 4, 5));
}

#[test]
fn idle_boy_is_not_hit() {
    let mut boy = RedHatBoy::new(full_sheet());
    let platform_box = Rect { x: 50, y: 420, width: 60, height: 93 };
    boy.meet_platform_box(&platform_box, 420);
    assert!(matches!(boy.state_machine, RedHatBoyStateMachine::Idle(_)));
    boy.meet_obstacle(&platform_box);
    assert!(matches!(boy.state_machine, RedHatBoyStateMachine::Idle(_)));
    assert_eq!(*boy.state_machine.context(), context(0, FLOOR, 0, 0));
}

#[test]
fn obstacle_knocks_out_where_it_overlaps() {
    let mut boy = RedHatBoy::new(full_sheet());
    boy.run_right();
    ticks(&mut boy, 3);
    boy.meet_obstacle(&Rect { x: 100, y: 546, width: 50, height: 54 });
    assert!(is_running(&boy));
    boy.meet_obstacle(&Rect { x: 98, y: 546, width: 50, height: 54 });
    assert!(is_falling(&boy));
    assert_eq!(*boy.state_machine.context(), context(0, FLOOR, 0, 0));
}

#[test]
fn obstacle_knocks_out_from_above_too() {
    let mut boy = RedHatBoy::new(full_sheet());
    boy.run_right();
    boy.land_on(500);
    boy.update();
    assert_eq!(*boy.state_machine.context(), context(1, 380, 4, 1));
    boy.meet_obstacle(&Rect { x: 50, y: 490, width: 50, height: 54 });
    assert!(is_falling(&boy));
}

#[test]
fn can_meet_platform_box_needs_the_sprite() {
    let mut boy = RedHatBoy::new(sheet_with(&[("Idle (1).png", cell(128, 114, 2, 6))]));
    let platform_box = Rect { x: 50, y: 420, width: 60, height: 93 };
    assert!(boy.can_meet_platform_box(&platform_box, 420));
    boy.run_right();
    assert!(!boy.can_meet_platform_box(&platform_box, 420));
}

#[test]
fn can_meet_platform_box_needs_room_to_land() {
    let mut boy = RedHatBoy::new(sheet_with(&[("Run (1).png", cell(128, 114, 2, 32000))]));
    boy.run_right();
    boy.land_on(-32600);
    boy.update();
    assert_eq!(*boy.state_machine.context(), context(1, -32720, 4, 1));
    assert_eq!(boy.bounding_box(), Rect { x: 0, y: -706, width: 100, height: 100 });
    let low = Rect { x: 0, y: -32648, width: 100, height: 32000 };
    assert!(!boy.can_meet_platform_box(&low, -32648));
    let high = Rect { x: 0, y: -32647, width: 100, height: 32000 };
    assert!(boy.can_meet_platform_box(&high, -32647));
    boy.meet_platform_box(&high, -32647);
    assert_eq!(boy.pos_y(), -32768);
    let away = Rect { x: 500, y: -32648, width: 100, height: 32000 };
    let mut other = RedHatBoy::new(sheet_with(&[("Run (1).png", cell(128, 114, 2, 32000))]));
    other.run_right();
    other.land_on(-32600);
    other.update();
    assert!(other.can_meet_platform_box(&away, -32648));
    other.state_machine = other.state_machine.transition(Event::KnockOut);
    assert!(is_falling(&other));
}
