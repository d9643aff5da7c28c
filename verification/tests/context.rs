use walk_the_dog::context::{
    RedHatBoyContext, FLOOR, GRAVITY, HEIGHT, JUMP_SPEED, PLAYER_HEIGHT, RUNNING_SPEED,
    STARTING_POINT, TERMINAL_VELOCITY,
};
use walk_the_dog::geometry::Point;

fn context(frame: u8, y: i16, vx: i16, vy: i16) -> RedHatBoyContext {
    RedHatBoyContext {
        frame,
        position: Point { x: STARTING_POINT, y },
        velocity: Point { x: vx, y: vy },
    }
}

#[test]
fn constants_have_their_values() {
    assert_eq!(HEIGHT, 600);
    assert_eq!(FLOOR, 479);
    assert_eq!(PLAYER_HEIGHT, 121);
    assert_eq!(STARTING_POINT, -20);
    assert_eq!(RUNNING_SPEED, 4);
    assert_eq!(JUMP_SPEED, -25);
    assert_eq!(GRAVITY, 1);
    assert_eq!(TERMINAL_VELOCITY, 20);
}

#[test]
fn update_applies_gravity_then_moves() {
    let next = context(0, 100, 4, 0).update(29);
    assert_eq!(next, context(1, 101, 4, 1));
    let next = next.update(29);
    assert_eq!(next, context(2, 103, 4, 2));
}

#[test]
fn update_moves_up_with_negative_velocity() {
    let next = context(0, 479, 4, -25).update(35);
    assert_eq!(next, context(1, 455, 4, -24));
}

#[test]
fn gravity_adds_one_per_tick_from_rest() {
    let mut c = context(0, -10000, 0, 0);
    for tick in 1..=20 {
        c = c.update(200);
        assert_eq!(c.velocity.y, tick * GRAVITY);
    }
}

#[test]
fn gravity_stops_at_terminal_velocity() {
    let mut c = context(0, -10000, 0, 0);
    for _ in 0..20 {
        c = c.update(200);
    }
    assert_eq!(c.velocity.y, TERMINAL_VELOCITY);
    for _ in 0..50 {
        c = c.update(200);
        assert_eq!(c.velocity.y, TERMINAL_VELOCITY);
    }
    assert_eq!(c.position.y, -10000 + 210 + 50 * 20);
}

#[test]
fn velocity_beyond_terminal_is_left_alone() {
    let next = context(0, 0, 0, 30).update(29);
    assert_eq!(next.velocity.y, 30);
    assert_eq!(next.position.y, 30);
}

#[test]
fn frame_advances_and_wraps() {
    let mut c = context(0, FLOOR, 0, 0);
    for tick in 1..=29 {
        c = c.update(29);
        assert_eq!(c.frame, tick);
    }
    c = c.update(29);
    assert_eq!(c.frame, 0);
}

#[test]
fn frame_beyond_the_animation_wraps_at_once() {
    assert_eq!(context(200, FLOOR, 0, 0).update(29).frame, 0);
    assert_eq!(context(29, FLOOR, 0, 0).update(29).frame, 0);
    assert_eq!(context(28, FLOOR, 0, 0).update(29).frame, 29);
    assert_eq!(context(0, FLOOR, 0, 0).update(0).frame, 0);
}

#[test]
fn position_is_clamped_to_the_floor() {
    assert_eq!(context(0, 470, 0, 19).update(29).position.y, FLOOR);
    assert_eq!(context(0, FLOOR, 0, 0).update(29).position.y, FLOOR);
    assert_eq!(context(0, 458, 0, 20).update(29).position.y, 478);
    assert_eq!(context(0, 459, 0, 20).update(29).position.y, FLOOR);
}

#[test]
fn floor_clamp_holds_for_any_velocity() {
    assert_eq!(context(0, 32767, 0, 32767).update(29).position.y, FLOOR);
    assert_eq!(context(0, 32767, 0, 20).update(29).position.y, FLOOR);
    assert_eq!(context(0, 500, 0, 5).update(29).position.y, FLOOR);
    assert_eq!(context(0, -32768, 0, 32767).update(29).position.y, -1);
}

#[test]
fn update_leaves_horizontal_values() {
    let next = context(3, 100, 4, 5).update(23);
    assert_eq!(next.position.x, STARTING_POINT);
    assert_eq!(next.velocity.x, 4);
}

#[test]
fn fits_update_tells_the_upper_end() {
    assert!(context(0, -32768, 0, 0).fits_update());
    assert!(context(0, -32768, 0, -1).fits_update());
    assert!(!context(0, -32768, 0, -2).fits_update());
    assert!(context(0, -32744, 0, -25).fits_update());
    assert!(!context(0, -32745, 0, -25).fits_update());
    assert!(context(0, 32767, 0, 32767).fits_update());
    assert_eq!(context(0, -32744, 0, -25).update(35).position.y, -32768);
}

#[test]
fn reset_frame_only_resets_the_frame() {
    assert_eq!(context(17, 100, 4, -3).reset_frame(), context(0, 100, 4, -3));
}

#[test]
fn run_right_sets_the_running_speed() {
    assert_eq!(context(17, 100, 0, -3).run_right(), context(17, 100, 4, -3));
}

#[test]
fn set_vertical_velocity_sets_it() {
    assert_eq!(context(17, 100, 4, 9).set_vertical_velocity(-25), context(17, 100, 4, -25));
}

#[test]
fn stop_zeroes_the_velocity() {
    assert_eq!(context(17, 100, 4, 9).stop(), context(17, 100, 0, 0));
}

#[test]
fn set_on_puts_the_feet_on_the_surface() {
    assert_eq!(context(17, 100, 4, 9).set_on(420), context(17, 299, 4, 9));
    assert_eq!(context(17, 100, 4, 9).set_on(HEIGHT), context(17, FLOOR, 4, 9));
    assert_eq!(context(0, 0, 0, 0).set_on(-32647).position.y, -32768);
}

#[test]
fn fits_on_tells_the_upper_end() {
    assert!(RedHatBoyContext::fits_on(-32647));
    assert!(!RedHatBoyContext::fits_on(-32648));
    assert!(RedHatBoyContext::fits_on(32767));
}
