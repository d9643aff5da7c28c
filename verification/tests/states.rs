use walk_the_dog::context::{RedHatBoyContext, FLOOR, STARTING_POINT};
use walk_the_dog::geometry::Point;
use walk_the_dog::states::{
    FallingEndState, Idle, JumpingEndState, RedHatBoyState, Running, SlidingEndState,
    FALLING_FRAMES, IDLE_FRAMES, JUMPING_FRAMES, RUNNING_FRAMES, SLIDING_FRAMES,
};

fn context(frame: u8, y: i16, vx: i16, vy: i16) -> RedHatBoyContext {
    RedHatBoyContext {
        frame,
        position: Point { x: STARTING_POINT, y },
        velocity: Point { x: vx, y: vy },
    }
}

fn running() -> RedHatBoyState<Running> {
    RedHatBoyState::<Idle>::new().run()
}

#[test]
fn animation_lengths() {
    assert_eq!(IDLE_FRAMES, 29);
    assert_eq!(RUNNING_FRAMES, 23);
    assert_eq!(SLIDING_FRAMES, 14);
    assert_eq!(JUMPING_FRAMES, 35);
    assert_eq!(FALLING_FRAMES, 29);
}

#[test]
fn idle_starts_at_rest_on_the_floor() {
    let idle = RedHatBoyState::<Idle>::new();
    assert_eq!(*idle.context(), context(0, FLOOR, 0, 0));
    assert_eq!(idle.frame_name(), "Idle");
}

#[test]
fn idle_update_cycles_thirty_frames() {
    let mut idle = RedHatBoyState::<Idle>::new();
    for tick in 1..=29 {
        idle = idle.update();
        assert_eq!(idle.context().frame, tick);
        assert_eq!(idle.context().position.y, FLOOR);
    }
    idle = idle.update();
    assert_eq!(*idle.context(), context(0, FLOOR, 0, 20));
}

#[test]
fn run_resets_the_frame_and_sets_the_speed() {
    let idle = RedHatBoyState::<Idle>::new().update().update();
    assert_eq!(*idle.context(), context(2, FLOOR, 0, 2));
    let running = idle.run();
    assert_eq!(*running.context(), context(0, FLOOR, 4, 2));
    assert_eq!(running.frame_name(), "Run");
}

#[test]
fn running_update_cycles_twenty_four_frames() {
    let mut state = running();
    for tick in 1..=23 {
        state = state.update();
        assert_eq!(state.context().frame, tick);
    }
    state = state.update();
    assert_eq!(*state.context(), context(0, FLOOR, 4, 20));
}

#[test]
fn slide_resets_the_frame() {
    let sliding = running().update().update().slide();
    assert_eq!(*sliding.context(), context(0, FLOOR, 4, 2));
    assert_eq!(sliding.frame_name(), "Slide");
}

#[test]
fn sliding_ends_after_fourteen_ticks() {
    let mut sliding = running().slide();
    for tick in 1..=13 {
        sliding = match sliding.update() {
            SlidingEndState::Sliding(next) => next,
            SlidingEndState::Complete(_) => panic!("the slide ended at tick {}", tick),
        };
        assert_eq!(sliding.context().frame, tick);
    }
    match sliding.update() {
        SlidingEndState::Complete(next) => {
            assert_eq!(*next.context(), context(0, FLOOR, 4, 14));
            assert_eq!(next.frame_name(), "Run");
        },
        SlidingEndState::Sliding(_) => panic!("the slide did not end"),
    }
}

#[test]
fn stand_resets_the_frame() {
    let sliding = match running().slide().update() {
        SlidingEndState::Sliding(next) => next,
        SlidingEndState::Complete(_) => panic!("the slide ended at once"),
    };
    assert_eq!(sliding.context().frame, 1);
    assert_eq!(*sliding.stand().context(), context(0, FLOOR, 4, 1));
}

#[test]
fn jump_sets_the_jump_speed() {
    let jumping = running().update().jump();
    assert_eq!(*jumping.context(), context(0, FLOOR, 4, -25));
    assert_eq!(jumping.frame_name(), "Jump");
}

#[test]
fn jumping_from_the_floor_lands_after_fifty_ticks() {
    let mut jumping = running().jump();
    for tick in 1..=49 {
        jumping = match jumping.update() {
            JumpingEndState::Jumping(next) => next,
            JumpingEndState::Landing(_) => panic!("landed at tick {}", tick),
        };
        assert!(jumping.context().position.y < FLOOR);
        assert_eq!(jumping.context().velocity.x, 4);
        if tick == 1 {
            assert_eq!(*jumping.context(), context(1, 455, 4, -24));
        }
        if tick == 24 {
            assert_eq!(*jumping.context(), context(24, 179, 4, -1));
        }
        if tick == 25 {
            assert_eq!(*jumping.context(), context(25, 179, 4, 0));
        }
        if tick == 36 {
            assert_eq!(*jumping.context(), context(0, 245, 4, 11));
        }
        if tick == 49 {
            assert_eq!(*jumping.context(), context(13, 469, 4, 20));
        }
    }
    match jumping.update() {
        JumpingEndState::Landing(next) => {
            assert_eq!(*next.context(), context(0, FLOOR, 4, 20));
            assert_eq!(next.frame_name(), "Run");
        },
        JumpingEndState::Jumping(_) => panic!("did not land"),
    }
}

#[test]
fn landing_on_a_surface_sets_the_feet_there() {
    let landed = running().update().land_on(420);
    assert_eq!(*landed.context(), context(1, 299, 4, 1));
    let sliding = running().slide().land_on(420);
    assert_eq!(*sliding.context(), context(0, 299, 4, 0));
    assert_eq!(sliding.frame_name(), "Slide");
    let jumping = match running().jump().update() {
        JumpingEndState::Jumping(next) => next,
        JumpingEndState::Landing(_) => panic!("landed at once"),
    };
    let landed = jumping.land_on(420);
    assert_eq!(*landed.context(), context(0, 299, 4, -24));
    assert_eq!(landed.frame_name(), "Run");
}

#[test]
fn knock_out_stops_the_character() {
    let falling = running().update().update().knock_out();
    assert_eq!(*falling.context(), context(0, FLOOR, 0, 0));
    assert_eq!(falling.frame_name(), "Dead");
    let falling = running().slide().knock_out();
    assert_eq!(*falling.context(), context(0, FLOOR, 0, 0));
    let jumping = match running().jump().update() {
        JumpingEndState::Jumping(next) => next,
        JumpingEndState::Landing(_) => panic!("landed at once"),
    };
    let falling = jumping.knock_out();
    assert_eq!(*falling.context(), context(0, 455, 0, 0));
}

#[test]
fn falling_ends_after_twenty_nine_ticks() {
    let mut falling = running().knock_out();
    for tick in 1..=28 {
        falling = match falling.update() {
            FallingEndState::Falling(next) => next,
            FallingEndState::KnockedOut(_) => panic!("knocked out at tick {}", tick),
        };
        assert_eq!(falling.context().frame, tick);
    }
    match falling.update() {
        FallingEndState::KnockedOut(next) => {
            assert_eq!(*next.context(), context(29, FLOOR, 0, 20));
            assert_eq!(next.frame_name(), "Dead");
        },
        FallingEndState::Falling(_) => panic!("the fall did not end"),
    }
}

#[test]
fn falling_in_the_air_comes_down() {
    let jumping = match running().jump().update() {
        JumpingEndState::Jumping(next) => next,
        JumpingEndState::Landing(_) => panic!("landed at once"),
    };
    let mut falling = jumping.knock_out();
    for _ in 0..6 {
        falling = match falling.update() {
            FallingEndState::Falling(next) => next,
            FallingEndState::KnockedOut(_) => panic!("knocked out too early"),
        };
    }
    assert_eq!(*falling.context(), context(6, 476, 0, 6));
    falling = match falling.update() {
        FallingEndState::Falling(next) => next,
        FallingEndState::KnockedOut(_) => panic!("knocked out too early"),
    };
    assert_eq!(*falling.context(), context(7, FLOOR, 0, 7));
}

#[test]
fn falling_knock_out_keeps_the_context() {
    let falling = running().update().knock_out();
    let context_before = *falling.context();
    let knocked_out = falling.knock_out();
    assert_eq!(*knocked_out.context(), context_before);
    assert_eq!(knocked_out.frame_name(), "Dead");
}
