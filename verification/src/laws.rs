//! What holds of the character's motion and of its state machine over any
//! number of ticks.

use vstd::prelude::*;
use crate::boy::{after_platform_hit, approaches_from_above, bounding_box_of};
use crate::context::{
    RedHatBoyContext, FLOOR, GRAVITY, JUMP_SPEED, PLAYER_HEIGHT, STARTING_POINT,
    TERMINAL_VELOCITY,
};
use crate::geometry::{Point, Rect};
use crate::machine::{Event, RedHatBoyStateMachine, StateKind, StateView};
use crate::sheet::Cell;
use crate::walk::{layers_scroll_fits, layers_scrolled, WalkView};
use crate::states::{FALLING_FRAMES, IDLE_FRAMES, JUMPING_FRAMES, SLIDING_FRAMES};

verus! {

/// The frame counter counts round and round: from a frame of the animation
/// it comes, tick by tick, to the animation's last frame, and with the tick
/// after that to the first again.
pub proof fn lemma_frames_cycle(context: RedHatBoyContext, frame_count: u8, ticks: nat)
    requires
        context.frame <= frame_count,
    ensures
        context.after_updates(frame_count, ticks).frame == (context.frame + ticks) % (frame_count
            + 1),
    decreases ticks,
{
    if ticks == 0 {
        assert(context.frame as int % (frame_count + 1) == context.frame) by (nonlinear_arith)
            requires
                0 <= context.frame <= frame_count,
        ;
    } else {
        let before = (ticks - 1) as nat;
        lemma_frames_cycle(context, frame_count, before);
        lemma_successor_modulo(context.frame + before, frame_count + 1);
        assert(context.frame + before + 1 == context.frame + ticks);
    }
}

/// The remainder of a number's successor is the successor of its remainder,
/// or nothing where that would be the divisor.
proof fn lemma_successor_modulo(number: int, divisor: int)
    by (nonlinear_arith)
    requires
        0 <= number,
        0 < divisor,
    ensures
        0 <= number % divisor < divisor,
        (number + 1) % divisor == if number % divisor + 1 < divisor {
            number % divisor + 1
        } else {
            0
        },
{
}

/// From the first frame, an animation whose last frame is `frame_count` is
/// at frame `ticks` after `ticks` ticks, as long as that is a frame of it,
/// and at its first frame again one tick after its last.
pub proof fn lemma_frames_wrap(context: RedHatBoyContext, frame_count: u8, ticks: nat)
    requires
        context.frame == 0,
        ticks <= frame_count,
    ensures
        context.after_updates(frame_count, ticks).frame == ticks,
        context.after_updates(frame_count, (frame_count + 1) as nat).frame == 0,
{
    lemma_frames_cycle(context, frame_count, ticks);
    lemma_frames_cycle(context, frame_count, (frame_count + 1) as nat);
    assert(ticks as int % (frame_count + 1) == ticks) by (nonlinear_arith)
        requires
            0 <= ticks <= frame_count,
    ;
    assert((frame_count + 1) % (frame_count + 1) == 0) by (nonlinear_arith)
        requires
            0 <= frame_count,
    ;
}

/// Gravity adds its constant to the vertical velocity with every tick until
/// terminal velocity is reached, and nothing after that. A velocity beyond
/// terminal velocity is left as it is.
pub proof fn lemma_gravity(context: RedHatBoyContext, frame_count: u8, ticks: nat)
    ensures
        context.after_updates(frame_count, ticks).velocity.y == if context.velocity.y
            >= TERMINAL_VELOCITY {
            context.velocity.y as int
        } else if context.velocity.y + ticks * GRAVITY < TERMINAL_VELOCITY {
            context.velocity.y + ticks * GRAVITY
        } else {
            TERMINAL_VELOCITY as int
        },
        context.after_updates(frame_count, ticks).velocity.x == context.velocity.x,
    decreases ticks,
{
    if ticks > 0 {
        lemma_gravity(context, frame_count, (ticks - 1) as nat);
    }
}

/// However fast the character moves, a tick never takes it below the floor.
pub proof fn lemma_floor_clamp(context: RedHatBoyContext, frame_count: u8)
    requires
        context.can_update(),
    ensures
        context.update(frame_count).position.y <= FLOOR,
        context.position.y + context.next_velocity_y() > FLOOR ==> context.update(
            frame_count,
        ).position.y == FLOOR,
{
}

/// A rise never takes the character down.
pub proof fn lemma_rise_ahead_is_no_fall(velocity: int)
    ensures
        RedHatBoyContext::rise_ahead(velocity) >= 0,
    decreases -velocity,
{
    if velocity < 0 {
        lemma_rise_ahead_is_no_fall(velocity + 1);
    }
}

/// A jump takes the character three hundred up before gravity has stopped
/// its rise.
pub proof fn lemma_rise_of_a_jump()
    ensures
        RedHatBoyContext::rise_ahead(JUMP_SPEED as int) == 300,
{
    reveal_with_fuel(RedHatBoyContext::rise_ahead, 27);
}

/// A character whose flight stays within the coordinate range can be
/// advanced by a tick, and where that tick does not bring it to the floor,
/// the rest of its flight stays within the range too.
pub proof fn lemma_flight_goes_on(context: RedHatBoyContext, frame_count: u8)
    requires
        context.flight_fits(),
    ensures
        context.can_update(),
        context.update(frame_count).position.y < FLOOR ==> context.update(
            frame_count,
        ).flight_fits(),
{
    lemma_rise_ahead_is_no_fall(context.velocity.y as int);
    lemma_rise_ahead_is_no_fall(context.velocity.y + 1);
    reveal_with_fuel(RedHatBoyContext::rise_ahead, 2);
}

/// A pair of state and event for which no move is defined leaves the machine
/// exactly as it is.
pub proof fn lemma_unlisted_pair_is_ignored(state: StateView, event: Event)
    requires
        !state.accepts(event),
    ensures
        state.after(event) == state,
{
}

/// A character that is knocked out stays so, whatever happens.
pub proof fn lemma_knocked_out_is_final(state: StateView, event: Event)
    requires
        state.kind == StateKind::KnockedOut,
    ensures
        !state.accepts(event),
        state.after(event) == state,
{
}

/// Ticks add up: `first + second` ticks are `first` ticks and then `second`
/// more.
pub proof fn lemma_updates_add_up(state: StateView, first: nat, second: nat)
    ensures
        state.after_updates(first + second) == state.after_updates(first).after_updates(second),
    decreases second,
{
    if second > 0 {
        lemma_updates_add_up(state, first, (second - 1) as nat);
        assert((first + second - 1) as nat == first + (second - 1) as nat);
    }
}

/// An idle or a running character that is left alone stays in its state, and
/// only its motion context goes on from tick to tick.
pub proof fn lemma_idle_and_running_go_on(state: StateView, ticks: nat)
    requires
        state.kind == StateKind::Idle || state.kind == StateKind::Running,
    ensures
        state.after_updates(ticks) == (StateView {
            kind: state.kind,
            context: state.context.after_updates(state.kind.frames(), ticks),
        }),
    decreases ticks,
{
    if ticks > 0 {
        lemma_idle_and_running_go_on(state, (ticks - 1) as nat);
    }
}

/// The animation of an idle or a running character wraps: from its first
/// frame it is at frame `ticks` after `ticks` ticks, up to its last frame,
/// and at its first frame again one tick after that.
pub proof fn lemma_animation_wraps(state: StateView, ticks: nat)
    requires
        state.kind == StateKind::Idle || state.kind == StateKind::Running,
        state.context.frame == 0,
        ticks <= state.kind.frames(),
    ensures
        state.after_updates(ticks).kind == state.kind,
        state.after_updates(ticks).context.frame == ticks,
        state.after_updates((state.kind.frames() + 1) as nat).kind == state.kind,
        state.after_updates((state.kind.frames() + 1) as nat).context.frame == 0,
{
    lemma_idle_and_running_go_on(state, ticks);
    lemma_idle_and_running_go_on(state, (state.kind.frames() + 1) as nat);
    lemma_frames_wrap(state.context, state.kind.frames(), ticks);
}

/// An idle character that rests on the floor and is left alone stays idle
/// and stays where it is, while its animation goes round and round; and no
/// tick takes it out of the coordinate range.
pub proof fn lemma_idle_rests(state: StateView, ticks: nat)
    requires
        state.kind == StateKind::Idle,
        state.context.frame <= IDLE_FRAMES,
        state.context.position.y == FLOOR,
        state.context.velocity.y >= 0,
    ensures
        state.after_updates(ticks).kind == StateKind::Idle,
        state.after_updates(ticks).context.position == state.context.position,
        state.after_updates(ticks).context.velocity.x == state.context.velocity.x,
        state.after_updates(ticks).context.velocity.y >= 0,
        state.after_updates(ticks).context.frame == (state.context.frame + ticks) % (IDLE_FRAMES
            + 1),
        state.after_updates(ticks).can_apply(Event::Update),
    decreases ticks,
{
    lemma_idle_and_running_go_on(state, ticks);
    lemma_frames_cycle(state.context, IDLE_FRAMES, ticks);
    if ticks > 0 {
        lemma_idle_rests(state, (ticks - 1) as nat);
    }
}

/// The character as it starts, left alone, stays idle at its starting point
/// on the floor, while its animation goes round and round.
pub proof fn lemma_start_rests(ticks: nat)
    ensures
        RedHatBoyStateMachine::new_spec().after_updates(ticks).kind == StateKind::Idle,
        RedHatBoyStateMachine::new_spec().after_updates(ticks).context.position == (Point {
            x: STARTING_POINT,
            y: FLOOR,
        }),
        RedHatBoyStateMachine::new_spec().after_updates(ticks).context.frame == ticks as int
            % (IDLE_FRAMES + 1),
{
    lemma_idle_rests(RedHatBoyStateMachine::new_spec(), ticks);
}

/// A slide takes as many ticks as its animation has frames: until then the
/// character slides on, frame by frame, and with the tick that brings it to
/// the animation's end it stands up and runs, at the first frame.
pub proof fn lemma_slide_ends(state: StateView, ticks: nat)
    requires
        state.kind == StateKind::Sliding,
        state.context.frame < SLIDING_FRAMES,
        ticks <= SLIDING_FRAMES - state.context.frame,
    ensures
        ticks < SLIDING_FRAMES - state.context.frame ==> state.after_updates(ticks) == (StateView {
            kind: StateKind::Sliding,
            context: state.context.after_updates(SLIDING_FRAMES, ticks),
        }) && state.after_updates(ticks).context.frame == state.context.frame + ticks,
        ticks == SLIDING_FRAMES - state.context.frame ==> state.after_updates(ticks) == (StateView {
            kind: StateKind::Running,
            context: state.context.after_updates(SLIDING_FRAMES, ticks).reset_frame(),
        }),
    decreases ticks,
{
    if ticks > 0 {
        lemma_slide_ends(state, (ticks - 1) as nat);
    }
}

/// A fall takes as many ticks as its animation has frames: until then the
/// character falls on, frame by frame, and with the tick that brings it to
/// the animation's end it is knocked out, at the animation's last frame.
pub proof fn lemma_fall_ends(state: StateView, ticks: nat)
    requires
        state.kind == StateKind::Falling,
        state.context.frame < FALLING_FRAMES,
        ticks <= FALLING_FRAMES - state.context.frame,
    ensures
        state.after_updates(ticks) == (StateView {
            kind: if ticks < FALLING_FRAMES - state.context.frame {
                StateKind::Falling
            } else {
                StateKind::KnockedOut
            },
            context: state.context.after_updates(FALLING_FRAMES, ticks),
        }),
        state.after_updates(ticks).context.frame == state.context.frame + ticks,
    decreases ticks,
{
    if ticks > 0 {
        lemma_fall_ends(state, (ticks - 1) as nat);
    }
}

/// What is left of a flight: the way down to the floor from the highest
/// point, and the ticks that the rise still takes.
pub open spec fn flight_left(context: RedHatBoyContext) -> int {
    let ticks_of_rise = if context.velocity.y < 0 {
        -context.velocity.y
    } else {
        0
    };
    FLOOR - context.position.y + RedHatBoyContext::rise_ahead(context.velocity.y as int)
        + ticks_of_rise
}

/// A jumping character that is left alone comes down: after some number of
/// ticks it runs again, on the floor and at the first frame, as fast to the
/// right as it was. Until then it jumps on, its animation going round, and
/// no tick takes it out of the coordinate range.
pub proof fn lemma_flight_lands(jumping: StateView) -> (ticks: nat)
    requires
        jumping.kind == StateKind::Jumping,
        jumping.context.frame <= JUMPING_FRAMES,
        jumping.context.flight_fits(),
    ensures
        ticks >= 1,
        forall|earlier: nat|
            earlier < ticks ==> {
                &&& (#[trigger] jumping.after_updates(earlier)).kind == StateKind::Jumping
                &&& jumping.after_updates(earlier).can_apply(Event::Update)
                &&& jumping.after_updates(earlier).context.velocity.x
                    == jumping.context.velocity.x
                &&& jumping.after_updates(earlier).context.frame == (jumping.context.frame
                    + earlier) % (JUMPING_FRAMES + 1)
            },
        jumping.after_updates(ticks).kind == StateKind::Running,
        jumping.after_updates(ticks).context.position.y == FLOOR,
        jumping.after_updates(ticks).context.frame == 0,
        jumping.after_updates(ticks).context.velocity.x == jumping.context.velocity.x,
    decreases flight_left(jumping.context),
{
    let next = jumping.after(Event::Update);
    lemma_flight_goes_on(jumping.context, JUMPING_FRAMES);
    lemma_successor_modulo(jumping.context.frame as int, JUMPING_FRAMES + 1);
    assert(jumping.context.frame as int % (JUMPING_FRAMES + 1) == jumping.context.frame)
        by (nonlinear_arith)
        requires
            0 <= jumping.context.frame <= JUMPING_FRAMES,
    ;
    assert(jumping.after_updates(0) == jumping);
    assert(jumping.after_updates(1) == next) by {
        reveal_with_fuel(StateView::after_updates, 2);
    }
    if next.kind == StateKind::Running {
        1
    } else {
        lemma_rise_ahead_is_no_fall(next.context.velocity.y as int);
        reveal_with_fuel(RedHatBoyContext::rise_ahead, 2);
        let rest = lemma_flight_lands(next);
        let ticks = rest + 1;
        assert forall|earlier: nat| earlier < ticks implies {
            &&& (#[trigger] jumping.after_updates(earlier)).kind == StateKind::Jumping
            &&& jumping.after_updates(earlier).can_apply(Event::Update)
            &&& jumping.after_updates(earlier).context.velocity.x == jumping.context.velocity.x
            &&& jumping.after_updates(earlier).context.frame == (jumping.context.frame + earlier)
                % (JUMPING_FRAMES + 1)
        } by {
            if earlier > 0 {
                let before = (earlier - 1) as nat;
                lemma_updates_add_up(jumping, 1, before);
                assert(next.after_updates(before).kind == StateKind::Jumping);
                lemma_frames_shift(
                    jumping.context.frame as int,
                    before as int,
                    JUMPING_FRAMES + 1,
                );
            }
        }
        lemma_updates_add_up(jumping, 1, rest);
        ticks
    }
}

/// Counting on from the successor of a frame is counting one further from
/// the frame itself.
proof fn lemma_frames_shift(frame: int, ticks: int, length: int)
    by (nonlinear_arith)
    requires
        0 <= frame < length,
        0 <= ticks,
    ensures
        ((frame + 1) % length + ticks) % length == (frame + 1 + ticks) % length,
{
}

/// The round trip of a jump: a running character that jumps and is then left
/// alone comes down and runs again, on the floor and at the first frame, as
/// fast to the right as before the jump. Until then it jumps.
pub proof fn lemma_jump_round_trip(running: StateView) -> (ticks: nat)
    requires
        running.kind == StateKind::Running,
        running.context.position.y - 300 >= i16::MIN,
    ensures
        running.after(Event::Jump).kind == StateKind::Jumping,
        ticks >= 1,
        forall|earlier: nat|
            earlier < ticks ==> {
                &&& (#[trigger] running.after(Event::Jump).after_updates(earlier)).kind
                    == StateKind::Jumping
                &&& running.after(Event::Jump).after_updates(earlier).can_apply(Event::Update)
                &&& running.after(Event::Jump).after_updates(earlier).context.velocity.x
                    == running.context.velocity.x
            },
        running.after(Event::Jump).after_updates(ticks).kind == StateKind::Running,
        running.after(Event::Jump).after_updates(ticks).context.position.y == FLOOR,
        running.after(Event::Jump).after_updates(ticks).context.frame == 0,
        running.after(Event::Jump).after_updates(ticks).context.velocity.x
            == running.context.velocity.x,
{
    lemma_rise_of_a_jump();
    lemma_flight_lands(running.after(Event::Jump))
}

/// A character that runs, slides or jumps and overlaps a box of a platform
/// lands on the box where it comes from above: it runs or slides on, with
/// its feet on the box, and does not fall. Where it does not come from
/// above, the box knocks it out: it falls, at rest and at the first frame.
pub proof fn lemma_platform_hit_lands_or_knocks_out(
    sheet: Map<Seq<char>, Cell>,
    state: StateView,
    bounding_box: Rect,
    platform_y: i16,
)
    requires
        state.kind == StateKind::Running || state.kind == StateKind::Sliding || state.kind
            == StateKind::Jumping,
        bounding_box_of(sheet, state).overlaps(bounding_box),
    ensures
        approaches_from_above(state, platform_y) ==> {
            let landed = after_platform_hit(sheet, state, bounding_box, platform_y);
            &&& landed == state.after(Event::Land(bounding_box.y))
            &&& landed.kind == if state.kind == StateKind::Sliding {
                StateKind::Sliding
            } else {
                StateKind::Running
            }
            &&& landed.context.velocity == state.context.velocity
            &&& RedHatBoyContext::can_stand_on(bounding_box.y) ==> landed.context.position.y
                + PLAYER_HEIGHT == bounding_box.y
        },
        !approaches_from_above(state, platform_y) ==> {
            let knocked = after_platform_hit(sheet, state, bounding_box, platform_y);
            &&& knocked == state.after(Event::KnockOut)
            &&& knocked.kind == StateKind::Falling
            &&& knocked.context.velocity.x == 0
            &&& knocked.context.velocity.y == 0
            &&& knocked.context.frame == 0
            &&& knocked.context.position == state.context.position
        },
{
}

/// A character that is idle, falls or is knocked out is left as it is by
/// every box of a platform, and so is every character by a box that it does
/// not overlap.
pub proof fn lemma_platform_hit_spares(
    sheet: Map<Seq<char>, Cell>,
    state: StateView,
    bounding_box: Rect,
    platform_y: i16,
)
    requires
        state.kind == StateKind::Idle || state.kind == StateKind::Falling || state.kind
            == StateKind::KnockedOut || !bounding_box_of(sheet, state).overlaps(bounding_box),
    ensures
        after_platform_hit(sheet, state, bounding_box, platform_y) == state,
{
}

/// Two layers of one width lie side by side: one begins where the other
/// ends.
pub open spec fn layers_side_by_side(first: Rect, second: Rect) -> bool {
    &&& first.width == second.width
    &&& first.spec_right() == second.x || second.spec_right() == first.x
}

/// Two layers of background that lie side by side still do so after they
/// have been moved, whichever of them was put behind the other, and so there
/// is neither a gap nor an overlap between them. A layer that was put behind
/// the other begins exactly where the other ends.
pub proof fn lemma_layers_stay_side_by_side(first: Rect, second: Rect, velocity: i16)
    requires
        layers_side_by_side(first, second),
        layers_scroll_fits(first, second, velocity),
    ensures
        layers_side_by_side(
            layers_scrolled(first, second, velocity).0,
            layers_scrolled(first, second, velocity).1,
        ),
        first.spec_right() + velocity < 0 ==> layers_scrolled(first, second, velocity).0.x
            == second.spec_right() + velocity,
        second.spec_right() + velocity < 0 ==> layers_scrolled(first, second, velocity).1.x
            == layers_scrolled(first, second, velocity).0.spec_right(),
        layers_scrolled(first, second, velocity).0.width == first.width,
        layers_scrolled(first, second, velocity).1.width == second.width,
{
}

/// The two layers of background of a world lie side by side when the world
/// starts, and after every tick of a world in which they did before.
pub proof fn lemma_backgrounds_stay_side_by_side(
    world: WalkView,
    boy_sheet: Map<Seq<char>, Cell>,
    platform_sheet: Map<Seq<char>, Cell>,
    keys: Set<Seq<char>>,
)
    requires
        layers_side_by_side(world.first_background, world.second_background),
        world.update_defined(boy_sheet, platform_sheet, keys),
    ensures
        layers_side_by_side(
            world.after_update(boy_sheet, platform_sheet, keys).first_background,
            world.after_update(boy_sheet, platform_sheet, keys).second_background,
        ),
{
    let ticked = world.after_keys(keys).after_tick();
    lemma_layers_stay_side_by_side(
        ticked.first_background,
        ticked.second_background,
        ticked.velocity() as i16,
    );
}

/// The two layers of background lie side by side when the world starts.
pub proof fn lemma_backgrounds_start_side_by_side(
    background_width: i16,
    background_height: i16,
    stone_width: i16,
    stone_height: i16,
)
    ensures
        layers_side_by_side(
            WalkView::start(
                background_width,
                background_height,
                stone_width,
                stone_height,
            ).first_background,
            WalkView::start(
                background_width,
                background_height,
                stone_width,
                stone_height,
            ).second_background,
        ),
{
}

} // verus!
