//! The bounds within which the character and the world stay from tick to
//! tick, and with which every tick of the world can be worked out.

use vstd::prelude::*;
use crate::boy::{
    after_platform_hits, approaches_from_above, bounding_defined, bounding_fits,
    platform_hits_defined, sprite_of,
};
use crate::context::{
    RedHatBoyContext, FLOOR, HEIGHT, JUMP_SPEED, PLAYER_HEIGHT, RUNNING_SPEED, STARTING_POINT,
    TERMINAL_VELOCITY,
};
use crate::geometry::{Point, Rect};
use crate::laws::{
    layers_side_by_side, lemma_layers_stay_side_by_side, lemma_rise_ahead_is_no_fall,
    lemma_rise_of_a_jump,
};
use crate::machine::{Event, StateKind, StateView};
use crate::platform::{platform_boxes, platform_boxes_defined};
use crate::sheet::Cell;
use crate::walk::{
    after_keys, layers_scroll_fits, layers_scrolled, WalkView, LOW_PLATFORM, RUN_KEY, SLIDE_KEY,
};

verus! {

/// The character's motion is bounded: it falls no faster than terminal
/// velocity, and it is no lower than the floor.
pub open spec fn within_bounds(state: StateView) -> bool {
    &&& state.context.velocity.y <= TERMINAL_VELOCITY
    &&& state.context.position.y <= FLOOR
}

/// The bounds hold from move to move, as long as the character is not set
/// on a surface below the playing field.
pub proof fn lemma_motion_stays_bounded(state: StateView, event: Event)
    requires
        within_bounds(state),
        state.can_apply(event),
        event matches Event::Land(surface) ==> surface <= HEIGHT,
    ensures
        within_bounds(state.after(event)),
{
}

/// The character is on its feet: idle, running or sliding.
pub open spec fn on_its_feet(kind: StateKind) -> bool {
    kind == StateKind::Idle || kind == StateKind::Running || kind == StateKind::Sliding
}

/// The height above `top` that the character may still reach: that of one
/// jump for a character that is in the air, none for one that is on its feet
/// and has its jump before it.
pub open spec fn headroom(kind: StateKind) -> int {
    if on_its_feet(kind) {
        0
    } else {
        RedHatBoyContext::rise_ahead(JUMP_SPEED as int)
    }
}

/// The character is under way: running, sliding or jumping.
pub open spec fn under_way(kind: StateKind) -> bool {
    kind == StateKind::Running || kind == StateKind::Sliding || kind == StateKind::Jumping
}

/// The character keeps to the part of the world in which it lives: its
/// motion is bounded, its frame is one of its animation, it rises no faster
/// than a jump takes it, it moves to the right at running speed while it is
/// under way and not at all while it is not, it rests on the floor while it
/// is idle, and the highest point of its flight is no higher than one jump
/// above `top`, the highest surface on which it stands.
pub open spec fn in_envelope(state: StateView, top: int) -> bool {
    &&& within_bounds(state)
    &&& state.kind == StateKind::Idle ==> state.context.position.y == FLOOR
        && state.context.velocity.y >= 0
    &&& state.context.frame <= state.kind.frames()
    &&& JUMP_SPEED <= state.context.velocity.y
    &&& state.context.velocity.x == if under_way(state.kind) {
        RUNNING_SPEED
    } else {
        0
    }
    &&& state.context.position.y - RedHatBoyContext::rise_ahead(state.context.velocity.y as int)
        >= top - headroom(state.kind)
}

/// One jump above `top` is within the coordinate range, and `top` is no
/// lower than the floor.
pub open spec fn top_fits(top: int) -> bool {
    i16::MIN + RedHatBoyContext::rise_ahead(JUMP_SPEED as int) <= top <= FLOOR
}

/// A character that keeps to its part of the world can make every move, and
/// keeps to it after the move, as long as it is set only on surfaces between
/// `top` and the floor, and only while it does not rise. No move takes it
/// to the left or to the right.
pub proof fn lemma_envelope_holds(state: StateView, event: Event, top: int)
    requires
        in_envelope(state, top),
        top_fits(top),
        event matches Event::Land(surface) ==> state.context.velocity.y >= 0 && top <= surface
            - PLAYER_HEIGHT <= FLOOR,
    ensures
        state.can_apply(event),
        in_envelope(state.after(event), top),
        state.after(event).context.position.x == state.context.position.x,
        top - RedHatBoyContext::rise_ahead(JUMP_SPEED as int) <= state.context.position.y,
{
    lemma_rise_of_a_jump();
    lemma_rise_ahead_is_no_fall(state.context.velocity.y as int);
    lemma_rise_ahead_is_no_fall(state.context.velocity.y + 1);
    reveal_with_fuel(RedHatBoyContext::rise_ahead, 2);
}

/// `sheet` holds a sprite for every frame of every state, and the bounding
/// box that each of them gives a character at `x` lies within the coordinate
/// range at every height between one jump above `top` and the floor.
pub open spec fn sheet_suits(sheet: Map<Seq<char>, Cell>, x: i16, top: int) -> bool {
    forall|state: StateView|
        state.context.frame <= state.kind.frames() ==> {
            &&& (#[trigger] sprite_of(sheet, state)) is Some
            &&& bounding_fits(
                Point { x, y: (top - RedHatBoyContext::rise_ahead(JUMP_SPEED as int)) as i16 },
                sprite_of(sheet, state)->0,
            )
            &&& bounding_fits(Point { x, y: FLOOR }, sprite_of(sheet, state)->0)
        }
}

/// A character that keeps to its part of the world has a bounding box, where
/// the sheet suits it.
pub proof fn lemma_envelope_has_bounding_box(
    sheet: Map<Seq<char>, Cell>,
    state: StateView,
    top: int,
)
    requires
        in_envelope(state, top),
        top_fits(top),
        sheet_suits(sheet, state.context.position.x, top),
    ensures
        bounding_defined(sheet, state),
{
    lemma_rise_of_a_jump();
    lemma_rise_ahead_is_no_fall(state.context.velocity.y as int);
    assert(sprite_of(sheet, state) is Some);
}

/// The boxes of a platform whose top is at `platform_y` leave a character in
/// its part of the world, whose highest surface the platform is, and what
/// they do to it can be worked out.
pub proof fn lemma_platform_keeps_envelope(
    sheet: Map<Seq<char>, Cell>,
    state: StateView,
    boxes: Seq<Rect>,
    platform_y: i16,
    count: nat,
)
    requires
        in_envelope(state, platform_y - PLAYER_HEIGHT),
        top_fits(platform_y - PLAYER_HEIGHT),
        sheet_suits(sheet, state.context.position.x, platform_y - PLAYER_HEIGHT),
        count <= boxes.len(),
        forall|index: int| 0 <= index < count ==> (#[trigger] boxes[index]).y == platform_y,
    ensures
        platform_hits_defined(sheet, state, boxes, platform_y, count),
        in_envelope(
            after_platform_hits(sheet, state, boxes, platform_y, count),
            platform_y - PLAYER_HEIGHT,
        ),
        after_platform_hits(sheet, state, boxes, platform_y, count).context.position.x
            == state.context.position.x,
    decreases count,
{
    if count > 0 {
        let top = platform_y - PLAYER_HEIGHT;
        let before = (count - 1) as nat;
        lemma_platform_keeps_envelope(sheet, state, boxes, platform_y, before);
        let met = after_platform_hits(sheet, state, boxes, platform_y, before);
        let bounding_box = boxes[count - 1];
        assert(bounding_box.y == platform_y);
        lemma_envelope_has_bounding_box(sheet, met, top);
        if approaches_from_above(met, platform_y) {
            lemma_envelope_holds(met, Event::Land(bounding_box.y), top);
        }
        lemma_envelope_holds(met, Event::KnockOut, top);
    }
}

/// The two layers of background fill the view: they are of one width, no
/// narrower than a tick's scroll and no wider than half the coordinate
/// range, they lie side by side, and the left one of them begins at the left
/// edge of the view or before it, by no more than its width.
pub open spec fn layers_fill_view(first: Rect, second: Rect) -> bool {
    &&& layers_side_by_side(first, second)
    &&& RUNNING_SPEED <= first.width
    &&& first.width + first.width <= i16::MAX
    &&& first.x <= second.x ==> -first.width <= first.x <= 0
    &&& second.x <= first.x ==> -first.width <= second.x <= 0
}

/// Two layers that fill the view can be moved by a tick's scroll, and fill
/// the view after it.
pub proof fn lemma_layers_keep_filling_view(first: Rect, second: Rect, velocity: i16)
    requires
        layers_fill_view(first, second),
        velocity == 0 || velocity == -RUNNING_SPEED,
    ensures
        layers_scroll_fits(first, second, velocity),
        layers_fill_view(
            layers_scrolled(first, second, velocity).0,
            layers_scrolled(first, second, velocity).1,
        ),
{
    assert(layers_scroll_fits(first, second, velocity));
    lemma_layers_stay_side_by_side(first, second, velocity);
}

/// The world is steady: the platform is the highest surface, one jump above
/// it is within the coordinate range, the character keeps to its part of the
/// world, its sheet suits it, and the background fills the view.
pub open spec fn steady(world: WalkView, boy_sheet: Map<Seq<char>, Cell>) -> bool {
    &&& top_fits(world.platform.y - PLAYER_HEIGHT)
    &&& in_envelope(world.boy, world.platform.y - PLAYER_HEIGHT)
    &&& sheet_suits(boy_sheet, world.boy.context.position.x, world.platform.y - PLAYER_HEIGHT)
    &&& layers_fill_view(world.first_background, world.second_background)
}

/// The platform and the stone have room on their left for the scroll of a
/// tick, and the platform has its bounding boxes where the scroll takes it.
pub open spec fn room_to_scroll(world: WalkView, platform_sheet: Map<Seq<char>, Cell>) -> bool {
    &&& i16::MIN <= world.platform.x + world.velocity()
    &&& i16::MIN <= world.stone.x + world.velocity()
    &&& platform_boxes_defined(
        platform_sheet,
        Point { x: (world.platform.x + world.velocity()) as i16, y: world.platform.y },
    )
}

/// Every tick of a steady world can be worked out, whatever keys are held
/// down, as long as the platform and the stone have room for the scroll; and
/// the world is steady after it. So the character never falls faster than
/// terminal velocity, never sinks below the floor and never leaves the
/// coordinate range.
pub proof fn lemma_steady_world_goes_on(
    world: WalkView,
    boy_sheet: Map<Seq<char>, Cell>,
    platform_sheet: Map<Seq<char>, Cell>,
    keys: Set<Seq<char>>,
)
    requires
        steady(world, boy_sheet),
        room_to_scroll(world.after_keys(keys).after_tick(), platform_sheet),
    ensures
        world.update_defined(boy_sheet, platform_sheet, keys),
        steady(world.after_update(boy_sheet, platform_sheet, keys), boy_sheet),
        within_bounds(world.after_update(boy_sheet, platform_sheet, keys).boy),
{
    let top = world.platform.y - PLAYER_HEIGHT;
    lemma_keys_keep_envelope(world.boy, keys, top);
    let keyed = world.after_keys(keys);
    lemma_envelope_holds(keyed.boy, Event::Update, top);
    let ticked = keyed.after_tick();
    let velocity = ticked.velocity() as i16;
    lemma_layers_keep_filling_view(ticked.first_background, ticked.second_background, velocity);
    let scrolled = ticked.after_scroll();
    let boxes = platform_boxes(platform_sheet, scrolled.platform);
    lemma_platform_keeps_envelope(
        boy_sheet,
        scrolled.boy,
        boxes,
        scrolled.platform.y,
        boxes.len(),
    );
    let landed = scrolled.after_platform_collision(boy_sheet, platform_sheet);
    lemma_envelope_has_bounding_box(boy_sheet, landed.boy, top);
    lemma_envelope_holds(landed.boy, Event::KnockOut, top);
}

/// A steady world whose character is idle stands still as long as the key to
/// run is not held down: a tick changes nothing in it but the character's
/// frame and its readiness to fall, and the character stays idle.
pub proof fn lemma_idle_world_stands_still(
    world: WalkView,
    boy_sheet: Map<Seq<char>, Cell>,
    platform_sheet: Map<Seq<char>, Cell>,
    keys: Set<Seq<char>>,
)
    requires
        steady(world, boy_sheet),
        world.boy.kind == StateKind::Idle,
        !keys.contains(RUN_KEY@),
        platform_boxes_defined(platform_sheet, world.platform),
    ensures
        world.update_defined(boy_sheet, platform_sheet, keys),
        world.after_update(boy_sheet, platform_sheet, keys) == (WalkView {
            boy: world.boy.after(Event::Update),
            ..world
        }),
        world.boy.after(Event::Update).kind == StateKind::Idle,
        world.boy.after(Event::Update).context.position == world.boy.context.position,
{
    lemma_steady_world_goes_on(world, boy_sheet, platform_sheet, keys);
    let ticked = world.after_keys(keys).after_tick();
    assert(ticked.boy == world.boy.after(Event::Update));
    let scrolled = ticked.after_scroll();
    assert(scrolled == ticked);
    let boxes = platform_boxes(platform_sheet, scrolled.platform);
    lemma_platform_spares_the_idle(
        boy_sheet,
        scrolled.boy,
        boxes,
        scrolled.platform.y,
        boxes.len(),
    );
}

/// The boxes of a platform leave an idle character as it is.
pub proof fn lemma_platform_spares_the_idle(
    sheet: Map<Seq<char>, Cell>,
    state: StateView,
    boxes: Seq<Rect>,
    platform_y: i16,
    count: nat,
)
    requires
        state.kind == StateKind::Idle,
    ensures
        after_platform_hits(sheet, state, boxes, platform_y, count) == state,
    decreases count,
{
    if count > 0 {
        lemma_platform_spares_the_idle(sheet, state, boxes, platform_y, (count - 1) as nat);
    }
}

/// The keys that are held down leave a character in its part of the world,
/// and where it is.
pub proof fn lemma_keys_keep_envelope(boy: StateView, keys: Set<Seq<char>>, top: int)
    requires
        in_envelope(boy, top),
        top_fits(top),
    ensures
        in_envelope(after_keys(boy, keys), top),
        after_keys(boy, keys).context.position.x == boy.context.position.x,
{
    lemma_envelope_holds(boy, Event::Slide, top);
    let slid = if keys.contains(SLIDE_KEY@) {
        boy.after(Event::Slide)
    } else {
        boy
    };
    lemma_envelope_holds(slid, Event::Run, top);
    let run = if keys.contains(RUN_KEY@) {
        slid.after(Event::Run)
    } else {
        slid
    };
    lemma_envelope_holds(run, Event::Jump, top);
}

/// The world is steady as it starts, where the character's sheet suits it
/// and the background is neither narrower than a tick's scroll nor wider
/// than half the coordinate range.
pub proof fn lemma_start_is_steady(
    boy_sheet: Map<Seq<char>, Cell>,
    background_width: i16,
    background_height: i16,
    stone_width: i16,
    stone_height: i16,
)
    requires
        sheet_suits(boy_sheet, STARTING_POINT, LOW_PLATFORM - PLAYER_HEIGHT),
        RUNNING_SPEED <= background_width,
        background_width + background_width <= i16::MAX,
    ensures
        steady(
            WalkView::start(background_width, background_height, stone_width, stone_height),
            boy_sheet,
        ),
{
    lemma_rise_of_a_jump();
    reveal_with_fuel(RedHatBoyContext::rise_ahead, 2);
}

} // verus!
