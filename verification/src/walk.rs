//! The world: the character, the platform, the stone and the two layers of
//! background, and what one tick does to them.

use vstd::prelude::*;
use crate::boy::{
    after_obstacle_hit, after_platform_hits, bounding_defined, platform_hits_defined, RedHatBoy,
};
use crate::geometry::{Point, Rect};
use crate::image::Image;
use crate::keys::KeyState;
use crate::machine::{Event, RedHatBoyStateMachine, StateView};
use crate::platform::{platform_boxes, platform_boxes_defined, Platform};
use crate::sheet::{Cell, Sheet};

verus! {

/// Height at which the low platform lies.
pub const LOW_PLATFORM: i16 = 420;

/// Height at which the high platform lies.
pub const HIGH_PLATFORM: i16 = 375;

/// Horizontal position of the first platform.
pub const FIRST_PLATFORM: i16 = 370;

/// Horizontal position of the stone.
pub const STONE_X: i16 = 150;

/// Vertical position of the stone.
pub const STONE_Y: i16 = 546;

/// Code of the key that makes the character slide.
pub const SLIDE_KEY: &'static str = "ArrowDown";

/// Code of the key that makes the character run.
pub const RUN_KEY: &'static str = "ArrowRight";

/// Code of the key that makes the character jump.
pub const JUMP_KEY: &'static str = "Space";

/// The character after the keys that are held down have had their say:
/// first the key to slide, then the key to run, then the key to jump.
pub open spec fn after_keys(boy: StateView, keys: Set<Seq<char>>) -> StateView {
    let slid = if keys.contains(SLIDE_KEY@) {
        boy.after(Event::Slide)
    } else {
        boy
    };
    let run = if keys.contains(RUN_KEY@) {
        slid.after(Event::Run)
    } else {
        slid
    };
    if keys.contains(JUMP_KEY@) {
        run.after(Event::Jump)
    } else {
        run
    }
}

/// Left edge of the first layer after both layers have moved by `velocity`
/// and the first has been put behind the second where it had left the view.
pub open spec fn first_layer_x(first: Rect, second: Rect, velocity: i16) -> int {
    if first.x + velocity + first.width < 0 {
        second.x + velocity + second.width
    } else {
        first.x + velocity
    }
}

/// Left edge of the second layer after both layers have moved by `velocity`,
/// the first has been seen to, and the second has been put behind the first
/// where it had left the view.
pub open spec fn second_layer_x(first: Rect, second: Rect, velocity: i16) -> int {
    if second.x + velocity + second.width < 0 {
        first_layer_x(first, second, velocity) + first.width
    } else {
        second.x + velocity
    }
}

/// Moving the two layers by `velocity` keeps their edges within the
/// coordinate range.
pub open spec fn layers_scroll_fits(first: Rect, second: Rect, velocity: i16) -> bool {
    &&& i16::MIN <= first.x + velocity <= i16::MAX
    &&& i16::MIN <= second.x + velocity <= i16::MAX
    &&& i16::MIN <= first.x + velocity + first.width <= i16::MAX
    &&& i16::MIN <= second.x + velocity + second.width <= i16::MAX
    &&& second.x + velocity + second.width < 0 ==> i16::MIN <= first_layer_x(
        first,
        second,
        velocity,
    ) + first.width <= i16::MAX
}

/// The two layers after they have moved by `velocity`, each put behind the
/// other where it had left the view on the left.
pub open spec fn layers_scrolled(first: Rect, second: Rect, velocity: i16) -> (Rect, Rect) {
    (
        Rect { x: first_layer_x(first, second, velocity) as i16, ..first },
        Rect { x: second_layer_x(first, second, velocity) as i16, ..second },
    )
}

/// Whether the two layers can be moved by `velocity`.
pub fn layers_fit_scroll(first: &Image, second: &Image, velocity: i16) -> (fits: bool)
    ensures
        fits == layers_scroll_fits(first.bounding_box, second.bounding_box, velocity),
{
    let first_x: i32 = first.bounding_box.x as i32 + velocity as i32;
    let second_x: i32 = second.bounding_box.x as i32 + velocity as i32;
    let first_right: i32 = first_x + first.bounding_box.width as i32;
    let second_right: i32 = second_x + second.bounding_box.width as i32;
    if !(-32768 <= first_x && first_x <= 32767 && -32768 <= second_x && second_x <= 32767) {
        return false;
    }
    if !(-32768 <= first_right && first_right <= 32767 && -32768 <= second_right && second_right
        <= 32767) {
        return false;
    }
    if second_right < 0 {
        let wrapped: i32 = if first_right < 0 {
            second_right
        } else {
            first_x
        };
        let wrapped_right: i32 = wrapped + first.bounding_box.width as i32;
        -32768 <= wrapped_right && wrapped_right <= 32767
    } else {
        true
    }
}

/// Moves the two layers of the background by `velocity`. A layer whose right
/// edge has then left the view on the left is put behind the other layer, so
/// that the two always follow each other without a gap.
pub fn scroll_layers(first: &mut Image, second: &mut Image, velocity: i16)
    requires
        layers_scroll_fits(old(first).bounding_box, old(second).bounding_box, velocity),
    ensures
        (final(first).bounding_box, final(second).bounding_box) == layers_scrolled(
            old(first).bounding_box,
            old(second).bounding_box,
            velocity,
        ),
{
    first.move_horizontally(velocity);
    second.move_horizontally(velocity);
    if first.right() < 0 {
        first.set_x(second.right());
    }
    if second.right() < 0 {
        second.set_x(first.right());
    }
}

/// The world.
pub struct Walk {
    pub boy: RedHatBoy,
    pub backgrounds: [Image; 2],
    pub stone: Image,
    pub platform: Platform,
}

/// What of the world changes from tick to tick.
pub struct WalkView {
    pub boy: StateView,
    pub platform: Point,
    pub stone: Rect,
    pub first_background: Rect,
    pub second_background: Rect,
}

impl WalkView {
    /// The world as it starts: the idle character, the first platform, the
    /// stone, and two layers of background side by side.
    pub open spec fn start(
        background_width: i16,
        background_height: i16,
        stone_width: i16,
        stone_height: i16,
    ) -> WalkView {
        WalkView {
            boy: RedHatBoyStateMachine::new_spec(),
            platform: Point { x: FIRST_PLATFORM, y: LOW_PLATFORM },
            stone: Rect { x: STONE_X, y: STONE_Y, width: stone_width, height: stone_height },
            first_background: Rect {
                x: 0,
                y: 0,
                width: background_width,
                height: background_height,
            },
            second_background: Rect {
                x: background_width,
                y: 0,
                width: background_width,
                height: background_height,
            },
        }
    }

    /// The speed at which the world passes the character: the character's
    /// own speed, the other way round.
    pub open spec fn velocity(self) -> int {
        -self.boy.context.velocity.x
    }

    /// The world's speed is within the coordinate range.
    pub open spec fn velocity_defined(self) -> bool {
        self.velocity() <= i16::MAX
    }

    /// The world after the keys that are held down have had their say.
    pub open spec fn after_keys(self, keys: Set<Seq<char>>) -> WalkView {
        WalkView { boy: after_keys(self.boy, keys), ..self }
    }

    /// The character's tick stays within the coordinate range.
    pub open spec fn tick_defined(self) -> bool {
        self.boy.can_apply(Event::Update)
    }

    /// The world after the character's tick.
    pub open spec fn after_tick(self) -> WalkView {
        WalkView { boy: self.boy.after(Event::Update), ..self }
    }

    /// Moving the platform, the stone and the background past the character
    /// keeps them within the coordinate range.
    pub open spec fn scroll_defined(self) -> bool {
        &&& self.velocity_defined()
        &&& i16::MIN <= self.platform.x + self.velocity() <= i16::MAX
        &&& i16::MIN <= self.stone.x + self.velocity() <= i16::MAX
        &&& layers_scroll_fits(
            self.first_background,
            self.second_background,
            self.velocity() as i16,
        )
    }

    /// The world after the platform, the stone and the background have moved
    /// past the character.
    pub open spec fn after_scroll(self) -> WalkView {
        let velocity = self.velocity() as i16;
        let layers = layers_scrolled(self.first_background, self.second_background, velocity);
        WalkView {
            boy: self.boy,
            platform: Point { x: (self.platform.x + velocity) as i16, y: self.platform.y },
            stone: Rect { x: (self.stone.x + velocity) as i16, ..self.stone },
            first_background: layers.0,
            second_background: layers.1,
        }
    }

    /// What the platform does to the character can be worked out.
    pub open spec fn platform_collision_defined(
        self,
        boy_sheet: Map<Seq<char>, Cell>,
        platform_sheet: Map<Seq<char>, Cell>,
    ) -> bool {
        &&& platform_boxes_defined(platform_sheet, self.platform)
        &&& platform_hits_defined(
            boy_sheet,
            self.boy,
            platform_boxes(platform_sheet, self.platform),
            self.platform.y,
            platform_boxes(platform_sheet, self.platform).len(),
        )
    }

    /// The world after the character has met the platform's bounding boxes,
    /// one after the other.
    pub open spec fn after_platform_collision(
        self,
        boy_sheet: Map<Seq<char>, Cell>,
        platform_sheet: Map<Seq<char>, Cell>,
    ) -> WalkView {
        WalkView {
            boy: after_platform_hits(
                boy_sheet,
                self.boy,
                platform_boxes(platform_sheet, self.platform),
                self.platform.y,
                platform_boxes(platform_sheet, self.platform).len(),
            ),
            ..self
        }
    }

    /// What the stone does to the character can be worked out.
    pub open spec fn stone_collision_defined(self, boy_sheet: Map<Seq<char>, Cell>) -> bool {
        bounding_defined(boy_sheet, self.boy)
    }

    /// The world after the character has met the stone.
    pub open spec fn after_stone_collision(self, boy_sheet: Map<Seq<char>, Cell>) -> WalkView {
        WalkView { boy: after_obstacle_hit(boy_sheet, self.boy, self.stone), ..self }
    }

    /// Every step of one tick of the world can be worked out: nothing leaves
    /// the coordinate range, and the sheets hold the sprites that are asked
    /// for.
    pub open spec fn update_defined(
        self,
        boy_sheet: Map<Seq<char>, Cell>,
        platform_sheet: Map<Seq<char>, Cell>,
        keys: Set<Seq<char>>,
    ) -> bool {
        let keyed = self.after_keys(keys);
        let ticked = keyed.after_tick();
        let scrolled = ticked.after_scroll();
        let landed = scrolled.after_platform_collision(boy_sheet, platform_sheet);
        &&& keyed.tick_defined()
        &&& ticked.scroll_defined()
        &&& scrolled.platform_collision_defined(boy_sheet, platform_sheet)
        &&& landed.stone_collision_defined(boy_sheet)
    }

    /// The world one tick later: the keys, the character's own tick, the
    /// scroll, the platform, the stone, in this order.
    pub open spec fn after_update(
        self,
        boy_sheet: Map<Seq<char>, Cell>,
        platform_sheet: Map<Seq<char>, Cell>,
        keys: Set<Seq<char>>,
    ) -> WalkView {
        self.after_keys(keys).after_tick().after_scroll().after_platform_collision(
            boy_sheet,
            platform_sheet,
        ).after_stone_collision(boy_sheet)
    }
}

impl View for Walk {
    type V = WalkView;

    open spec fn view(&self) -> WalkView {
        WalkView {
            boy: self.boy.state_machine@,
            platform: self.platform.position,
            stone: self.stone.bounding_box,
            first_background: self.backgrounds[0].bounding_box,
            second_background: self.backgrounds[1].bounding_box,
        }
    }
}

impl Walk {
    /// The two worlds draw on the same sheets.
    pub open spec fn same_sheets(&self, other: &Walk) -> bool {
        &&& self.boy.sprite_sheet == other.boy.sprite_sheet
        &&& self.platform.sheet == other.platform.sheet
    }

    /// The world as it starts: the idle character, the first platform, the
    /// stone, and two layers of background side by side.
    pub fn new(
        boy_sheet: Sheet,
        platform_sheet: Sheet,
        background_width: i16,
        background_height: i16,
        stone_width: i16,
        stone_height: i16,
    ) -> (walk: Self)
        ensures
            walk.boy.sprite_sheet == boy_sheet,
            walk.platform.sheet == platform_sheet,
            walk@ == WalkView::start(
                background_width,
                background_height,
                stone_width,
                stone_height,
            ),
    {
        Walk {
            boy: RedHatBoy::new(boy_sheet),
            backgrounds: [
                Image::new(Point { x: 0, y: 0 }, background_width, background_height),
                Image::new(
                    Point { x: background_width, y: 0 },
                    background_width,
                    background_height,
                ),
            ],
            stone: Image::new(Point { x: STONE_X, y: STONE_Y }, stone_width, stone_height),
            platform: Platform::new(
                platform_sheet,
                Point { x: FIRST_PLATFORM, y: LOW_PLATFORM },
            ),
        }
    }

    /// The speed at which the world passes the character.
    pub fn velocity(&self) -> (velocity: i16)
        requires
            self@.velocity_defined(),
        ensures
            velocity == self@.velocity(),
    {
        -self.boy.walking_speed()
    }

    /// Lets the keys that are held down have their say: the key to slide,
    /// the key to run and the key to jump, each on its own and in this order.
    pub fn apply_keys(&mut self, keystate: &KeyState)
        ensures
            final(self)@ == old(self)@.after_keys(keystate@),
            final(self).same_sheets(old(self)),
    {
        if keystate.is_pressed(SLIDE_KEY) {
            self.boy.slide();
        }
        if keystate.is_pressed(RUN_KEY) {
            self.boy.run_right();
        }
        if keystate.is_pressed(JUMP_KEY) {
            self.boy.jump();
        }
    }

    /// Whether the world can be moved past the character.
    pub fn can_scroll(&self) -> (fits: bool)
        ensures
            fits == self@.scroll_defined(),
    {
        let speed = self.boy.walking_speed();
        if speed == i16::MIN {
            return false;
        }
        let velocity: i16 = -speed;
        let platform_x: i32 = self.platform.position.x as i32 + velocity as i32;
        -32768 <= platform_x && platform_x <= 32767 && self.stone.fits_moved(velocity)
            && layers_fit_scroll(&self.backgrounds[0], &self.backgrounds[1], velocity)
    }

    /// Moves the platform, the stone and the two layers of the background
    /// past the character.
    pub fn scroll(&mut self)
        requires
            old(self)@.scroll_defined(),
        ensures
            final(self)@ == old(self)@.after_scroll(),
            final(self).same_sheets(old(self)),
    {
        let velocity: i16 = self.velocity();
        self.platform.position.x = self.platform.position.x + velocity;
        self.stone.move_horizontally(velocity);
        let mut first_background = self.backgrounds[0];
        let mut second_background = self.backgrounds[1];
        scroll_layers(&mut first_background, &mut second_background, velocity);
        self.backgrounds = [first_background, second_background];
    }

    /// Lets the character meet the platform's bounding boxes, one after the
    /// other.
    pub fn collide_with_platform(&mut self)
        requires
            old(self)@.platform_collision_defined(
                old(self).boy.sprite_sheet@,
                old(self).platform.sheet@,
            ),
        ensures
            final(self)@ == old(self)@.after_platform_collision(
                old(self).boy.sprite_sheet@,
                old(self).platform.sheet@,
            ),
            final(self).same_sheets(old(self)),
    {
        let boxes = self.platform.bounding_boxes();
        let platform_y = self.platform.position.y;
        let mut index: usize = 0;
        while index < boxes.len()
            invariant
                index <= boxes.len(),
                boxes@ == platform_boxes(old(self).platform.sheet@, old(self).platform.position),
                platform_y == old(self).platform.position.y,
                platform_hits_defined(
                    old(self).boy.sprite_sheet@,
                    old(self)@.boy,
                    boxes@,
                    platform_y,
                    boxes@.len(),
                ),
                self.same_sheets(old(self)),
                self@ == (WalkView {
                    boy: after_platform_hits(
                        old(self).boy.sprite_sheet@,
                        old(self)@.boy,
                        boxes@,
                        platform_y,
                        index as nat,
                    ),
                    ..old(self)@
                }),
            decreases boxes.len() - index,
        {
            proof {
                lemma_hits_defined_up_to(
                    old(self).boy.sprite_sheet@,
                    old(self)@.boy,
                    boxes@,
                    platform_y,
                    boxes@.len(),
                    index as nat + 1,
                );
            }
            self.boy.meet_platform_box(&boxes[index], platform_y);
            index = index + 1;
        }
    }

    /// Lets the character meet the platform's bounding boxes, one after the
    /// other, as far as that can be worked out. Where it cannot, only the
    /// character may have changed.
    fn try_collide_with_platform(&mut self) -> (done: bool)
        ensures
            done == old(self)@.platform_collision_defined(
                old(self).boy.sprite_sheet@,
                old(self).platform.sheet@,
            ),
            done ==> final(self)@ == old(self)@.after_platform_collision(
                old(self).boy.sprite_sheet@,
                old(self).platform.sheet@,
            ),
            final(self)@ == (WalkView { boy: final(self)@.boy, ..old(self)@ }),
            final(self).same_sheets(old(self)),
    {
        if !self.platform.has_bounding_boxes() {
            return false;
        }
        let boxes = self.platform.bounding_boxes();
        let platform_y = self.platform.position.y;
        let mut index: usize = 0;
        while index < boxes.len()
            invariant
                index <= boxes.len(),
                boxes@ == platform_boxes(old(self).platform.sheet@, old(self).platform.position),
                platform_boxes_defined(old(self).platform.sheet@, old(self).platform.position),
                platform_y == old(self).platform.position.y,
                platform_hits_defined(
                    old(self).boy.sprite_sheet@,
                    old(self)@.boy,
                    boxes@,
                    platform_y,
                    index as nat,
                ),
                self.same_sheets(old(self)),
                self@ == (WalkView {
                    boy: after_platform_hits(
                        old(self).boy.sprite_sheet@,
                        old(self)@.boy,
                        boxes@,
                        platform_y,
                        index as nat,
                    ),
                    ..old(self)@
                }),
            decreases boxes.len() - index,
        {
            if !self.boy.can_meet_platform_box(&boxes[index], platform_y) {
                proof {
                    if platform_hits_defined(
                        old(self).boy.sprite_sheet@,
                        old(self)@.boy,
                        boxes@,
                        platform_y,
                        boxes@.len(),
                    ) {
                        lemma_hits_defined_up_to(
                            old(self).boy.sprite_sheet@,
                            old(self)@.boy,
                            boxes@,
                            platform_y,
                            boxes@.len(),
                            index as nat + 1,
                        );
                    }
                }
                return false;
            }
            self.boy.meet_platform_box(&boxes[index], platform_y);
            index = index + 1;
        }
        true
    }

    /// Lets the character meet the stone.
    pub fn collide_with_stone(&mut self)
        requires
            old(self)@.stone_collision_defined(old(self).boy.sprite_sheet@),
        ensures
            final(self)@ == old(self)@.after_stone_collision(old(self).boy.sprite_sheet@),
            final(self).same_sheets(old(self)),
    {
        self.boy.meet_obstacle(&self.stone.bounding_box);
    }

    /// One tick of the world: the keys that are held down, the character's
    /// own tick, the scroll of the world past the character, and what the
    /// platform and the stone do to the character, in this order.
    pub fn update(&mut self, keystate: &KeyState)
        requires
            old(self)@.update_defined(
                old(self).boy.sprite_sheet@,
                old(self).platform.sheet@,
                keystate@,
            ),
        ensures
            final(self)@ == old(self)@.after_update(
                old(self).boy.sprite_sheet@,
                old(self).platform.sheet@,
                keystate@,
            ),
            final(self).same_sheets(old(self)),
    {
        self.apply_keys(keystate);
        self.boy.update();
        self.scroll();
        self.collide_with_platform();
        self.collide_with_stone();
    }

    /// One tick of the world where every step of it can be worked out, and
    /// nothing where one cannot. The answer says which it was.
    pub fn try_update(&mut self, keystate: &KeyState) -> (done: bool)
        ensures
            done == old(self)@.update_defined(
                old(self).boy.sprite_sheet@,
                old(self).platform.sheet@,
                keystate@,
            ),
            done ==> final(self)@ == old(self)@.after_update(
                old(self).boy.sprite_sheet@,
                old(self).platform.sheet@,
                keystate@,
            ),
            !done ==> final(self)@ == old(self)@,
            final(self).same_sheets(old(self)),
    {
        let machine = self.boy.state_machine;
        let platform_position = self.platform.position;
        let stone = self.stone;
        let backgrounds = self.backgrounds;
        self.apply_keys(keystate);
        if !self.boy.can_update() {
            self.boy.state_machine = machine;
            return false;
        }
        self.boy.update();
        if !self.can_scroll() {
            self.boy.state_machine = machine;
            return false;
        }
        self.scroll();
        if !self.try_collide_with_platform() || !self.boy.has_bounding_box() {
            self.boy.state_machine = machine;
            self.platform.position = platform_position;
            self.stone = stone;
            self.backgrounds = backgrounds;
            return false;
        }
        self.collide_with_stone();
        true
    }
}

/// Why the game could not be set up.
#[derive(Clone, Copy, Debug, PartialEq, Eq, Structural)]
pub enum GameError {
    /// The game has its world already.
    AlreadyInitialized,
}

impl GameError {
    /// The error in words.
    pub fn message(&self) -> (text: &'static str)
        ensures
            text@ == "Error: Game is already initialized!"@,
    {
        "Error: Game is already initialized!"
    }
}

/// The game: waiting for its world, or running it.
pub enum WalkTheDog {
    Loading,
    Loaded(Walk),
}

impl WalkTheDog {
    /// A game that waits for its world.
    pub fn new() -> (game: Self)
        ensures
            game is Loading,
    {
        WalkTheDog::Loading
    }

    /// Sets the game up from the sheets and the extents of the pictures that
    /// were loaded for it. A game that waits for its world becomes one that
    /// runs the world as it starts; a game that has its world already is
    /// refused.
    pub fn initialize(
        &self,
        boy_sheet: Sheet,
        platform_sheet: Sheet,
        background_width: i16,
        background_height: i16,
        stone_width: i16,
        stone_height: i16,
    ) -> (loaded: Result<WalkTheDog, GameError>)
        ensures
            match loaded {
                Ok(game) => {
                    &&& self is Loading
                    &&& game matches WalkTheDog::Loaded(walk)
                    &&& walk.boy.sprite_sheet == boy_sheet
                    &&& walk.platform.sheet == platform_sheet
                    &&& walk@ == WalkView::start(
                        background_width,
                        background_height,
                        stone_width,
                        stone_height,
                    )
                },
                Err(error) => self is Loaded && error == GameError::AlreadyInitialized,
            },
    {
        match self {
            WalkTheDog::Loading => Ok(
                WalkTheDog::Loaded(
                    Walk::new(
                        boy_sheet,
                        platform_sheet,
                        background_width,
                        background_height,
                        stone_width,
                        stone_height,
                    ),
                ),
            ),
            WalkTheDog::Loaded(_) => Err(GameError::AlreadyInitialized),
        }
    }

    /// One tick of the game: one tick of its world, where it has one.
    pub fn update(&mut self, keystate: &KeyState)
        requires
            *old(self) matches WalkTheDog::Loaded(walk) ==> walk@.update_defined(
                walk.boy.sprite_sheet@,
                walk.platform.sheet@,
                keystate@,
            ),
        ensures
            *old(self) is Loading ==> *final(self) is Loading,
            *old(self) matches WalkTheDog::Loaded(walk) ==> {
                &&& *final(self) matches WalkTheDog::Loaded(next)
                &&& next@ == walk@.after_update(
                    walk.boy.sprite_sheet@,
                    walk.platform.sheet@,
                    keystate@,
                )
                &&& next.same_sheets(&walk)
            },
    {
        match self {
            WalkTheDog::Loaded(walk) => {
                walk.update(keystate);
            },
            WalkTheDog::Loading => {},
        }
    }

    /// One tick of the game where every step of it can be worked out, and
    /// nothing where one cannot. The answer says which it was; a game that
    /// waits for its world has nothing to work out.
    pub fn try_update(&mut self, keystate: &KeyState) -> (done: bool)
        ensures
            *old(self) is Loading ==> done && *final(self) is Loading,
            *old(self) matches WalkTheDog::Loaded(walk) ==> {
                &&& *final(self) matches WalkTheDog::Loaded(next)
                &&& done == walk@.update_defined(
                    walk.boy.sprite_sheet@,
                    walk.platform.sheet@,
                    keystate@,
                )
                &&& done ==> next@ == walk@.after_update(
                    walk.boy.sprite_sheet@,
                    walk.platform.sheet@,
                    keystate@,
                )
                &&& !done ==> next@ == walk@
                &&& next.same_sheets(&walk)
            },
    {
        match self {
            WalkTheDog::Loaded(walk) => walk.try_update(keystate),
            WalkTheDog::Loading => true,
        }
    }
}

/// Where what all of `count` boxes do to the character can be worked out, so
/// can what the first `fewer` of them do.
pub proof fn lemma_hits_defined_up_to(
    sheet: Map<Seq<char>, Cell>,
    state: StateView,
    boxes: Seq<Rect>,
    platform_y: i16,
    count: nat,
    fewer: nat,
)
    requires
        fewer <= count,
        platform_hits_defined(sheet, state, boxes, platform_y, count),
    ensures
        platform_hits_defined(sheet, state, boxes, platform_y, fewer),
    decreases count,
{
    if fewer < count {
        lemma_hits_defined_up_to(sheet, state, boxes, platform_y, (count - 1) as nat, fewer);
    }
}

} // verus!
