//! The character as the world holds it: the state machine together with the
//! sprite sheet from which its pictures and its bounding box are taken.

use vstd::prelude::*;
use vstd::string::StringExecFns;
use crate::geometry::{Point, Rect};
use crate::machine::{Event, RedHatBoyStateMachine, StateView};
use crate::sheet::{Cell, Sheet};

verus! {

/// Number of ticks for which one picture of an animation is shown.
pub const TICKS_PER_PICTURE: u8 = 3;

/// What the bounding box leaves out on the left of the drawn sprite.
pub const BOUNDING_X_OFFSET: i16 = 18;

/// What the bounding box leaves out at the top of the drawn sprite.
pub const BOUNDING_Y_OFFSET: i16 = 14;

/// What the bounding box leaves out of the drawn sprite's width.
pub const BOUNDING_WIDTH_OFFSET: i16 = 28;

/// The character of a decimal digit.
pub open spec fn digit_char(digit: nat) -> char {
    if digit == 0 {
        '0'
    } else if digit == 1 {
        '1'
    } else if digit == 2 {
        '2'
    } else if digit == 3 {
        '3'
    } else if digit == 4 {
        '4'
    } else if digit == 5 {
        '5'
    } else if digit == 6 {
        '6'
    } else if digit == 7 {
        '7'
    } else if digit == 8 {
        '8'
    } else {
        '9'
    }
}

/// A number written in decimal, without leading zeros.
pub open spec fn decimal(number: nat) -> Seq<char>
    decreases number,
{
    if number < 10 {
        seq![digit_char(number)]
    } else {
        decimal(number / 10).push(digit_char(number % 10))
    }
}

/// The picture of an animation that is shown at tick `frame`, counted from
/// one.
pub open spec fn picture_index(frame: u8) -> nat {
    (frame / TICKS_PER_PICTURE + 1) as nat
}

/// The name of the sprite that shows the character in `state`: the name of
/// the state's animation, then the picture's index in brackets.
pub open spec fn sprite_name(state: StateView) -> Seq<char> {
    state.kind.frame_name() + " ("@ + decimal(picture_index(state.context.frame)) + ").png"@
}

fn digit_str(digit: u8) -> (text: &'static str)
    requires
        digit < 10,
    ensures
        text@ == seq![digit_char(digit as nat)],
{
    proof {
        reveal_strlit("0");
        reveal_strlit("1");
        reveal_strlit("2");
        reveal_strlit("3");
        reveal_strlit("4");
        reveal_strlit("5");
        reveal_strlit("6");
        reveal_strlit("7");
        reveal_strlit("8");
        reveal_strlit("9");
    }
    let text = if digit == 0 {
        "0"
    } else if digit == 1 {
        "1"
    } else if digit == 2 {
        "2"
    } else if digit == 3 {
        "3"
    } else if digit == 4 {
        "4"
    } else if digit == 5 {
        "5"
    } else if digit == 6 {
        "6"
    } else if digit == 7 {
        "7"
    } else if digit == 8 {
        "8"
    } else {
        "9"
    };
    assert(text@ =~= seq![digit_char(digit as nat)]);
    text
}

/// Writes `number` in decimal at the end of `text`.
fn append_decimal(text: &mut String, number: u8)
    ensures
        final(text)@ == old(text)@ + decimal(number as nat),
{
    let ghost before = text@;
    if number >= 100 {
        text.append(digit_str(number / 100));
        text.append(digit_str(number / 10 % 10));
        text.append(digit_str(number % 10));
        proof {
            let n = number as nat;
            assert(decimal(n / 100) =~= seq![digit_char(n / 100)]);
            assert((n / 10) / 10 == n / 100);
            assert(decimal(n / 10) =~= seq![digit_char(n / 100), digit_char(n / 10 % 10)]);
            assert(decimal(n) =~= seq![
                digit_char(n / 100),
                digit_char(n / 10 % 10),
                digit_char(n % 10),
            ]);
            assert(text@ =~= before + decimal(n));
        }
    } else if number >= 10 {
        text.append(digit_str(number / 10));
        text.append(digit_str(number % 10));
        proof {
            let n = number as nat;
            assert(decimal(n / 10) =~= seq![digit_char(n / 10)]);
            assert(decimal(n) =~= seq![digit_char(n / 10), digit_char(n % 10)]);
            assert(text@ =~= before + decimal(n));
        }
    } else {
        text.append(digit_str(number));
        proof {
            assert(text@ =~= before + decimal(number as nat));
        }
    }
}

/// The sprite that `sheet` holds for the character in `state`, if it holds
/// one.
pub open spec fn sprite_of(sheet: Map<Seq<char>, Cell>, state: StateView) -> Option<Cell> {
    Sheet::lookup(sheet, sprite_name(state))
}

/// The rectangle in which `sprite` is drawn for a character at `position`
/// has its corner within the coordinate range.
pub open spec fn destination_fits(position: Point, sprite: Cell) -> bool {
    &&& i16::MIN <= position.x + sprite.sprite_source_size.x <= i16::MAX
    &&& i16::MIN <= position.y + sprite.sprite_source_size.y <= i16::MAX
}

/// The rectangle in which `sprite` is drawn for a character at `position`:
/// the sprite's extents, moved by the sprite's own offset.
pub open spec fn destination_of(position: Point, sprite: Cell) -> Rect {
    Rect {
        x: (position.x + sprite.sprite_source_size.x) as i16,
        y: (position.y + sprite.sprite_source_size.y) as i16,
        width: sprite.frame.w,
        height: sprite.frame.h,
    }
}

/// The bounding box of a character at `position` that is shown by `sprite`
/// lies within the coordinate range.
pub open spec fn bounding_fits(position: Point, sprite: Cell) -> bool {
    &&& i16::MIN <= position.x + sprite.sprite_source_size.x + BOUNDING_X_OFFSET <= i16::MAX
    &&& i16::MIN <= position.y + sprite.sprite_source_size.y + BOUNDING_Y_OFFSET <= i16::MAX
    &&& i16::MIN <= sprite.frame.w - BOUNDING_WIDTH_OFFSET
    &&& i16::MIN <= sprite.frame.h - BOUNDING_Y_OFFSET
}

/// The bounding box of a character at `position` that is shown by `sprite`:
/// the rectangle in which the sprite is drawn, without the empty margin that
/// the sprite has round the character.
pub open spec fn bounding_of(position: Point, sprite: Cell) -> Rect {
    Rect {
        x: (position.x + sprite.sprite_source_size.x + BOUNDING_X_OFFSET) as i16,
        y: (position.y + sprite.sprite_source_size.y + BOUNDING_Y_OFFSET) as i16,
        width: (sprite.frame.w - BOUNDING_WIDTH_OFFSET) as i16,
        height: (sprite.frame.h - BOUNDING_Y_OFFSET) as i16,
    }
}

/// The character in `state` has a bounding box: `sheet` holds its sprite,
/// and the box lies within the coordinate range.
pub open spec fn bounding_defined(sheet: Map<Seq<char>, Cell>, state: StateView) -> bool {
    &&& sprite_of(sheet, state) is Some
    &&& bounding_fits(state.context.position, sprite_of(sheet, state)->0)
}

/// The bounding box of the character in `state`, with its sprite taken from
/// `sheet`.
pub open spec fn bounding_box_of(sheet: Map<Seq<char>, Cell>, state: StateView) -> Rect {
    bounding_of(state.context.position, sprite_of(sheet, state)->0)
}

/// The character comes down on a platform whose top is at `platform_y`: it
/// moves downward and is still above the platform.
pub open spec fn approaches_from_above(state: StateView, platform_y: i16) -> bool {
    state.context.velocity.y > 0 && state.context.position.y < platform_y
}

/// What a box of a platform does to the character can be worked out: the
/// character has a bounding box, and where it comes to land on the box, it
/// can be set there.
pub open spec fn platform_hit_defined(
    sheet: Map<Seq<char>, Cell>,
    state: StateView,
    bounding_box: Rect,
    platform_y: i16,
) -> bool {
    &&& bounding_defined(sheet, state)
    &&& bounding_box_of(sheet, state).overlaps(bounding_box) && approaches_from_above(
        state,
        platform_y,
    ) ==> state.can_apply(Event::Land(bounding_box.y))
}

/// The character after it has met one box of a platform whose top is at
/// `platform_y`. A character that overlaps the box lands on it when it comes
/// from above, and is knocked out when it does not; one that does not overlap
/// the box goes on as it is.
pub open spec fn after_platform_hit(
    sheet: Map<Seq<char>, Cell>,
    state: StateView,
    bounding_box: Rect,
    platform_y: i16,
) -> StateView {
    if bounding_box_of(sheet, state).overlaps(bounding_box) {
        if approaches_from_above(state, platform_y) {
            state.after(Event::Land(bounding_box.y))
        } else {
            state.after(Event::KnockOut)
        }
    } else {
        state
    }
}

/// The character after it has met the first `count` of `boxes`, one after
/// the other.
pub open spec fn after_platform_hits(
    sheet: Map<Seq<char>, Cell>,
    state: StateView,
    boxes: Seq<Rect>,
    platform_y: i16,
    count: nat,
) -> StateView
    decreases count,
{
    if count == 0 {
        state
    } else {
        after_platform_hit(
            sheet,
            after_platform_hits(sheet, state, boxes, platform_y, (count - 1) as nat),
            boxes[count - 1],
            platform_y,
        )
    }
}

/// What each of the first `count` of `boxes` does to the character can be
/// worked out, for the character as the boxes before it have left it.
pub open spec fn platform_hits_defined(
    sheet: Map<Seq<char>, Cell>,
    state: StateView,
    boxes: Seq<Rect>,
    platform_y: i16,
    count: nat,
) -> bool
    decreases count,
{
    if count == 0 {
        true
    } else {
        &&& platform_hits_defined(sheet, state, boxes, platform_y, (count - 1) as nat)
        &&& platform_hit_defined(
            sheet,
            after_platform_hits(sheet, state, boxes, platform_y, (count - 1) as nat),
            boxes[count - 1],
            platform_y,
        )
    }
}

/// The character after it has met an obstacle: knocked out where it overlaps
/// the obstacle, as it is where it does not.
pub open spec fn after_obstacle_hit(
    sheet: Map<Seq<char>, Cell>,
    state: StateView,
    obstacle: Rect,
) -> StateView {
    if bounding_box_of(sheet, state).overlaps(obstacle) {
        state.after(Event::KnockOut)
    } else {
        state
    }
}

/// The character, with the sheet of its sprites.
pub struct RedHatBoy {
    pub state_machine: RedHatBoyStateMachine,
    pub sprite_sheet: Sheet,
}

impl RedHatBoy {
    /// The idle character at its starting point.
    pub fn new(sprite_sheet: Sheet) -> (boy: Self)
        ensures
            boy.state_machine@ == RedHatBoyStateMachine::new_spec(),
            boy.sprite_sheet == sprite_sheet,
    {
        RedHatBoy { state_machine: RedHatBoyStateMachine::new(), sprite_sheet }
    }

    /// The name of the sprite that shows the character as it is now.
    pub fn frame_name(&self) -> (name: String)
        ensures
            name@ == sprite_name(self.state_machine@),
    {
        let mut name = String::from_str(self.state_machine.frame_name());
        name.append(" (");
        append_decimal(&mut name, self.state_machine.context().frame / TICKS_PER_PICTURE + 1);
        name.append(").png");
        name
    }

    /// The sprite that shows the character as it is now, if the sheet holds
    /// it.
    pub fn current_sprite(&self) -> (sprite: Option<Cell>)
        ensures
            sprite == sprite_of(self.sprite_sheet@, self.state_machine@),
    {
        let name = self.frame_name();
        self.sprite_sheet.get(name.as_str())
    }

    /// The sheet holds the current sprite, and the rectangle in which it is
    /// drawn has its corner within the coordinate range.
    pub open spec fn destination_box_defined(&self) -> bool {
        &&& sprite_of(self.sprite_sheet@, self.state_machine@) is Some
        &&& destination_fits(
            self.state_machine@.context.position,
            sprite_of(self.sprite_sheet@, self.state_machine@)->0,
        )
    }

    /// The sheet holds the current sprite, and the character's bounding box
    /// lies within the coordinate range.
    pub open spec fn bounding_box_defined(&self) -> bool {
        bounding_defined(self.sprite_sheet@, self.state_machine@)
    }

    /// Whether the rectangle in which the character is drawn can be had.
    pub fn has_destination_box(&self) -> (defined: bool)
        ensures
            defined == self.destination_box_defined(),
    {
        match self.current_sprite() {
            Some(sprite) => {
                let position = self.state_machine.context().position;
                let x: i32 = position.x as i32 + sprite.sprite_source_size.x as i32;
                let y: i32 = position.y as i32 + sprite.sprite_source_size.y as i32;
                -32768 <= x && x <= 32767 && -32768 <= y && y <= 32767
            },
            None => false,
        }
    }

    /// Whether the character's bounding box can be had.
    pub fn has_bounding_box(&self) -> (defined: bool)
        ensures
            defined == self.bounding_box_defined(),
    {
        match self.current_sprite() {
            Some(sprite) => {
                let position = self.state_machine.context().position;
                let x: i32 = position.x as i32 + sprite.sprite_source_size.x as i32
                    + BOUNDING_X_OFFSET as i32;
                let y: i32 = position.y as i32 + sprite.sprite_source_size.y as i32
                    + BOUNDING_Y_OFFSET as i32;
                let width: i32 = sprite.frame.w as i32 - BOUNDING_WIDTH_OFFSET as i32;
                let height: i32 = sprite.frame.h as i32 - BOUNDING_Y_OFFSET as i32;
                -32768 <= x && x <= 32767 && -32768 <= y && y <= 32767 && -32768 <= width
                    && -32768 <= height
            },
            None => false,
        }
    }

    /// The rectangle in which the character is drawn.
    pub fn destination_box(&self) -> (destination: Rect)
        requires
            self.destination_box_defined(),
        ensures
            destination == destination_of(
                self.state_machine@.context.position,
                sprite_of(self.sprite_sheet@, self.state_machine@)->0,
            ),
    {
        let sprite = self.current_sprite().unwrap();
        let position = self.state_machine.context().position;
        Rect {
            x: position.x + sprite.sprite_source_size.x,
            y: position.y + sprite.sprite_source_size.y,
            width: sprite.frame.w,
            height: sprite.frame.h,
        }
    }

    /// The rectangle with which the character collides.
    pub fn bounding_box(&self) -> (bounding_box: Rect)
        requires
            self.bounding_box_defined(),
        ensures
            bounding_box == bounding_box_of(self.sprite_sheet@, self.state_machine@),
    {
        let sprite = self.current_sprite().unwrap();
        let position = self.state_machine.context().position;
        let x: i32 = position.x as i32 + sprite.sprite_source_size.x as i32
            + BOUNDING_X_OFFSET as i32;
        let y: i32 = position.y as i32 + sprite.sprite_source_size.y as i32
            + BOUNDING_Y_OFFSET as i32;
        Rect {
            x: x as i16,
            y: y as i16,
            width: sprite.frame.w - BOUNDING_WIDTH_OFFSET,
            height: sprite.frame.h - BOUNDING_Y_OFFSET,
        }
    }

    /// The speed at which the character walks to the right.
    pub fn walking_speed(&self) -> (speed: i16)
        ensures
            speed == self.state_machine@.context.velocity.x,
    {
        self.state_machine.context().velocity.x
    }

    /// The character's vertical position.
    pub fn pos_y(&self) -> (y: i16)
        ensures
            y == self.state_machine@.context.position.y,
    {
        self.state_machine.context().position.y
    }

    /// The character's vertical velocity.
    pub fn velocity_y(&self) -> (y: i16)
        ensures
            y == self.state_machine@.context.velocity.y,
    {
        self.state_machine.context().velocity.y
    }

    /// Whether one more tick keeps the character within the coordinate range.
    pub fn can_update(&self) -> (fits: bool)
        ensures
            fits == self.state_machine@.can_apply(Event::Update),
    {
        self.state_machine.can_transition(Event::Update)
    }

    /// Whether the character can be set on a surface at `position`.
    pub fn can_land_on(&self, position: i16) -> (fits: bool)
        ensures
            fits == self.state_machine@.can_apply(Event::Land(position)),
    {
        self.state_machine.can_transition(Event::Land(position))
    }

    /// One tick of the character.
    pub fn update(&mut self)
        requires
            old(self).state_machine@.can_apply(Event::Update),
        ensures
            final(self).state_machine@ == old(self).state_machine@.after(Event::Update),
            final(self).sprite_sheet == old(self).sprite_sheet,
    {
        self.state_machine = self.state_machine.update();
    }

    /// The event to run.
    pub fn run_right(&mut self)
        ensures
            final(self).state_machine@ == old(self).state_machine@.after(Event::Run),
            final(self).sprite_sheet == old(self).sprite_sheet,
    {
        self.state_machine = self.state_machine.transition(Event::Run);
    }

    /// The event to slide.
    pub fn slide(&mut self)
        ensures
            final(self).state_machine@ == old(self).state_machine@.after(Event::Slide),
            final(self).sprite_sheet == old(self).sprite_sheet,
    {
        self.state_machine = self.state_machine.transition(Event::Slide);
    }

    /// The event to jump.
    pub fn jump(&mut self)
        ensures
            final(self).state_machine@ == old(self).state_machine@.after(Event::Jump),
            final(self).sprite_sheet == old(self).sprite_sheet,
    {
        self.state_machine = self.state_machine.transition(Event::Jump);
    }

    /// The event of a hit.
    pub fn knock_out(&mut self)
        ensures
            final(self).state_machine@ == old(self).state_machine@.after(Event::KnockOut),
            final(self).sprite_sheet == old(self).sprite_sheet,
    {
        self.state_machine = self.state_machine.transition(Event::KnockOut);
    }

    /// The event of landing on a surface at `position`.
    pub fn land_on(&mut self, position: i16)
        requires
            old(self).state_machine@.can_apply(Event::Land(position)),
        ensures
            final(self).state_machine@ == old(self).state_machine@.after(Event::Land(position)),
            final(self).sprite_sheet == old(self).sprite_sheet,
    {
        self.state_machine = self.state_machine.transition(Event::Land(position));
    }

    /// Whether what a box of a platform does to the character can be worked
    /// out.
    pub fn can_meet_platform_box(&self, bounding_box: &Rect, platform_y: i16) -> (defined: bool)
        ensures
            defined == platform_hit_defined(
                self.sprite_sheet@,
                self.state_machine@,
                *bounding_box,
                platform_y,
            ),
    {
        if !self.has_bounding_box() {
            return false;
        }
        if self.bounding_box().intersects(bounding_box) && self.velocity_y() > 0 && self.pos_y()
            < platform_y {
            self.can_land_on(bounding_box.y)
        } else {
            true
        }
    }

    /// Lets the character meet one box of a platform whose top is at
    /// `platform_y`: it lands on a box that it overlaps while it comes from
    /// above, and is knocked out by a box that it overlaps otherwise.
    pub fn meet_platform_box(&mut self, bounding_box: &Rect, platform_y: i16)
        requires
            platform_hit_defined(
                old(self).sprite_sheet@,
                old(self).state_machine@,
                *bounding_box,
                platform_y,
            ),
        ensures
            final(self).state_machine@ == after_platform_hit(
                old(self).sprite_sheet@,
                old(self).state_machine@,
                *bounding_box,
                platform_y,
            ),
            final(self).sprite_sheet == old(self).sprite_sheet,
    {
        if self.bounding_box().intersects(bounding_box) {
            if self.velocity_y() > 0 && self.pos_y() < platform_y {
                self.land_on(bounding_box.y);
            } else {
                self.knock_out();
            }
        }
    }

    /// Lets the character meet an obstacle: it is knocked out where it
    /// overlaps the obstacle.
    pub fn meet_obstacle(&mut self, obstacle: &Rect)
        requires
            old(self).bounding_box_defined(),
        ensures
            final(self).state_machine@ == after_obstacle_hit(
                old(self).sprite_sheet@,
                old(self).state_machine@,
                *obstacle,
            ),
            final(self).sprite_sheet == old(self).sprite_sheet,
    {
        if self.bounding_box().intersects(obstacle) {
            self.knock_out();
        }
    }
}

} // verus!
