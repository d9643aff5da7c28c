//! The motion context: what a character state carries from tick to tick.

use vstd::prelude::*;
use crate::geometry::Point;

verus! {

/// Height of the playing field.
pub const HEIGHT: i16 = 600;

/// The lowest vertical position the character's origin can take.
pub const FLOOR: i16 = 479;

/// Distance from the character's origin down to its feet.
pub const PLAYER_HEIGHT: i16 = HEIGHT - FLOOR;

/// Horizontal position at which the character starts.
pub const STARTING_POINT: i16 = -20;

/// Horizontal speed while running.
pub const RUNNING_SPEED: i16 = 4;

/// Vertical velocity given by a jump.
pub const JUMP_SPEED: i16 = -25;

/// Downward acceleration per tick.
pub const GRAVITY: i16 = 1;

/// Vertical velocity at which gravity stops accelerating.
pub const TERMINAL_VELOCITY: i16 = 20;

/// Frame counter, position and velocity of the character.
#[derive(Clone, Copy, Debug, PartialEq, Eq, Structural)]
pub struct RedHatBoyContext {
    pub frame: u8,
    pub position: Point,
    pub velocity: Point,
}

impl RedHatBoyContext {
    /// Vertical velocity after one tick of gravity: one step faster, unless
    /// terminal velocity is reached already.
    pub open spec fn next_velocity_y(self) -> int {
        if self.velocity.y < TERMINAL_VELOCITY {
            self.velocity.y + GRAVITY
        } else {
            self.velocity.y as int
        }
    }

    /// Frame counter after one tick of an animation that has `frame_count`
    /// as its last frame: one further, or back to the start.
    pub open spec fn next_frame(self, frame_count: u8) -> int {
        if self.frame < frame_count {
            self.frame + 1
        } else {
            0
        }
    }

    /// Vertical position after one tick: moved by the new velocity, and no
    /// lower than the floor.
    pub open spec fn next_position_y(self) -> int {
        let moved = self.position.y + self.next_velocity_y();
        if moved > FLOOR {
            FLOOR as int
        } else {
            moved
        }
    }

    /// One tick does not carry the character above the top of the coordinate
    /// range.
    pub open spec fn can_update(self) -> bool {
        self.position.y + self.next_velocity_y() >= i16::MIN
    }

    /// The height that a character with the given vertical velocity still
    /// gains before gravity has stopped its rise.
    pub open spec fn rise_ahead(velocity: int) -> int
        decreases -velocity,
    {
        if velocity >= 0 {
            0
        } else {
            -(velocity + 1) + Self::rise_ahead(velocity + 1)
        }
    }

    /// The highest point of the character's flight is within the coordinate
    /// range.
    pub open spec fn flight_fits(self) -> bool {
        self.position.y - Self::rise_ahead(self.velocity.y as int) >= i16::MIN
    }

    /// The context one tick later.
    pub open spec fn spec_update(self, frame_count: u8) -> Self {
        RedHatBoyContext {
            frame: self.next_frame(frame_count) as u8,
            position: Point { x: self.position.x, y: self.next_position_y() as i16 },
            velocity: Point { x: self.velocity.x, y: self.next_velocity_y() as i16 },
        }
    }

    /// The context `ticks` ticks later.
    pub open spec fn after_updates(self, frame_count: u8, ticks: nat) -> Self
        decreases ticks,
    {
        if ticks == 0 {
            self
        } else {
            self.after_updates(frame_count, (ticks - 1) as nat).spec_update(frame_count)
        }
    }

    /// The context at the first frame.
    pub open spec fn spec_reset_frame(self) -> Self {
        RedHatBoyContext { frame: 0, ..self }
    }

    /// The context moving to the right at running speed.
    pub open spec fn spec_run_right(self) -> Self {
        RedHatBoyContext { velocity: Point { x: RUNNING_SPEED, y: self.velocity.y }, ..self }
    }

    /// The context with the vertical velocity `y`.
    pub open spec fn spec_set_vertical_velocity(self, y: i16) -> Self {
        RedHatBoyContext { velocity: Point { x: self.velocity.x, y }, ..self }
    }

    /// The context at rest.
    pub open spec fn spec_stop(self) -> Self {
        RedHatBoyContext { velocity: Point { x: 0, y: 0 }, ..self }
    }

    /// The feet of a character standing on a surface at `surface` are within
    /// the coordinate range.
    pub open spec fn can_stand_on(surface: i16) -> bool {
        surface - PLAYER_HEIGHT >= i16::MIN
    }

    /// The context with the character's feet at `surface`.
    pub open spec fn spec_set_on(self, surface: i16) -> Self {
        RedHatBoyContext {
            position: Point { x: self.position.x, y: (surface - PLAYER_HEIGHT) as i16 },
            ..self
        }
    }

    /// Whether one tick keeps the character within the coordinate range.
    pub fn fits_update(&self) -> (fits: bool)
        ensures
            fits == self.can_update(),
    {
        let velocity: i32 = if self.velocity.y < TERMINAL_VELOCITY {
            self.velocity.y as i32 + GRAVITY as i32
        } else {
            self.velocity.y as i32
        };
        self.position.y as i32 + velocity >= -32768
    }

    /// Whether a character can be set on a surface at `surface`.
    pub fn fits_on(surface: i16) -> (fits: bool)
        ensures
            fits == Self::can_stand_on(surface),
    {
        surface as i32 - PLAYER_HEIGHT as i32 >= -32768
    }

    /// Advances the context by one tick: gravity, the frame counter, then the
    /// vertical position with the floor as its limit.
    #[verifier::when_used_as_spec(spec_update)]
    pub fn update(self, frame_count: u8) -> (next: Self)
        requires
            self.can_update(),
        ensures
            next == self.spec_update(frame_count),
            next.frame == self.next_frame(frame_count),
            next.velocity.x == self.velocity.x,
            next.velocity.y == self.next_velocity_y(),
            next.velocity.y <= TERMINAL_VELOCITY || next.velocity.y == self.velocity.y,
            next.position.x == self.position.x,
            next.position.y == self.next_position_y(),
            next.position.y <= FLOOR,
    {
        let mut next = self;
        if next.velocity.y < TERMINAL_VELOCITY {
            next.velocity.y = next.velocity.y + GRAVITY;
        }
        if next.frame < frame_count {
            next.frame = next.frame + 1;
        } else {
            next.frame = 0;
        }
        let moved: i32 = next.position.y as i32 + next.velocity.y as i32;
        if moved > FLOOR as i32 {
            next.position.y = FLOOR;
        } else {
            next.position.y = moved as i16;
        }
        next
    }

    /// Starts the animation over.
    #[verifier::when_used_as_spec(spec_reset_frame)]
    pub fn reset_frame(self) -> (next: Self)
        ensures
            next == self.spec_reset_frame(),
    {
        let mut next = self;
        next.frame = 0;
        next
    }

    /// Sets the horizontal velocity to the running speed.
    #[verifier::when_used_as_spec(spec_run_right)]
    pub fn run_right(self) -> (next: Self)
        ensures
            next == self.spec_run_right(),
    {
        let mut next = self;
        next.velocity.x = RUNNING_SPEED;
        next
    }

    /// Sets the vertical velocity.
    #[verifier::when_used_as_spec(spec_set_vertical_velocity)]
    pub fn set_vertical_velocity(self, y: i16) -> (next: Self)
        ensures
            next == self.spec_set_vertical_velocity(y),
    {
        let mut next = self;
        next.velocity.y = y;
        next
    }

    /// Brings the character to rest.
    #[verifier::when_used_as_spec(spec_stop)]
    pub fn stop(self) -> (next: Self)
        ensures
            next == self.spec_stop(),
    {
        let mut next = self;
        next.velocity.x = 0;
        next.velocity.y = 0;
        next
    }

    /// Places the character so that its feet rest at `surface`.
    #[verifier::when_used_as_spec(spec_set_on)]
    pub fn set_on(self, surface: i16) -> (next: Self)
        requires
            Self::can_stand_on(surface),
        ensures
            next == self.spec_set_on(surface),
            next.position.y + PLAYER_HEIGHT == surface,
    {
        let mut next = self;
        next.position.y = surface - PLAYER_HEIGHT;
        next
    }
}

} // verus!
