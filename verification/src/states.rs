//! The character's states as types: each state offers only the moves that
//! are open to it, and consumes itself when it moves on.

use vstd::prelude::*;
use crate::context::{RedHatBoyContext, FLOOR, HEIGHT, JUMP_SPEED, STARTING_POINT};
use crate::geometry::Point;

verus! {

/// Last frame of the idle animation.
pub const IDLE_FRAMES: u8 = 29;

/// Last frame of the running animation.
pub const RUNNING_FRAMES: u8 = 23;

/// Frame at which a slide is over.
pub const SLIDING_FRAMES: u8 = 14;

/// Last frame of the jumping animation.
pub const JUMPING_FRAMES: u8 = 12 * 3 - 1;

/// Frame at which a fall is over.
pub const FALLING_FRAMES: u8 = 29;

/// Name of the idle animation.
pub const IDLE_FRAME_NAME: &'static str = "Idle";

/// Name of the running animation.
pub const RUNNING_FRAME_NAME: &'static str = "Run";

/// Name of the sliding animation.
pub const SLIDING_FRAME_NAME: &'static str = "Slide";

/// Name of the jumping animation.
pub const JUMPING_FRAME_NAME: &'static str = "Jump";

/// Name of the animation of a character that falls or is knocked out.
pub const FALLING_FRAME_NAME: &'static str = "Dead";

/// A character in state `S`, with the motion context it owns.
#[derive(Clone, Copy)]
pub struct RedHatBoyState<S> {
    context: RedHatBoyContext,
    _state: S,
}

/// The state of a character that stands and waits.
#[derive(Clone, Copy)]
pub struct Idle;

/// The state of a character that runs.
#[derive(Clone, Copy)]
pub struct Running;

/// The state of a character that slides.
#[derive(Clone, Copy)]
pub struct Sliding;

/// The state of a character that jumps.
#[derive(Clone, Copy)]
pub struct Jumping;

/// The state of a character that has been hit and falls.
#[derive(Clone, Copy)]
pub struct Falling;

/// The state of a character that lies knocked out, for good.
#[derive(Clone, Copy)]
pub struct KnockedOut;

/// How a tick of sliding ends.
pub enum SlidingEndState {
    Complete(RedHatBoyState<Running>),
    Sliding(RedHatBoyState<Sliding>),
}

/// How a tick of jumping ends.
pub enum JumpingEndState {
    Jumping(RedHatBoyState<Jumping>),
    Landing(RedHatBoyState<Running>),
}

/// How a tick of falling ends.
pub enum FallingEndState {
    Falling(RedHatBoyState<Falling>),
    KnockedOut(RedHatBoyState<KnockedOut>),
}

/// A state is seen as the motion context it carries.
impl<S> View for RedHatBoyState<S> {
    type V = RedHatBoyContext;

    closed spec fn view(&self) -> RedHatBoyContext {
        self.context
    }
}

impl<S> RedHatBoyState<S> {
    /// The motion context that the state carries.
    pub fn context(&self) -> (context: &RedHatBoyContext)
        ensures
            *context == self@,
    {
        &self.context
    }

    fn update_context(&mut self, frames: u8)
        requires
            old(self)@.can_update(),
        ensures
            final(self)@ == old(self)@.update(frames),
            final(self)._state == old(self)._state,
    {
        self.context = self.context.update(frames);
    }
}

impl RedHatBoyState<Idle> {
    /// The context in which the character starts: at rest on the floor, at
    /// the starting point.
    pub open spec fn new_spec() -> RedHatBoyContext {
        RedHatBoyContext {
            frame: 0,
            position: Point { x: STARTING_POINT, y: FLOOR },
            velocity: Point { x: 0, y: 0 },
        }
    }

    /// The character at rest on the floor, at the starting point.
    pub fn new() -> (state: Self)
        ensures
            state@ == Self::new_spec(),
    {
        RedHatBoyState {
            context: RedHatBoyContext {
                frame: 0,
                position: Point { x: STARTING_POINT, y: FLOOR },
                velocity: Point { x: 0, y: 0 },
            },
            _state: Idle {  },
        }
    }

    /// Starts to run, from the first frame.
    pub fn run(self) -> (next: RedHatBoyState<Running>)
        ensures
            next@ == self@.reset_frame().run_right(),
    {
        RedHatBoyState { context: self.context.reset_frame().run_right(), _state: Running }
    }

    /// Name of the state's animation.
    pub fn frame_name(&self) -> (name: &str)
        ensures
            name@ == IDLE_FRAME_NAME@,
    {
        IDLE_FRAME_NAME
    }

    /// One tick of waiting.
    pub fn update(self) -> (next: Self)
        requires
            self@.can_update(),
        ensures
            next@ == self@.update(IDLE_FRAMES),
    {
        let mut next = self;
        next.context = next.context.update(IDLE_FRAMES);
        next
    }
}

impl RedHatBoyState<Running> {
    /// Name of the state's animation.
    pub fn frame_name(&self) -> (name: &str)
        ensures
            name@ == RUNNING_FRAME_NAME@,
    {
        RUNNING_FRAME_NAME
    }

    /// One tick of running.
    pub fn update(self) -> (next: Self)
        requires
            self@.can_update(),
        ensures
            next@ == self@.update(RUNNING_FRAMES),
    {
        let mut next = self;
        next.update_context(RUNNING_FRAMES);
        next
    }

    /// Starts to slide, from the first frame.
    pub fn slide(self) -> (next: RedHatBoyState<Sliding>)
        ensures
            next@ == self@.reset_frame(),
    {
        RedHatBoyState { context: self.context.reset_frame(), _state: Sliding {  } }
    }

    /// Jumps: takes off at jump speed, from the first frame.
    pub fn jump(self) -> (next: RedHatBoyState<Jumping>)
        ensures
            next@ == self@.set_vertical_velocity(JUMP_SPEED).reset_frame(),
    {
        RedHatBoyState {
            context: self.context.set_vertical_velocity(JUMP_SPEED).reset_frame(),
            _state: Jumping {  },
        }
    }

    /// Is set with its feet on a surface at `position`, and runs on.
    pub fn land_on(self, position: i16) -> (next: RedHatBoyState<Running>)
        requires
            RedHatBoyContext::can_stand_on(position),
        ensures
            next@ == self@.set_on(position),
    {
        RedHatBoyState { context: self.context.set_on(position), _state: Running }
    }

    /// Is hit: falls, at rest, from the first frame.
    pub fn knock_out(self) -> (next: RedHatBoyState<Falling>)
        ensures
            next@ == self@.reset_frame().stop(),
    {
        RedHatBoyState { context: self.context.reset_frame().stop(), _state: Falling {  } }
    }
}

impl RedHatBoyState<Sliding> {
    /// Name of the state's animation.
    pub fn frame_name(&self) -> (name: &str)
        ensures
            name@ == SLIDING_FRAME_NAME@,
    {
        SLIDING_FRAME_NAME
    }

    /// One tick of sliding. When the animation has run out the character
    /// stands up and runs on.
    pub fn update(self) -> (end: SlidingEndState)
        requires
            self@.can_update(),
        ensures
            match end {
                SlidingEndState::Complete(running) => {
                    &&& self@.update(SLIDING_FRAMES).frame >= SLIDING_FRAMES
                    &&& running@ == self@.update(SLIDING_FRAMES).reset_frame()
                },
                SlidingEndState::Sliding(sliding) => {
                    &&& self@.update(SLIDING_FRAMES).frame < SLIDING_FRAMES
                    &&& sliding@ == self@.update(SLIDING_FRAMES)
                },
            },
    {
        let mut next = self;
        next.update_context(SLIDING_FRAMES);
        if next.context.frame >= SLIDING_FRAMES {
            SlidingEndState::Complete(next.stand())
        } else {
            SlidingEndState::Sliding(next)
        }
    }

    /// Stands up and runs on, from the first frame.
    pub fn stand(self) -> (next: RedHatBoyState<Running>)
        ensures
            next@ == self@.reset_frame(),
    {
        RedHatBoyState { context: self.context.reset_frame(), _state: Running }
    }

    /// Is set with its feet on a surface at `position`, and slides on.
    pub fn land_on(self, position: i16) -> (next: RedHatBoyState<Sliding>)
        requires
            RedHatBoyContext::can_stand_on(position),
        ensures
            next@ == self@.set_on(position),
    {
        RedHatBoyState { context: self.context.set_on(position), _state: Sliding }
    }

    /// Is hit: falls, at rest, from the first frame.
    pub fn knock_out(self) -> (next: RedHatBoyState<Falling>)
        ensures
            next@ == self@.reset_frame().stop(),
    {
        RedHatBoyState { context: self.context.reset_frame().stop(), _state: Falling {  } }
    }
}

impl RedHatBoyState<Jumping> {
    /// Name of the state's animation.
    pub fn frame_name(&self) -> (name: &str)
        ensures
            name@ == JUMPING_FRAME_NAME@,
    {
        JUMPING_FRAME_NAME
    }

    /// One tick of jumping. A character that has come down to the floor
    /// lands on the ground and runs on.
    pub fn update(self) -> (end: JumpingEndState)
        requires
            self@.can_update(),
        ensures
            match end {
                JumpingEndState::Landing(running) => {
                    &&& self@.update(JUMPING_FRAMES).position.y >= FLOOR
                    &&& running@ == self@.update(JUMPING_FRAMES).reset_frame().set_on(HEIGHT)
                },
                JumpingEndState::Jumping(jumping) => {
                    &&& self@.update(JUMPING_FRAMES).position.y < FLOOR
                    &&& jumping@ == self@.update(JUMPING_FRAMES)
                },
            },
    {
        let mut next = self;
        next.update_context(JUMPING_FRAMES);
        if next.context.position.y >= FLOOR {
            JumpingEndState::Landing(next.land_on(HEIGHT))
        } else {
            JumpingEndState::Jumping(next)
        }
    }

    /// Lands with its feet on a surface at `position`, and runs on from the
    /// first frame.
    pub fn land_on(self, position: i16) -> (next: RedHatBoyState<Running>)
        requires
            RedHatBoyContext::can_stand_on(position),
        ensures
            next@ == self@.reset_frame().set_on(position),
    {
        RedHatBoyState { context: self.context.reset_frame().set_on(position), _state: Running }
    }

    /// Is hit: falls, at rest, from the first frame.
    pub fn knock_out(self) -> (next: RedHatBoyState<Falling>)
        ensures
            next@ == self@.reset_frame().stop(),
    {
        RedHatBoyState { context: self.context.reset_frame().stop(), _state: Falling {  } }
    }
}

impl RedHatBoyState<Falling> {
    /// Name of the state's animation.
    pub fn frame_name(&self) -> (name: &str)
        ensures
            name@ == FALLING_FRAME_NAME@,
    {
        FALLING_FRAME_NAME
    }

    /// Lies knocked out, as it fell.
    pub fn knock_out(self) -> (next: RedHatBoyState<KnockedOut>)
        ensures
            next@ == self@,
    {
        RedHatBoyState { context: self.context, _state: KnockedOut }
    }

    /// One tick of falling. When the animation has run out the character is
    /// knocked out for good.
    pub fn update(self) -> (end: FallingEndState)
        requires
            self@.can_update(),
        ensures
            match end {
                FallingEndState::KnockedOut(knocked_out) => {
                    &&& self@.update(FALLING_FRAMES).frame >= FALLING_FRAMES
                    &&& knocked_out@ == self@.update(FALLING_FRAMES)
                },
                FallingEndState::Falling(falling) => {
                    &&& self@.update(FALLING_FRAMES).frame < FALLING_FRAMES
                    &&& falling@ == self@.update(FALLING_FRAMES)
                },
            },
    {
        let mut next = self;
        next.update_context(FALLING_FRAMES);
        if next.context.frame >= FALLING_FRAMES {
            FallingEndState::KnockedOut(next.knock_out())
        } else {
            FallingEndState::Falling(next)
        }
    }
}

impl RedHatBoyState<KnockedOut> {
    /// Name of the state's animation.
    pub fn frame_name(&self) -> (name: &str)
        ensures
            name@ == FALLING_FRAME_NAME@,
    {
        FALLING_FRAME_NAME
    }
}

} // verus!
