//! The character's state machine: one value that is in exactly one of the
//! six states, moved along by events.

use vstd::prelude::*;
use vstd::std_specs::convert::FromSpecImpl;
use crate::context::{RedHatBoyContext, FLOOR, HEIGHT, JUMP_SPEED};
use crate::states::{
    Falling, FallingEndState, Idle, Jumping, JumpingEndState, KnockedOut, RedHatBoyState, Running,
    Sliding, SlidingEndState, FALLING_FRAMES, FALLING_FRAME_NAME, IDLE_FRAMES, IDLE_FRAME_NAME,
    JUMPING_FRAMES, JUMPING_FRAME_NAME, RUNNING_FRAMES, RUNNING_FRAME_NAME, SLIDING_FRAMES,
    SLIDING_FRAME_NAME,
};

verus! {

/// What can happen to the character.
#[derive(Clone, Copy, Debug)]
pub enum Event {
    Run,
    Slide,
    Update,
    Jump,
    KnockOut,
    Land(i16),
}

/// The six states, without what they carry.
#[derive(Clone, Copy, Debug, PartialEq, Eq, Structural)]
pub enum StateKind {
    Idle,
    Running,
    Sliding,
    Jumping,
    Falling,
    KnockedOut,
}

/// The machine as contracts see it: which state it is in, and the motion
/// context that state carries.
pub struct StateView {
    pub kind: StateKind,
    pub context: RedHatBoyContext,
}

impl StateKind {
    /// The last frame of the state's animation.
    pub open spec fn frames(self) -> u8 {
        match self {
            StateKind::Idle => IDLE_FRAMES,
            StateKind::Running => RUNNING_FRAMES,
            StateKind::Sliding => SLIDING_FRAMES,
            StateKind::Jumping => JUMPING_FRAMES,
            StateKind::Falling => FALLING_FRAMES,
            StateKind::KnockedOut => FALLING_FRAMES,
        }
    }

    /// The name under which the state's animation is drawn. A character that
    /// is knocked out is drawn as one that falls.
    pub open spec fn frame_name(self) -> Seq<char> {
        match self {
            StateKind::Idle => IDLE_FRAME_NAME@,
            StateKind::Running => RUNNING_FRAME_NAME@,
            StateKind::Sliding => SLIDING_FRAME_NAME@,
            StateKind::Jumping => JUMPING_FRAME_NAME@,
            StateKind::Falling => FALLING_FRAME_NAME@,
            StateKind::KnockedOut => FALLING_FRAME_NAME@,
        }
    }
}

impl StateView {
    /// The pairs of state and event for which a move is defined. Every other
    /// pair leaves the machine as it is.
    pub open spec fn accepts(self, event: Event) -> bool {
        match (self.kind, event) {
            (StateKind::Idle, Event::Run) => true,
            (StateKind::Idle, Event::Update) => true,
            (StateKind::Running, Event::Slide) => true,
            (StateKind::Running, Event::Jump) => true,
            (StateKind::Running, Event::KnockOut) => true,
            (StateKind::Running, Event::Land(_)) => true,
            (StateKind::Running, Event::Update) => true,
            (StateKind::Sliding, Event::KnockOut) => true,
            (StateKind::Sliding, Event::Land(_)) => true,
            (StateKind::Sliding, Event::Update) => true,
            (StateKind::Jumping, Event::KnockOut) => true,
            (StateKind::Jumping, Event::Land(_)) => true,
            (StateKind::Jumping, Event::Update) => true,
            (StateKind::Falling, Event::Update) => true,
            _ => false,
        }
    }

    /// The move that `event` asks for stays within the coordinate range.
    pub open spec fn can_apply(self, event: Event) -> bool {
        self.accepts(event) ==> match event {
            Event::Update => self.context.can_update(),
            Event::Land(surface) => RedHatBoyContext::can_stand_on(surface),
            _ => true,
        }
    }

    /// The machine after `event`.
    pub open spec fn after(self, event: Event) -> StateView {
        let context = self.context;
        match (self.kind, event) {
            (StateKind::Idle, Event::Run) => StateView {
                kind: StateKind::Running,
                context: context.reset_frame().run_right(),
            },
            (StateKind::Idle, Event::Update) => StateView {
                kind: StateKind::Idle,
                context: context.update(IDLE_FRAMES),
            },
            (StateKind::Running, Event::Slide) => StateView {
                kind: StateKind::Sliding,
                context: context.reset_frame(),
            },
            (StateKind::Running, Event::Jump) => StateView {
                kind: StateKind::Jumping,
                context: context.set_vertical_velocity(JUMP_SPEED).reset_frame(),
            },
            (StateKind::Running, Event::KnockOut) => StateView {
                kind: StateKind::Falling,
                context: context.reset_frame().stop(),
            },
            (StateKind::Running, Event::Land(surface)) => StateView {
                kind: StateKind::Running,
                context: context.set_on(surface),
            },
            (StateKind::Running, Event::Update) => StateView {
                kind: StateKind::Running,
                context: context.update(RUNNING_FRAMES),
            },
            (StateKind::Sliding, Event::KnockOut) => StateView {
                kind: StateKind::Falling,
                context: context.reset_frame().stop(),
            },
            (StateKind::Sliding, Event::Land(surface)) => StateView {
                kind: StateKind::Sliding,
                context: context.set_on(surface),
            },
            (StateKind::Sliding, Event::Update) => {
                let slid = context.update(SLIDING_FRAMES);
                if slid.frame >= SLIDING_FRAMES {
                    StateView { kind: StateKind::Running, context: slid.reset_frame() }
                } else {
                    StateView { kind: StateKind::Sliding, context: slid }
                }
            },
            (StateKind::Jumping, Event::KnockOut) => StateView {
                kind: StateKind::Falling,
                context: context.reset_frame().stop(),
            },
            (StateKind::Jumping, Event::Land(surface)) => StateView {
                kind: StateKind::Running,
                context: context.reset_frame().set_on(surface),
            },
            (StateKind::Jumping, Event::Update) => {
                let flown = context.update(JUMPING_FRAMES);
                if flown.position.y >= FLOOR {
                    StateView {
                        kind: StateKind::Running,
                        context: flown.reset_frame().set_on(HEIGHT),
                    }
                } else {
                    StateView { kind: StateKind::Jumping, context: flown }
                }
            },
            (StateKind::Falling, Event::Update) => {
                let fallen = context.update(FALLING_FRAMES);
                if fallen.frame >= FALLING_FRAMES {
                    StateView { kind: StateKind::KnockedOut, context: fallen }
                } else {
                    StateView { kind: StateKind::Falling, context: fallen }
                }
            },
            _ => self,
        }
    }

    /// The machine after `ticks` ticks without any other event.
    pub open spec fn after_updates(self, ticks: nat) -> StateView
        decreases ticks,
    {
        if ticks == 0 {
            self
        } else {
            self.after_updates((ticks - 1) as nat).after(Event::Update)
        }
    }
}

/// The character, in exactly one of its states.
#[derive(Clone, Copy)]
pub enum RedHatBoyStateMachine {
    Idle(RedHatBoyState<Idle>),
    Running(RedHatBoyState<Running>),
    Sliding(RedHatBoyState<Sliding>),
    Jumping(RedHatBoyState<Jumping>),
    Falling(RedHatBoyState<Falling>),
    KnockedOut(RedHatBoyState<KnockedOut>),
}

impl View for RedHatBoyStateMachine {
    type V = StateView;

    open spec fn view(&self) -> StateView {
        match self {
            RedHatBoyStateMachine::Idle(state) => StateView {
                kind: StateKind::Idle,
                context: state@,
            },
            RedHatBoyStateMachine::Running(state) => StateView {
                kind: StateKind::Running,
                context: state@,
            },
            RedHatBoyStateMachine::Sliding(state) => StateView {
                kind: StateKind::Sliding,
                context: state@,
            },
            RedHatBoyStateMachine::Jumping(state) => StateView {
                kind: StateKind::Jumping,
                context: state@,
            },
            RedHatBoyStateMachine::Falling(state) => StateView {
                kind: StateKind::Falling,
                context: state@,
            },
            RedHatBoyStateMachine::KnockedOut(state) => StateView {
                kind: StateKind::KnockedOut,
                context: state@,
            },
        }
    }
}

impl RedHatBoyStateMachine {
    /// The machine as it starts: idle, at the starting point.
    pub open spec fn new_spec() -> StateView {
        StateView { kind: StateKind::Idle, context: RedHatBoyState::<Idle>::new_spec() }
    }

    /// The machine with the idle character at its starting point.
    pub fn new() -> (machine: Self)
        ensures
            machine@ == Self::new_spec(),
    {
        RedHatBoyStateMachine::Idle(RedHatBoyState::new())
    }

    /// Moves the machine along by one event. A pair of state and event for
    /// which no move is defined leaves the machine as it is.
    pub fn transition(self, event: Event) -> (next: Self)
        requires
            self@.can_apply(event),
        ensures
            next@ == self@.after(event),
            !self@.accepts(event) ==> next == self,
    {
        match (self, event) {
            (RedHatBoyStateMachine::Idle(state), Event::Run) => state.run().into(),
            (RedHatBoyStateMachine::Running(state), Event::Slide) => state.slide().into(),
            (RedHatBoyStateMachine::Running(state), Event::Jump) => state.jump().into(),
            (RedHatBoyStateMachine::Running(state), Event::KnockOut) => state.knock_out().into(),
            (RedHatBoyStateMachine::Running(state), Event::Land(position)) => {
                state.land_on(position).into()
            },
            (RedHatBoyStateMachine::Idle(state), Event::Update) => state.update().into(),
            (RedHatBoyStateMachine::Running(state), Event::Update) => state.update().into(),
            (RedHatBoyStateMachine::Sliding(state), Event::Update) => state.update().into(),
            (RedHatBoyStateMachine::Falling(state), Event::Update) => state.update().into(),
            (RedHatBoyStateMachine::Sliding(state), Event::KnockOut) => state.knock_out().into(),
            (RedHatBoyStateMachine::Sliding(state), Event::Land(position)) => {
                state.land_on(position).into()
            },
            (RedHatBoyStateMachine::Jumping(state), Event::Update) => state.update().into(),
            (RedHatBoyStateMachine::Jumping(state), Event::KnockOut) => state.knock_out().into(),
            (RedHatBoyStateMachine::Jumping(state), Event::Land(position)) => {
                state.land_on(position).into()
            },
            _ => self,
        }
    }

    /// Whether `event` can be applied: whether the move that it asks for
    /// stays within the coordinate range.
    pub fn can_transition(&self, event: Event) -> (fits: bool)
        ensures
            fits == self@.can_apply(event),
    {
        match (self, event) {
            (RedHatBoyStateMachine::Idle(state), Event::Update) => state.context().fits_update(),
            (RedHatBoyStateMachine::Running(state), Event::Update) => {
                state.context().fits_update()
            },
            (RedHatBoyStateMachine::Sliding(state), Event::Update) => {
                state.context().fits_update()
            },
            (RedHatBoyStateMachine::Jumping(state), Event::Update) => {
                state.context().fits_update()
            },
            (RedHatBoyStateMachine::Falling(state), Event::Update) => {
                state.context().fits_update()
            },
            (RedHatBoyStateMachine::Running(_), Event::Land(position)) => {
                RedHatBoyContext::fits_on(position)
            },
            (RedHatBoyStateMachine::Sliding(_), Event::Land(position)) => {
                RedHatBoyContext::fits_on(position)
            },
            (RedHatBoyStateMachine::Jumping(_), Event::Land(position)) => {
                RedHatBoyContext::fits_on(position)
            },
            _ => true,
        }
    }

    /// The name under which the current state's animation is drawn.
    pub fn frame_name(&self) -> (name: &str)
        ensures
            name@ == self@.kind.frame_name(),
    {
        match self {
            RedHatBoyStateMachine::Idle(state) => state.frame_name(),
            RedHatBoyStateMachine::Running(state) => state.frame_name(),
            RedHatBoyStateMachine::Sliding(state) => state.frame_name(),
            RedHatBoyStateMachine::Jumping(state) => state.frame_name(),
            RedHatBoyStateMachine::Falling(state) => state.frame_name(),
            RedHatBoyStateMachine::KnockedOut(state) => state.frame_name(),
        }
    }

    /// The motion context of the current state.
    pub fn context(&self) -> (context: &RedHatBoyContext)
        ensures
            *context == self@.context,
    {
        match self {
            RedHatBoyStateMachine::Idle(state) => state.context(),
            RedHatBoyStateMachine::Running(state) => state.context(),
            RedHatBoyStateMachine::Sliding(state) => state.context(),
            RedHatBoyStateMachine::Jumping(state) => state.context(),
            RedHatBoyStateMachine::Falling(state) => state.context(),
            RedHatBoyStateMachine::KnockedOut(state) => state.context(),
        }
    }

    /// One tick: the event `Update`.
    pub fn update(self) -> (next: Self)
        requires
            self@.can_apply(Event::Update),
        ensures
            next@ == self@.after(Event::Update),
            !self@.accepts(Event::Update) ==> next == self,
    {
        self.transition(Event::Update)
    }
}

impl From<RedHatBoyState<Idle>> for RedHatBoyStateMachine {
    fn from(state: RedHatBoyState<Idle>) -> (machine: Self) {
        RedHatBoyStateMachine::Idle(state)
    }
}

impl FromSpecImpl<RedHatBoyState<Idle>> for RedHatBoyStateMachine {
    open spec fn obeys_from_spec() -> bool {
        true
    }

    open spec fn from_spec(state: RedHatBoyState<Idle>) -> Self {
        RedHatBoyStateMachine::Idle(state)
    }
}

impl From<RedHatBoyState<Running>> for RedHatBoyStateMachine {
    fn from(state: RedHatBoyState<Running>) -> (machine: Self) {
        RedHatBoyStateMachine::Running(state)
    }
}

impl FromSpecImpl<RedHatBoyState<Running>> for RedHatBoyStateMachine {
    open spec fn obeys_from_spec() -> bool {
        true
    }

    open spec fn from_spec(state: RedHatBoyState<Running>) -> Self {
        RedHatBoyStateMachine::Running(state)
    }
}

impl From<RedHatBoyState<Sliding>> for RedHatBoyStateMachine {
    fn from(state: RedHatBoyState<Sliding>) -> (machine: Self) {
        RedHatBoyStateMachine::Sliding(state)
    }
}

impl FromSpecImpl<RedHatBoyState<Sliding>> for RedHatBoyStateMachine {
    open spec fn obeys_from_spec() -> bool {
        true
    }

    open spec fn from_spec(state: RedHatBoyState<Sliding>) -> Self {
        RedHatBoyStateMachine::Sliding(state)
    }
}

impl From<SlidingEndState> for RedHatBoyStateMachine {
    fn from(end_state: SlidingEndState) -> (machine: Self) {
        match end_state {
            SlidingEndState::Complete(running_state) => running_state.into(),
            SlidingEndState::Sliding(sliding_state) => sliding_state.into(),
        }
    }
}

impl FromSpecImpl<SlidingEndState> for RedHatBoyStateMachine {
    open spec fn obeys_from_spec() -> bool {
        true
    }

    open spec fn from_spec(end_state: SlidingEndState) -> Self {
        match end_state {
            SlidingEndState::Complete(running_state) => RedHatBoyStateMachine::Running(
                running_state,
            ),
            SlidingEndState::Sliding(sliding_state) => RedHatBoyStateMachine::Sliding(
                sliding_state,
            ),
        }
    }
}

impl From<RedHatBoyState<Jumping>> for RedHatBoyStateMachine {
    fn from(state: RedHatBoyState<Jumping>) -> (machine: Self) {
        RedHatBoyStateMachine::Jumping(state)
    }
}

impl FromSpecImpl<RedHatBoyState<Jumping>> for RedHatBoyStateMachine {
    open spec fn obeys_from_spec() -> bool {
        true
    }

    open spec fn from_spec(state: RedHatBoyState<Jumping>) -> Self {
        RedHatBoyStateMachine::Jumping(state)
    }
}

impl From<JumpingEndState> for RedHatBoyStateMachine {
    fn from(state: JumpingEndState) -> (machine: Self) {
        match state {
            JumpingEndState::Jumping(jumping) => jumping.into(),
            JumpingEndState::Landing(landing) => landing.into(),
        }
    }
}

impl FromSpecImpl<JumpingEndState> for RedHatBoyStateMachine {
    open spec fn obeys_from_spec() -> bool {
        true
    }

    open spec fn from_spec(state: JumpingEndState) -> Self {
        match state {
            JumpingEndState::Jumping(jumping) => RedHatBoyStateMachine::Jumping(jumping),
            JumpingEndState::Landing(landing) => RedHatBoyStateMachine::Running(landing),
        }
    }
}

impl From<RedHatBoyState<Falling>> for RedHatBoyStateMachine {
    fn from(state: RedHatBoyState<Falling>) -> (machine: Self) {
        RedHatBoyStateMachine::Falling(state)
    }
}

impl FromSpecImpl<RedHatBoyState<Falling>> for RedHatBoyStateMachine {
    open spec fn obeys_from_spec() -> bool {
        true
    }

    open spec fn from_spec(state: RedHatBoyState<Falling>) -> Self {
        RedHatBoyStateMachine::Falling(state)
    }
}

impl From<RedHatBoyState<KnockedOut>> for RedHatBoyStateMachine {
    fn from(state: RedHatBoyState<KnockedOut>) -> (machine: Self) {
        RedHatBoyStateMachine::KnockedOut(state)
    }
}

impl FromSpecImpl<RedHatBoyState<KnockedOut>> for RedHatBoyStateMachine {
    open spec fn obeys_from_spec() -> bool {
        true
    }

    open spec fn from_spec(state: RedHatBoyState<KnockedOut>) -> Self {
        RedHatBoyStateMachine::KnockedOut(state)
    }
}

impl From<FallingEndState> for RedHatBoyStateMachine {
    fn from(state: FallingEndState) -> (machine: Self) {
        match state {
            FallingEndState::Falling(state) => state.into(),
            FallingEndState::KnockedOut(state) => state.into(),
        }
    }
}

impl FromSpecImpl<FallingEndState> for RedHatBoyStateMachine {
    open spec fn obeys_from_spec() -> bool {
        true
    }

    open spec fn from_spec(state: FallingEndState) -> Self {
        match state {
            FallingEndState::Falling(state) => RedHatBoyStateMachine::Falling(state),
            FallingEndState::KnockedOut(state) => RedHatBoyStateMachine::KnockedOut(state),
        }
    }
}

} // verus!
