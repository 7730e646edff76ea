//! The player's motion state machine: a finite transition table from
//! (current state, event) to the next state. A pair absent from the table is
//! rejected; rejection is a no-op, never fatal, and no invalid state is ever
//! stored.

use vstd::prelude::*;

verus! {

/// Mutually exclusive behavioral modes of the player. `Idle` is the rest
/// state and the initial one.
#[derive(Clone, Copy, PartialEq, Eq, Structural, Debug)]
pub enum PlayerState {
    Idle,
    Moving,
    Jumping,
    Pulling,
    Pushing,
}

/// Input intents the state machine accepts. Transient: constructed per
/// decision point, never stored.
#[derive(Clone, Copy, PartialEq, Eq, Structural, Debug)]
pub enum PlayerEvent {
    Move,
    Jump,
    Pull,
    Push,
    Stop,
}

/// What `can` answers: whether the table has an entry for the pair.
pub open spec fn can_spec(s: PlayerState, e: PlayerEvent) -> bool {
    transition_spec(s, e) is Some
}

/// The transition table: `Some(next)` exactly for the legal pairs, `None`
/// for every pair the machine rejects.
pub open spec fn transition_spec(s: PlayerState, e: PlayerEvent) -> Option<PlayerState> {
    match (s, e) {
        (PlayerState::Idle, PlayerEvent::Move) => Some(PlayerState::Moving),
        (PlayerState::Idle, PlayerEvent::Push) => Some(PlayerState::Pushing),
        (PlayerState::Idle, PlayerEvent::Pull) => Some(PlayerState::Pulling),
        (PlayerState::Idle, PlayerEvent::Jump) => Some(PlayerState::Jumping),
        (PlayerState::Pushing, PlayerEvent::Move) => Some(PlayerState::Moving),
        (PlayerState::Pushing, PlayerEvent::Pull) => Some(PlayerState::Pulling),
        (PlayerState::Moving, PlayerEvent::Move) => Some(PlayerState::Moving),
        (PlayerState::Moving, PlayerEvent::Push) => Some(PlayerState::Pushing),
        (PlayerState::Moving, PlayerEvent::Stop) => Some(PlayerState::Idle),
        (PlayerState::Moving, PlayerEvent::Jump) => Some(PlayerState::Jumping),
        _ => None,
    }
}

impl Default for PlayerState {
    /// The machine starts idle.
    fn default() -> (r: Self)
        ensures
            r == PlayerState::Idle,
    {
        PlayerState::Idle
    }
}

impl PlayerState {
    /// Equality check against the current state.
    pub fn is(&self, state: PlayerState) -> (r: bool)
        ensures
            r == (*self == state),
    {
        *self == state
    }

    /// Table lookup shared by `can` and `transition`.
    fn transitions(&self, event: &PlayerEvent) -> (r: Option<PlayerState>)
        ensures
            r == transition_spec(*self, *event),
    {
        match (*self, *event) {
            (PlayerState::Idle, PlayerEvent::Move) => Some(PlayerState::Moving),
            (PlayerState::Idle, PlayerEvent::Push) => Some(PlayerState::Pushing),
            (PlayerState::Idle, PlayerEvent::Pull) => Some(PlayerState::Pulling),
            (PlayerState::Idle, PlayerEvent::Jump) => Some(PlayerState::Jumping),
            (PlayerState::Pushing, PlayerEvent::Move) => Some(PlayerState::Moving),
            (PlayerState::Pushing, PlayerEvent::Pull) => Some(PlayerState::Pulling),
            (PlayerState::Moving, PlayerEvent::Move) => Some(PlayerState::Moving),
            (PlayerState::Moving, PlayerEvent::Push) => Some(PlayerState::Pushing),
            (PlayerState::Moving, PlayerEvent::Stop) => Some(PlayerState::Idle),
            (PlayerState::Moving, PlayerEvent::Jump) => Some(PlayerState::Jumping),
            _ => None,
        }
    }

    /// Pure lookup: true exactly when the table has an entry for
    /// (current state, event). Does not mutate the state.
    pub fn can(&self, event: PlayerEvent) -> (r: bool)
        ensures
            r == can_spec(*self, event),
    {
        self.transitions(&event).is_some()
    }

    /// Attempts the transition: commits the table's next state and returns
    /// true when the pair is legal; leaves the state unchanged and returns
    /// false otherwise.
    pub fn transition(&mut self, event: PlayerEvent) -> (r: bool)
        ensures
            r == (transition_spec(*old(self), event) is Some),
            r ==> Some(*final(self)) == transition_spec(*old(self), event),
            !r ==> *final(self) == *old(self),
    {
        match self.transitions(&event) {
            Some(next) => {
                *self = next;
                true
            }
            None => false,
        }
    }
}

/// After a committed transition the machine sits exactly on the table's next
/// state, so which events it then accepts is read off the table at that
/// state: `transition` followed by `can` reflects the table.
pub proof fn lemma_transition_then_can(
    s: PlayerState,
    next: PlayerState,
    first: PlayerEvent,
    second: PlayerEvent,
)
    requires
        transition_spec(s, first) == Some(next),
    ensures
        can_spec(next, second) == (transition_spec(next, second) is Some),
{
}

} // verus!
