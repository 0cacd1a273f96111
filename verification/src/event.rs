//! Entity handles, the two phases of the game, and the events that the
//! systems of the game send to each other.

use vstd::prelude::*;

verus! {

/// The handle of one entity of the game. Two entities are the same exactly
/// when their handles are equal.
#[derive(Clone, Copy, Debug, PartialEq, Eq, Structural)]
pub struct Entity(pub u64);

/// The two modes of the game, of which at most one is active.
#[derive(Clone, Copy, Debug, PartialEq, Eq, Structural)]
pub enum Phase {
    Playing,
    GameOver,
}

/// What one system asks of the others.
#[derive(Clone, Copy, Debug, PartialEq, Eq, Structural)]
pub enum Event {
    /// Create the background of the grid.
    SpawnBackground,
    /// Create the head of a new snake.
    SpawnSnake,
    /// Place a new fruit on the grid.
    SpawnFruit,
    /// The head has reached the fruit with this handle.
    EatFruit(Entity),
    /// The phase is being left.
    OnExit(Phase),
    /// The phase is being entered.
    OnEnter(Phase),
    /// Make the phase the active one.
    SetState(Phase),
}

} // verus!
