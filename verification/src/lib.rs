//! Gameplay core of a grid-based snake game: headings, the shared log of
//! turns that every body unit replays, collisions, fruit placement and
//! the two-phase game state machine.
//!
//! The core holds no entity and draws nothing. Each system takes what it
//! reads of the entities as plain values and hands back what is to be
//! changed, created, removed or sent.

pub mod direction;
pub mod elevations;
pub mod event;
pub mod fruit;
pub mod fruit_effect;
pub mod geometry;
pub mod invariants;
pub mod phase;
pub mod snake;
pub mod snake_body;
pub mod snake_death;
pub mod stage;

pub use crate::direction::Direction;
pub use crate::geometry::{pos_to_square, square_to_pos, N_SQUARES, SQUARE_W, W_I};
