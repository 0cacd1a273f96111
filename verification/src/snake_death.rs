//! The death of the snake: every body unit is replaced by an entity that
//! plays its dying once.

use vstd::prelude::*;
use crate::elevations::{Animation, Elevations, Image};
use crate::geometry::Rect;
use crate::snake_body::SnakeBodies;

verus! {

/// Number of frames in the sprite sheets of the dying snake.
pub const DEATH_FRAMES: u32 = 8;

/// Milliseconds for which one frame of the dying snake is shown.
pub const DEATH_FRAME_MS: u32 = 100;

/// Everything that the entity for a dying body unit is created with. It
/// belongs to the game-over phase and is removed when that phase is left.
#[derive(Clone, Copy, Debug, PartialEq, Eq, Structural)]
pub struct SnakeDeath {
    pub elevation: Elevations,
    pub image: Image,
    pub animation: Animation,
    pub pos: Rect,
    pub rotation: i64,
}

/// The dying of `unit`: in its place and with its rotation; the first unit
/// that was spawned dies as the head does.
pub open spec fn death_of(unit: SnakeBodies) -> SnakeDeath {
    SnakeDeath {
        elevation: Elevations::Snake,
        image: if unit.body.snake_idx == 0 {
            Image::SnakeDeath
        } else {
            Image::SnakeBodyDeath
        },
        animation: Animation { frames: DEATH_FRAMES, frame_ms: DEATH_FRAME_MS, repeats: false },
        pos: unit.pos,
        rotation: unit.rotation,
    }
}

/// Asks for one dying entity for each body unit, in order, when the
/// playing phase is left.
pub fn snake_death(bodies: &Vec<SnakeBodies>) -> (deaths: Vec<SnakeDeath>)
    ensures
        deaths@ == bodies@.map_values(|unit: SnakeBodies| death_of(unit)),
{
    let mut deaths: Vec<SnakeDeath> = Vec::new();
    let mut i: usize = 0;
    while i < bodies.len()
        invariant
            i <= bodies@.len(),
            deaths@ == bodies@.take(i as int).map_values(|unit: SnakeBodies| death_of(unit)),
        decreases bodies@.len() - i,
    {
        let unit = bodies[i];
        let image = match unit.body.snake_idx {
            0 => Image::SnakeDeath,
            _ => Image::SnakeBodyDeath,
        };
        deaths.push(
            SnakeDeath {
                elevation: Elevations::Snake,
                image,
                animation: Animation { frames: DEATH_FRAMES, frame_ms: DEATH_FRAME_MS, repeats: false },
                pos: unit.pos,
                rotation: unit.rotation,
            },
        );
        proof {
            let ghost head = bodies@.take(i as int);
            assert(bodies@.take(i + 1) == head.push(unit));
            assert(head.push(unit).map_values(|unit: SnakeBodies| death_of(unit)) =~= head.map_values(
                |unit: SnakeBodies| death_of(unit),
            ).push(death_of(unit)));
        }
        i = i + 1;
    }
    proof {
        assert(bodies@.take(bodies@.len() as int) == bodies@);
    }
    deaths
}

} // verus!
