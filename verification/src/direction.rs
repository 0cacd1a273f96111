//! The four headings of the snake.

use vstd::prelude::*;
use crate::geometry::Point;

verus! {

/// A heading on the grid. The y axis of the world points down.
#[derive(Clone, Copy, Debug, PartialEq, Eq, Structural)]
pub enum Direction {
    Up,
    Down,
    Left,
    Right,
}

impl Direction {
    /// The step of length one along this heading.
    pub open spec fn unit(self) -> (int, int) {
        match self {
            Direction::Up => (0, -1),
            Direction::Down => (0, 1),
            Direction::Left => (-1, 0),
            Direction::Right => (1, 0),
        }
    }

    /// The angle, in degrees, that turns a sprite drawn facing left towards this heading.
    pub open spec fn angle(self) -> int {
        match self {
            Direction::Up => 90,
            Direction::Down => 270,
            Direction::Left => 0,
            Direction::Right => 180,
        }
    }

    /// The heading that a key selects: `w`, `a`, `s`, `d` for up, left, down, right.
    pub open spec fn of_key(key: char) -> Option<Direction> {
        if key == 'a' {
            Some(Direction::Left)
        } else if key == 'd' {
            Some(Direction::Right)
        } else if key == 'w' {
            Some(Direction::Up)
        } else if key == 's' {
            Some(Direction::Down)
        } else {
            None
        }
    }

    /// The velocity of something that moves along this heading at `speed`.
    pub fn velocity(&self, speed: i32) -> (v: Point)
        ensures
            v.x == self.unit().0 * speed,
            v.y == self.unit().1 * speed,
    {
        let s: i64 = speed as i64;
        match self {
            Direction::Up => Point { x: 0, y: -s },
            Direction::Down => Point { x: 0, y: s },
            Direction::Left => Point { x: -s, y: 0 },
            Direction::Right => Point { x: s, y: 0 },
        }
    }

    /// The rotation of a sprite whose drawing is already turned by `base_angle`.
    pub fn rotation(&self, base_angle: i32) -> (angle: i64)
        ensures
            angle == self.angle() - base_angle,
    {
        let turn: i64 = match self {
            Direction::Up => 90,
            Direction::Down => 270,
            Direction::Left => 0,
            Direction::Right => 180,
        };
        turn - base_angle as i64
    }

    /// The heading for a key, or `None` for a key that steers nothing.
    pub fn from_key(key: char) -> (d: Option<Direction>)
        ensures
            d == Direction::of_key(key),
    {
        if key == 'a' {
            Some(Direction::Left)
        } else if key == 'd' {
            Some(Direction::Right)
        } else if key == 'w' {
            Some(Direction::Up)
        } else if key == 's' {
            Some(Direction::Down)
        } else {
            None
        }
    }
}

} // verus!
