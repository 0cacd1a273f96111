//! The layers in which the entities of the game are drawn.

use vstd::prelude::*;
use vstd::string::*;
use crate::fruit_effect::{effect_image_path, fruit_effect_image};

verus! {

/// Draw-order layers, listed from the one drawn first to the one drawn last.
#[derive(Clone, Copy, Debug, PartialEq, Eq, Structural)]
pub enum Elevations {
    Background,
    Fruit,
    FruitEffect,
    Snake,
    GameOverScreen,
}

/// The pictures that the entities of the game are drawn with.
#[derive(Clone, Copy, Debug, PartialEq, Eq, Structural)]
pub enum Image {
    /// The sprite sheet of the head.
    SnakeHead,
    /// The sprite sheet of a body unit.
    SnakeBody,
    /// The fruit.
    Fruit,
    /// One of the glows around a fruit, by its number.
    FruitEffect(u8),
    /// The dying head.
    SnakeDeath,
    /// A dying body unit.
    SnakeBodyDeath,
}

impl Image {
    /// The path of the file that holds the picture.
    pub open spec fn file(self) -> Seq<char> {
        match self {
            Image::SnakeHead => "res/snake/snake_ss.png"@,
            Image::SnakeBody => "res/snake/snake_body.png"@,
            Image::Fruit => "res/snake/fruit.png"@,
            Image::FruitEffect(i) => effect_image_path(i),
            Image::SnakeDeath => "res/snake/snake_death.png"@,
            Image::SnakeBodyDeath => "res/snake/snake_body_death.png"@,
        }
    }

    /// The path of the file that holds the picture.
    pub fn path(&self) -> (path: String)
        ensures
            path@ == self.file(),
    {
        match self {
            Image::SnakeHead => String::from_str("res/snake/snake_ss.png"),
            Image::SnakeBody => String::from_str("res/snake/snake_body.png"),
            Image::Fruit => String::from_str("res/snake/fruit.png"),
            Image::FruitEffect(i) => fruit_effect_image(*i),
            Image::SnakeDeath => String::from_str("res/snake/snake_death.png"),
            Image::SnakeBodyDeath => String::from_str("res/snake/snake_body_death.png"),
        }
    }
}

/// A sequence of frames of a sprite sheet: how many there are, how many
/// milliseconds each one is shown, and whether the sequence starts over.
#[derive(Clone, Copy, Debug, PartialEq, Eq, Structural)]
pub struct Animation {
    pub frames: u32,
    pub frame_ms: u32,
    pub repeats: bool,
}

} // verus!
