//! Simulation core of a brick-breaking arcade game.
//!
//! Every length is a whole number of world units, `UNIT` of them to a pixel;
//! velocities are units per second and time steps are milliseconds. One call
//! of `Game::update` advances ball, paddle and bricks by one tick.
use vstd::prelude::*;

pub mod arith;
pub mod geometry;
pub mod texture;
pub mod game_object;
pub mod input;
pub mod game;
pub mod collision;
pub mod physics;
pub mod motion;
pub mod level;

pub use game::Game;
pub use game_object::{Ball, Bg, Brick, Color, GameObject, Paddle};
pub use geometry::{Collision, Direction, Vec2};
pub use input::{Action, Key, KeyEvent, Keys};
pub use physics::Bounce;
pub use texture::Texture;

verus! {

/// World units per pixel.
pub const UNIT: i32 = 1000;

/// Width of the playfield, in world units.
pub const WIDTH: i32 = 800_000;

/// Height of the playfield, in world units.
pub const HEIGHT: i32 = 600_000;

} // verus!
