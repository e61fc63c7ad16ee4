//! The entities of a level: plain data, with the limits that keep the
//! simulation's arithmetic inside the machine's integers.
use vstd::prelude::*;
use crate::geometry::Vec2;
use crate::texture::{Texture, BACKGROUND, BLOCK, BLOCK_SOLID, FACE, PADDLE};
use crate::{HEIGHT, WIDTH};

verus! {

/// Largest distance of the ball or a brick from the origin, per axis.
pub const POSITION_LIMIT: i32 = 0x4000_0000;

/// Largest extent of the ball, per axis.
pub const BALL_SIZE_LIMIT: i32 = 0x10_0000;

/// Largest extent of the paddle and largest distance of the paddle from the
/// origin, per axis.
pub const PADDLE_LIMIT: i32 = 0x20_0000;

/// Largest speed, in units per second.
pub const SPEED_LIMIT: i32 = 0x40_0000;

/// The square of the largest speed.
pub const SPEED_LIMIT_SQUARED: u64 = 0x1000_0000_0000;

/// Extent of a new ball, per axis.
pub const BALL_SIZE: i32 = 25_000;

/// Radius recorded in a new ball.
pub const BALL_RADIUS: i32 = 12_500;

/// Horizontal velocity of a new ball, rightward.
pub const BALL_VELOCITY_X: i32 = 100_000;

/// Vertical velocity of a new ball, upward.
pub const BALL_VELOCITY_Y: i32 = -350_000;

/// Width of a new paddle.
pub const PADDLE_WIDTH: i32 = 100_000;

/// Height of a new paddle.
pub const PADDLE_HEIGHT: i32 = 20_000;

/// Speed of a new paddle.
pub const PADDLE_VELOCITY: i32 = 500_000;

/// A colour, each channel in thousandths of full intensity.
#[derive(Clone, Copy, Debug, PartialEq, Eq, Structural)]
pub struct Color {
    pub r: u16,
    pub g: u16,
    pub b: u16,
}

/// What every drawable entity has: the top-left corner, the extent, a tint
/// and an image.
#[derive(Clone, Copy, Debug, PartialEq, Eq, Structural)]
pub struct GameObject {
    pub position: Vec2,
    pub size: Vec2,
    pub color: Color,
    pub texture: Texture,
}

/// The ball: stuck to the paddle until launched, then flying freely.
#[derive(Clone, Copy, Debug, PartialEq, Eq, Structural)]
pub struct Ball {
    pub game_object: GameObject,
    pub velocity: Vec2,
    pub radius: i32,
    pub is_stuck: bool,
}

/// A brick. A solid brick is never destroyed; a destroyed brick neither
/// collides nor is drawn.
#[derive(Clone, Copy, Debug)]
pub struct Brick {
    pub game_object: GameObject,
    pub is_solid: bool,
    pub is_destroyed: bool,
    pub id: u32,
}

/// The full-screen backdrop.
#[derive(Clone, Copy, Debug, PartialEq, Eq, Structural)]
pub struct Bg {
    pub game_object: GameObject,
}

/// The paddle, with its horizontal speed.
#[derive(Clone, Copy, Debug, PartialEq, Eq, Structural)]
pub struct Paddle {
    pub game_object: GameObject,
    pub velocity: i32,
}

/// Full intensity on every channel.
pub open spec fn white() -> Color {
    Color { r: 1000, g: 1000, b: 1000 }
}

impl GameObject {
    /// The extent is non-negative on both axes.
    pub open spec fn wf(self) -> bool {
        self.size.x >= 0 && self.size.y >= 0
    }

    pub fn new(texture: Texture, position: Vec2, size: Vec2, color: Color) -> (r: GameObject)
        ensures
            r == (GameObject { position, size, color, texture }),
    {
        GameObject { position, size, color, texture }
    }

    /// Whether the extent is non-negative on both axes.
    pub fn is_wf(&self) -> (r: bool)
        ensures
            r == self.wf(),
    {
        self.size.x >= 0 && self.size.y >= 0
    }
}

impl Ball {
    /// The ball's position, extent and velocity are within the limits.
    pub open spec fn wf(self) -> bool {
        &&& self.game_object.wf()
        &&& self.game_object.size.x <= BALL_SIZE_LIMIT
        &&& self.game_object.size.y <= BALL_SIZE_LIMIT
        &&& -POSITION_LIMIT <= self.game_object.position.x <= POSITION_LIMIT
        &&& -POSITION_LIMIT <= self.game_object.position.y <= POSITION_LIMIT
        &&& valid_velocity(self.velocity)
    }

    /// A ball at `position`, stuck, with the default extent and velocity.
    pub open spec fn spawn(position: Vec2) -> Ball {
        Ball {
            game_object: GameObject {
                position,
                size: Vec2 { x: BALL_SIZE, y: BALL_SIZE },
                color: white(),
                texture: Texture { id: FACE },
            },
            velocity: Vec2 { x: BALL_VELOCITY_X, y: BALL_VELOCITY_Y },
            radius: BALL_RADIUS,
            is_stuck: true,
        }
    }

    pub fn new(position: Vec2) -> (r: Ball)
        ensures
            r == Ball::spawn(position),
    {
        Ball {
            is_stuck: true,
            radius: BALL_RADIUS,
            velocity: Vec2 { x: BALL_VELOCITY_X, y: BALL_VELOCITY_Y },
            game_object: GameObject::new(
                Texture { id: FACE },
                position,
                Vec2 { x: BALL_SIZE, y: BALL_SIZE },
                Color { r: 1000, g: 1000, b: 1000 },
            ),
        }
    }

    /// Whether the ball's position, extent and velocity are within the limits.
    pub fn is_wf(&self) -> (r: bool)
        ensures
            r == self.wf(),
    {
        let go = &self.game_object;
        go.is_wf() && go.size.x <= BALL_SIZE_LIMIT && go.size.y <= BALL_SIZE_LIMIT
            && within(go.position.x, POSITION_LIMIT) && within(go.position.y, POSITION_LIMIT)
            && is_valid_velocity(&self.velocity)
    }
}

/// Whether the speed of `v` is within the speed limit.
pub fn is_valid_velocity(v: &Vec2) -> (r: bool)
    ensures
        r == valid_velocity(*v),
{
    within(v.x, SPEED_LIMIT) && within(v.y, SPEED_LIMIT) && v.squared_length()
        <= SPEED_LIMIT_SQUARED
}

/// Whether `v` lies in `[-limit, limit]`.
fn within(v: i32, limit: i32) -> (r: bool)
    requires
        limit >= 0,
    ensures
        r == (-limit <= v <= limit),
{
    -limit <= v && v <= limit
}

/// The speed of `v` is within the speed limit, and so is each component.
pub open spec fn valid_velocity(v: Vec2) -> bool {
    &&& -SPEED_LIMIT <= v.x <= SPEED_LIMIT
    &&& -SPEED_LIMIT <= v.y <= SPEED_LIMIT
    &&& v.length_squared() <= SPEED_LIMIT_SQUARED
}

impl Brick {
    /// The extent is non-negative on both axes.
    pub open spec fn wf(self) -> bool {
        self.game_object.wf()
    }

    /// An intact brick with the image that goes with its solidity.
    pub open spec fn make(id: u32, position: Vec2, size: Vec2, color: Color, is_solid: bool) -> Brick {
        Brick {
            game_object: GameObject {
                position,
                size,
                color,
                texture: Texture { id: if is_solid { BLOCK_SOLID } else { BLOCK } },
            },
            is_solid,
            is_destroyed: false,
            id,
        }
    }

    pub fn new(id: u32, position: Vec2, size: Vec2, color: Color, is_solid: bool) -> (r: Brick)
        ensures
            r == Brick::make(id, position, size, color, is_solid),
    {
        let src: u32 = if is_solid { BLOCK_SOLID } else { BLOCK };
        Brick {
            id,
            is_solid,
            is_destroyed: false,
            game_object: GameObject::new(Texture { id: src }, position, size, color),
        }
    }
}

/// Two bricks are the same brick when they have the same ordinal, whatever
/// has happened to either since it was made.
impl PartialEq for Brick {
    fn eq(&self, other: &Self) -> (r: bool) {
        self.id == other.id
    }
}

impl Eq for Brick {

}

impl vstd::std_specs::cmp::PartialEqSpecImpl for Brick {
    open spec fn obeys_eq_spec() -> bool {
        true
    }

    open spec fn eq_spec(&self, other: &Self) -> bool {
        self.id == other.id
    }
}

impl Bg {
    /// The backdrop covers the playfield.
    pub open spec fn full_screen() -> Bg {
        Bg {
            game_object: GameObject {
                position: Vec2 { x: 0, y: 0 },
                size: Vec2 { x: WIDTH, y: HEIGHT },
                color: white(),
                texture: Texture { id: BACKGROUND },
            },
        }
    }

    pub fn new() -> (r: Bg)
        ensures
            r == Bg::full_screen(),
    {
        Bg {
            game_object: GameObject::new(
                Texture { id: BACKGROUND },
                Vec2 { x: 0, y: 0 },
                Vec2 { x: WIDTH, y: HEIGHT },
                Color { r: 1000, g: 1000, b: 1000 },
            ),
        }
    }
}

impl Paddle {
    /// The paddle has a width, and its position, extent and speed are within
    /// the limits.
    pub open spec fn wf(self) -> bool {
        &&& 0 < self.game_object.size.x <= PADDLE_LIMIT
        &&& 0 <= self.game_object.size.y <= PADDLE_LIMIT
        &&& -PADDLE_LIMIT <= self.game_object.position.x <= PADDLE_LIMIT
        &&& -PADDLE_LIMIT <= self.game_object.position.y <= PADDLE_LIMIT
        &&& 0 <= self.velocity <= SPEED_LIMIT
    }

    /// A paddle at `position` with the default extent and speed.
    pub open spec fn spawn(position: Vec2) -> Paddle {
        Paddle {
            game_object: GameObject {
                position,
                size: Vec2 { x: PADDLE_WIDTH, y: PADDLE_HEIGHT },
                color: white(),
                texture: Texture { id: PADDLE },
            },
            velocity: PADDLE_VELOCITY,
        }
    }

    pub fn new(position: Vec2) -> (r: Paddle)
        ensures
            r == Paddle::spawn(position),
    {
        Paddle {
            game_object: GameObject::new(
                Texture { id: PADDLE },
                position,
                Vec2 { x: PADDLE_WIDTH, y: PADDLE_HEIGHT },
                Color { r: 1000, g: 1000, b: 1000 },
            ),
            velocity: PADDLE_VELOCITY,
        }
    }

    /// Whether the paddle has a width and is within the limits.
    pub fn is_wf(&self) -> (r: bool)
        ensures
            r == self.wf(),
    {
        let go = &self.game_object;
        0 < go.size.x && go.size.x <= PADDLE_LIMIT && 0 <= go.size.y && go.size.y <= PADDLE_LIMIT
            && within(go.position.x, PADDLE_LIMIT) && within(go.position.y, PADDLE_LIMIT)
            && 0 <= self.velocity && self.velocity <= SPEED_LIMIT
    }
}

} // verus!
