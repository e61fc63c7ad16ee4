//! Plain two-dimensional values shared by the whole simulation.
use vstd::prelude::*;

verus! {

/// A point, an extent or a velocity, in world units.
#[derive(Clone, Copy, Debug, PartialEq, Eq, Structural)]
pub struct Vec2 {
    pub x: i32,
    pub y: i32,
}

impl Vec2 {
    /// The square of the vector's length.
    pub open spec fn length_squared(self) -> int {
        self.x * self.x + self.y * self.y
    }

    /// Computes the square of the vector's length.
    pub fn squared_length(&self) -> (r: u64)
        ensures
            r == self.length_squared(),
    {
        let x: i64 = self.x as i64;
        let y: i64 = self.y as i64;
        assert(0 <= x * x <= 0x8000_0000 * 0x8000_0000) by (nonlinear_arith)
            requires
                -0x8000_0000 <= x <= 0x8000_0000,
        ;
        assert(0 <= y * y <= 0x8000_0000 * 0x8000_0000) by (nonlinear_arith)
            requires
                -0x8000_0000 <= y <= 0x8000_0000,
        ;
        (x * x) as u64 + (y * y) as u64
    }
}

/// Side of a rectangle, in screen space: `y` grows downward.
#[allow(non_camel_case_types)]
#[derive(Clone, Copy, Debug, PartialEq, Eq, Structural)]
pub enum Direction {
    UP,
    RIGHT,
    DOWN,
    LEFT,
}

/// Outcome of testing a circle against a rectangle: whether they collide, the
/// side of the rectangle that the circle lies on, and the penetration depth.
#[derive(Clone, Copy, Debug, PartialEq, Eq, Structural)]
pub struct Collision(pub bool, pub Direction, pub i64);

} // verus!
