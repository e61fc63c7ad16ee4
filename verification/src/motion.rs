//! Movement: the paddle under the keys, and the ball on its course or on the
//! paddle.
use vstd::prelude::*;
use crate::arith::trunc_div;
use crate::game_object::{valid_velocity, Ball, GameObject, Paddle, BALL_SIZE_LIMIT, POSITION_LIMIT};
use crate::geometry::Vec2;
use crate::input::Keys;
use crate::{HEIGHT, WIDTH};

verus! {

/// Milliseconds in a second.
pub const MILLIS: i64 = 1000;

/// Largest distance of the ball from the origin, per axis, in the middle of a
/// tick: the limit between ticks and as many pushes as a level has bricks.
pub const FLIGHT_LIMIT: i32 = 0x6000_0400;

impl Paddle {
    /// The distance that the paddle covers in `dt` milliseconds.
    pub open spec fn stride(self, dt: u16) -> int {
        trunc_div(self.velocity * dt, MILLIS as int)
    }

    /// Where the paddle's corner is when the paddle touches the right border.
    pub open spec fn rightmost(self) -> int {
        WIDTH - self.game_object.size.x
    }

    /// The paddle with its corner at `x` on the horizontal axis.
    pub open spec fn moved_to(self, x: int) -> Paddle {
        Paddle {
            game_object: GameObject {
                position: Vec2 { x: x as i32, y: self.game_object.position.y },
                ..self.game_object
            },
            ..self
        }
    }

    /// The paddle after `dt` milliseconds under the keys `keys`. While the
    /// key to the left is held and the paddle is right of the left border, it
    /// moves left by its stride, and stops at the border. Then, while the key
    /// to the right is held and the paddle is left of its rightmost place, it
    /// moves right by its stride, and stops there.
    pub open spec fn after_keys(self, keys: Keys, dt: u16) -> Paddle {
        let x = self.game_object.position.x as int;
        let left = if keys.move_left && x > 0 {
            if x - self.stride(dt) < 0 { 0 } else { x - self.stride(dt) }
        } else {
            x
        };
        let right = if keys.move_right && left < self.rightmost() {
            if left + self.stride(dt) > self.rightmost() {
                self.rightmost()
            } else {
                left + self.stride(dt)
            }
        } else {
            left
        };
        self.moved_to(right)
    }

    /// Moves the paddle as the keys say, for `dt` milliseconds.
    pub fn steer(&mut self, keys: &Keys, dt: u16)
        requires
            old(self).wf(),
        ensures
            *final(self) == old(self).after_keys(*keys, dt),
            final(self).wf(),
    {
        proof {
            lemma_step_bound(self.velocity as int, dt as int);
        }
        let step: i64 = (self.velocity as i64) * (dt as i64) / MILLIS;
        let rightmost: i64 = WIDTH as i64 - self.game_object.size.x as i64;
        let mut x: i64 = self.game_object.position.x as i64;
        if keys.move_left {
            if x > 0 {
                x = x - step;
                if x < 0 {
                    x = 0;
                }
            }
        }
        if keys.move_right {
            if x < rightmost {
                x = x + step;
                if x > rightmost {
                    x = rightmost;
                }
            }
        }
        self.game_object.position.x = x as i32;
    }
}

impl Ball {
    /// The ball is within the limits that hold in the middle of a tick.
    pub open spec fn in_flight(self) -> bool {
        &&& self.game_object.wf()
        &&& self.game_object.size.x <= BALL_SIZE_LIMIT
        &&& self.game_object.size.y <= BALL_SIZE_LIMIT
        &&& -FLIGHT_LIMIT <= self.game_object.position.x <= FLIGHT_LIMIT
        &&& -FLIGHT_LIMIT <= self.game_object.position.y <= FLIGHT_LIMIT
        &&& valid_velocity(self.velocity)
    }

    /// The ball after the keys: the launch key sets a stuck ball free.
    pub open spec fn after_keys(self, keys: Keys) -> Ball {
        Ball { is_stuck: self.is_stuck && !keys.launch, ..self }
    }

    /// The ball after `dt` milliseconds. A free ball moves by its velocity
    /// times the time, each component rounded toward zero; a stuck ball sits
    /// centered on top of the paddle.
    pub open spec fn advanced(self, paddle: Paddle, dt: u16) -> Ball {
        if !self.is_stuck {
            self.moved_to(
                self.game_object.position.x + trunc_div(self.velocity.x * dt, MILLIS as int),
                self.game_object.position.y + trunc_div(self.velocity.y * dt, MILLIS as int),
            )
        } else {
            self.moved_to(
                paddle.game_object.position.x + paddle.game_object.size.x / 2
                    - self.game_object.size.x / 2,
                paddle.game_object.position.y - self.game_object.size.y,
            )
        }
    }

    /// The ball has fallen past the bottom of the playfield.
    pub open spec fn is_lost(self) -> bool {
        self.game_object.position.y > HEIGHT
    }

    /// Sets a stuck ball free if the launch key is held.
    pub fn launch(&mut self, keys: &Keys)
        ensures
            *final(self) == old(self).after_keys(*keys),
    {
        if keys.launch {
            self.is_stuck = false;
        }
    }

    /// Moves the ball for `dt` milliseconds: on its course if it is free, to
    /// the top of the paddle if it is stuck.
    pub fn advance(&mut self, paddle: &Paddle, dt: u16)
        requires
            old(self).in_flight(),
            paddle.wf(),
        ensures
            *final(self) == old(self).advanced(*paddle, dt),
    {
        if !self.is_stuck {
            proof {
                lemma_step_bound(self.velocity.x as int, dt as int);
                lemma_step_bound(self.velocity.y as int, dt as int);
            }
            let dx: i64 = (self.velocity.x as i64) * (dt as i64) / MILLIS;
            let dy: i64 = (self.velocity.y as i64) * (dt as i64) / MILLIS;
            self.game_object.position.x = (self.game_object.position.x as i64 + dx) as i32;
            self.game_object.position.y = (self.game_object.position.y as i64 + dy) as i32;
        } else {
            self.game_object.position.x = paddle.game_object.position.x
                + paddle.game_object.size.x / 2 - self.game_object.size.x / 2;
            self.game_object.position.y = paddle.game_object.position.y - self.game_object.size.y;
        }
    }
}

/// Largest distance that anything moves in one tick, per axis.
pub open spec fn step_limit() -> int {
    274_873_712
}

/// In `dt` milliseconds nothing within the speed limit moves farther than
/// the step limit.
pub proof fn lemma_step_bound(v: int, dt: int)
    requires
        -0x40_0000 <= v <= 0x40_0000,
        0 <= dt <= 0xffff,
    ensures
        -0x40_0000 * 0xffff <= v * dt <= 0x40_0000 * 0xffff,
        -step_limit() <= trunc_div(v * dt, 1000) <= step_limit(),
        v >= 0 ==> trunc_div(v * dt, 1000) >= 0,
{
    assert(-0x40_0000 * 0xffff <= v * dt <= 0x40_0000 * 0xffff) by (nonlinear_arith)
        requires
            -0x40_0000 <= v <= 0x40_0000,
            0 <= dt <= 0xffff,
    ;
    assert(v >= 0 ==> v * dt >= 0) by (nonlinear_arith)
        requires
            0 <= dt,
    ;
}

} // verus!
