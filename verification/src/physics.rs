//! The ball against the borders, the paddle and the bricks.
use vstd::prelude::*;
use crate::arith::{integer_sqrt, isqrt, lemma_isqrt_exists, lemma_isqrt_unique, trunc_div};
use crate::collision::{circle_rect_collision, overlap};
use crate::game::{Game, BRICK_LIMIT};
use crate::game_object::{
    is_valid_velocity, valid_velocity, Ball, Brick, GameObject, Paddle, SPEED_LIMIT,
};
use crate::geometry::{Collision, Direction, Vec2};
use crate::WIDTH;

verus! {

/// Thousandths of a degree from straight up at which the ball leaves when it
/// meets the paddle a full half width from the paddle's center.
pub const FULL_DEFLECTION: i64 = 20_000;

/// Largest angle between the ball's course and straight up after it met the
/// paddle, in thousandths of a degree.
pub const STEEPEST: i32 = 45_000;

/// Thousandths of a degree in a radian, rounded up.
pub const RADIAN: i64 = 57_296;

/// Largest distance by which one brick pushes the ball: half the largest
/// extent of a ball, and one unit for rounding.
pub const PUSH_LIMIT: i32 = 0x8_0001;

/// What the paddle asks of the ball that met it: the ball's velocity as
/// reflected, whose speed the ball keeps, and the deflection, in thousandths
/// of a degree, which gives the course that the ball takes.
#[derive(Clone, Copy, Debug, PartialEq, Eq, Structural)]
pub struct Bounce {
    pub velocity: Vec2,
    pub deflection: i64,
}

impl Ball {
    /// The ball with its corner at `(x, y)`.
    pub open spec fn moved_to(self, x: int, y: int) -> Ball {
        Ball {
            game_object: GameObject {
                position: Vec2 { x: x as i32, y: y as i32 },
                ..self.game_object
            },
            ..self
        }
    }

    /// The ball with the velocity `(x, y)`.
    pub open spec fn with_velocity(self, x: int, y: int) -> Ball {
        Ball { velocity: Vec2 { x: x as i32, y: y as i32 }, ..self }
    }

    /// The ball with its horizontal velocity reversed and its corner moved
    /// to `x` on the horizontal axis.
    pub open spec fn bounced_x(self, x: int) -> Ball {
        self.moved_to(x, self.game_object.position.y as int).with_velocity(
            -self.velocity.x,
            self.velocity.y as int,
        )
    }

    /// The ball with its vertical velocity reversed and its corner moved to
    /// `y` on the vertical axis.
    pub open spec fn bounced_y(self, y: int) -> Ball {
        self.moved_to(self.game_object.position.x as int, y).with_velocity(
            self.velocity.x as int,
            -self.velocity.y,
        )
    }

    /// Where the ball's corner is when the ball touches the right border.
    pub open spec fn rightmost(self) -> int {
        WIDTH - self.game_object.size.x
    }

    /// The ball after the borders: at or past the right border it is put on
    /// that border and turned back, else at or past the left border likewise;
    /// then the same at the top border. There is no bottom border.
    pub open spec fn after_borders(self) -> Ball {
        let sideways = if self.game_object.position.x >= self.rightmost() {
            self.bounced_x(self.rightmost())
        } else if self.game_object.position.x <= 0 {
            self.bounced_x(0)
        } else {
            self
        };
        if sideways.game_object.position.y <= 0 {
            sideways.bounced_y(0)
        } else {
            sideways
        }
    }

    /// The ball touches the paddle.
    pub open spec fn meets(self, paddle: Paddle) -> bool {
        overlap(paddle.game_object, self.game_object)
    }

    /// The ball as the paddle reflects it: turned back vertically and put
    /// directly above the paddle.
    pub open spec fn reflected_off(self, paddle: Paddle) -> Ball {
        self.bounced_y(paddle.game_object.position.y - self.game_object.size.y)
    }

    /// The angle from straight up at which the paddle sends the ball, before
    /// it is limited, in thousandths of a degree, rightward counted
    /// positive: the full deflection times the distance of the ball's
    /// center from the paddle's center, as a fraction of the paddle's half
    /// width, rounded toward zero.
    pub open spec fn deflection_off(self, paddle: Paddle) -> int {
        trunc_div(
            FULL_DEFLECTION * (2 * self.game_object.position.x + self.game_object.size.x - 2
                * paddle.game_object.position.x - paddle.game_object.size.x),
            paddle.game_object.size.x as int,
        )
    }

    /// What the paddle asks of the ball that met it.
    pub open spec fn bounce_off(self, paddle: Paddle) -> Bounce {
        Bounce {
            velocity: self.reflected_off(paddle).velocity,
            deflection: self.deflection_off(paddle) as i64,
        }
    }

    /// What the paddle asks of the ball, if the two touch.
    pub open spec fn bounce_wanted(self, paddle: Paddle) -> Option<Bounce> {
        if self.meets(paddle) {
            Some(self.bounce_off(paddle))
        } else {
            None
        }
    }

    /// The ball after the paddle: if the two touch, reflected, and leaving
    /// with the velocity that the bounce gives for `rebound`; else as it was.
    pub open spec fn after_paddle(self, paddle: Paddle, rebound: Option<Vec2>) -> Ball {
        if self.meets(paddle) {
            Ball {
                velocity: self.bounce_off(paddle).leaving(rebound),
                ..self.reflected_off(paddle)
            }
        } else {
            self
        }
    }

    /// The ball as a brick throws it back: the velocity reversed on the axis
    /// of `side`, and the ball pushed out of the brick by `depth` toward
    /// that side.
    pub open spec fn thrown_back(self, side: Direction, depth: int) -> Ball {
        let x = self.game_object.position.x;
        let y = self.game_object.position.y;
        match side {
            Direction::LEFT => self.bounced_x(x - depth),
            Direction::RIGHT => self.bounced_x(x + depth),
            Direction::DOWN => self.bounced_y(y + depth),
            Direction::UP => self.bounced_y(y - depth),
        }
    }

    /// The ball collides with the brick: the brick is not destroyed and the
    /// circle test finds a collision.
    pub open spec fn strikes(self, brick: Brick) -> bool {
        !brick.is_destroyed && circle_rect_collision(self.game_object, brick.game_object).0
    }

    /// The ball after the brick: thrown back if it strikes the brick, else
    /// as it was.
    pub open spec fn after_brick(self, brick: Brick) -> Ball {
        if self.strikes(brick) {
            let hit = circle_rect_collision(self.game_object, brick.game_object);
            self.thrown_back(hit.1, hit.2 as int)
        } else {
            self
        }
    }

    /// The ball after the first `n` of `bricks`, met in order.
    pub open spec fn after_bricks(self, bricks: Seq<Brick>, n: nat) -> Ball
        decreases n,
    {
        if n == 0 {
            self
        } else {
            self.after_bricks(bricks, (n - 1) as nat).after_brick(bricks[n - 1])
        }
    }

    /// The square of the ball's speed.
    pub open spec fn speed_squared(self) -> int {
        self.velocity.length_squared()
    }
}

impl Brick {
    /// The brick after the ball: destroyed if the ball strikes it and it is
    /// not solid, else as it was.
    pub open spec fn after_ball(self, ball: Ball) -> Brick {
        if ball.strikes(self) && !self.is_solid {
            Brick { is_destroyed: true, ..self }
        } else {
            self
        }
    }
}

/// The bricks after the ball has met each of them in order: every brick as
/// the ball left it, the ball being what the bricks before made of it.
pub open spec fn bricks_after(ball: Ball, bricks: Seq<Brick>) -> Seq<Brick> {
    Seq::new(bricks.len(), |i: int| bricks[i].after_ball(ball.after_bricks(bricks, i as nat)))
}

/// The course of the ball after the paddle, in thousandths of a degree from
/// straight up, rightward counted positive: the deflection, and no steeper
/// than `STEEPEST` to either side. Where the ball came from plays no part.
pub open spec fn bounce_angle(deflection: int) -> int {
    if deflection > STEEPEST {
        STEEPEST as int
    } else if deflection < -STEEPEST {
        -STEEPEST
    } else {
        deflection
    }
}

/// A vector that goes `run` sideways for every `rise` upward has the slope of
/// the course `angle`, an angle from zero to `STEEPEST` in thousandths of a
/// degree, as far as whole numbers tell. The slope of a course, its tangent,
/// is no less than the angle in radians and, up to 45 degrees, no more than
/// the angle as a fraction of 45 degrees; `run` over `rise` is within that
/// band, with one unit of rounding allowed on each of the two.
pub open spec fn leans(run: int, rise: int, angle: int) -> bool {
    &&& (run + 1) * RADIAN >= angle * (rise - 1)
    &&& (run - 1) * STEEPEST <= angle * (rise + 1)
}

impl Bounce {
    /// The course that the ball takes, in thousandths of a degree from
    /// straight up.
    pub open spec fn course(self) -> int {
        bounce_angle(self.deflection as int)
    }

    /// The speed that the ball keeps, in whole units per second.
    pub open spec fn speed(self) -> int {
        isqrt(self.velocity.length_squared())
    }

    /// Straight up at the speed that the ball keeps.
    pub open spec fn straight_up(self) -> Vec2 {
        Vec2 { x: 0, y: (-self.speed()) as i32 }
    }

    /// `v` points up from the paddle at the speed that the ball keeps. It is
    /// within the speed limit. It is no farther from straight up than 45
    /// degrees to either side. Its speed is within one unit of the speed
    /// that the ball keeps. It does not lean away from the course, and not
    /// at all where the course is straight up.
    pub open spec fn allows(self, v: Vec2) -> bool {
        &&& valid_velocity(v)
        &&& v.y <= v.x <= -v.y
        &&& self.speed() > 0 ==> v.y < 0
        &&& self.speed() - 1 <= isqrt(v.length_squared()) <= self.speed() + 1
        &&& self.course() > 0 ==> v.x >= 0
        &&& self.course() < 0 ==> v.x <= 0
        &&& self.course() == 0 ==> v.x == 0
    }

    /// `v` leans as the course does: to the side of the course, by a slope
    /// within the band of the course; straight up where the course is.
    pub open spec fn on_course(self, v: Vec2) -> bool {
        if self.course() > 0 {
            leans(v.x as int, -v.y, self.course())
        } else if self.course() < 0 {
            leans(-v.x, -v.y, -self.course())
        } else {
            v.x == 0
        }
    }

    /// `v` is a velocity that the ball may leave the paddle with: it points
    /// up at the speed that the ball keeps, and it is on the course.
    pub open spec fn takes(self, v: Vec2) -> bool {
        self.allows(v) && self.on_course(v)
    }

    /// The velocity that the ball leaves the paddle with, given the velocity
    /// `rebound` that the caller turned to the course. Where the course is
    /// not straight up and `rebound` is one that the ball may leave with, it
    /// is `rebound`; in every other case it is straight up at the speed that
    /// the ball keeps.
    pub open spec fn leaving(self, rebound: Option<Vec2>) -> Vec2 {
        match rebound {
            Some(v) => if self.course() != 0 && self.takes(v) {
                v
            } else {
                self.straight_up()
            },
            None => self.straight_up(),
        }
    }
}

/// Straight up at the speed that the ball keeps points up from the paddle at
/// that speed, whatever the course; its speed is exactly the speed kept.
pub proof fn lemma_straight_up_is_allowed(bounce: Bounce)
    requires
        valid_velocity(bounce.velocity),
    ensures
        bounce.allows(bounce.straight_up()),
        isqrt(bounce.straight_up().length_squared()) == bounce.speed(),
        0 <= bounce.speed() <= SPEED_LIMIT,
        bounce.speed() > 0 <==> bounce.velocity.length_squared() > 0,
{
    let q = bounce.velocity.length_squared();
    let vx = bounce.velocity.x as int;
    let vy = bounce.velocity.y as int;
    assert(q >= 0) by (nonlinear_arith)
        requires
            q == vx * vx + vy * vy,
    ;
    lemma_isqrt_exists(q);
    let s = bounce.speed();
    assert(s <= 0x40_0000) by (nonlinear_arith)
        requires
            s >= 0,
            s * s <= q,
            q <= 0x1000_0000_0000,
    ;
    assert(s * s < (s + 1) * (s + 1)) by (nonlinear_arith)
        requires
            s >= 0,
    ;
    lemma_isqrt_unique(s * s, s);
    let up = bounce.straight_up();
    assert(up.x == 0 && up.y == -s);
    assert(up.length_squared() == s * s) by (nonlinear_arith)
        requires
            up.x == 0,
            up.y == -s,
            up.length_squared() == up.x * up.x + up.y * up.y,
    ;
    if s == 0 {
        assert(q < 1) by (nonlinear_arith)
            requires
                q < (s + 1) * (s + 1),
                s == 0,
        ;
    } else {
        assert(q > 0) by (nonlinear_arith)
            requires
                s * s <= q,
                s >= 1,
        ;
    }
}

/// Whatever the caller hands in as `rebound`, the ball leaves the paddle
/// with a velocity that points up within 45 degrees of straight up, at the
/// speed it came with, to within one unit, and not leaning away from the
/// course. It leaves either on the course, or straight up.
pub proof fn lemma_leaving_is_allowed(bounce: Bounce, rebound: Option<Vec2>)
    requires
        valid_velocity(bounce.velocity),
    ensures
        bounce.allows(bounce.leaving(rebound)),
        bounce.on_course(bounce.leaving(rebound)) || bounce.leaving(rebound)
            == bounce.straight_up(),
        bounce.course() == 0 ==> bounce.leaving(rebound) == bounce.straight_up(),
{
    lemma_straight_up_is_allowed(bounce);
}

/// Reversing velocity components leaves the speed as it is.
pub proof fn lemma_speed_kept(before: Ball, after: Ball)
    requires
        after.velocity.x == before.velocity.x || after.velocity.x == -before.velocity.x,
        after.velocity.y == before.velocity.y || after.velocity.y == -before.velocity.y,
    ensures
        after.speed_squared() == before.speed_squared(),
{
    let ax = after.velocity.x as int;
    let bx = before.velocity.x as int;
    let ay = after.velocity.y as int;
    let by = before.velocity.y as int;
    assert(ax * ax == bx * bx) by (nonlinear_arith)
        requires
            ax == bx || ax == -bx,
    ;
    assert(ay * ay == by * by) by (nonlinear_arith)
        requires
            ay == by || ay == -by,
    ;
}

/// Where the center of the ball is over the paddle, the paddle sends the
/// ball no farther from straight up than the full deflection, to either side.
pub proof fn lemma_deflection_bounded(ball: Ball, paddle: Paddle)
    requires
        paddle.game_object.size.x > 0,
        2 * paddle.game_object.position.x <= 2 * ball.game_object.position.x
            + ball.game_object.size.x <= 2 * paddle.game_object.position.x + 2
            * paddle.game_object.size.x,
    ensures
        -FULL_DEFLECTION <= ball.deflection_off(paddle) <= FULL_DEFLECTION,
{
    let width = paddle.game_object.size.x as int;
    let offset = 2 * ball.game_object.position.x + ball.game_object.size.x - 2
        * paddle.game_object.position.x - width;
    let turn = FULL_DEFLECTION * offset;
    assert(-(FULL_DEFLECTION * width) <= turn <= FULL_DEFLECTION * width) by (nonlinear_arith)
        requires
            turn == FULL_DEFLECTION * offset,
            -width <= offset <= width,
    ;
    if turn >= 0 {
        assert(turn / width <= FULL_DEFLECTION) by (nonlinear_arith)
            requires
                0 <= turn <= FULL_DEFLECTION * width,
                width > 0,
        ;
        assert(turn / width >= 0) by (nonlinear_arith)
            requires
                0 <= turn,
                width > 0,
        ;
    } else {
        assert((-turn) / width <= FULL_DEFLECTION) by (nonlinear_arith)
            requires
                0 <= -turn <= FULL_DEFLECTION * width,
                width > 0,
        ;
        assert((-turn) / width >= 0) by (nonlinear_arith)
            requires
                0 <= -turn,
                width > 0,
        ;
    }
}

/// A ball whose center is over the paddle's center is sent straight up; one
/// whose center is over the paddle's right edge is sent the full deflection
/// to the right of straight up, and over the left edge the same to the left.
pub proof fn lemma_deflection_at_center_and_edges(ball: Ball, paddle: Paddle)
    requires
        paddle.game_object.size.x > 0,
    ensures
        ({
            let twice_center = 2 * ball.game_object.position.x + ball.game_object.size.x;
            let twice_left = 2 * paddle.game_object.position.x;
            let width = paddle.game_object.size.x as int;
            &&& twice_center == twice_left + width ==> ball.deflection_off(paddle) == 0
            &&& twice_center == twice_left + 2 * width ==> ball.deflection_off(paddle)
                == FULL_DEFLECTION
            &&& twice_center == twice_left ==> ball.deflection_off(paddle) == -FULL_DEFLECTION
        }),
        bounce_angle(0) == 0,
        bounce_angle(FULL_DEFLECTION as int) == FULL_DEFLECTION,
        bounce_angle(-FULL_DEFLECTION) == -FULL_DEFLECTION,
{
    let width = paddle.game_object.size.x as int;
    assert((FULL_DEFLECTION * width) / width == FULL_DEFLECTION) by (nonlinear_arith)
        requires
            width > 0,
    ;
    assert(FULL_DEFLECTION * width >= 0) by (nonlinear_arith)
        requires
            width > 0,
    ;
    assert(FULL_DEFLECTION * (-width) == -(FULL_DEFLECTION * width)) by (nonlinear_arith);
    assert(0int / width == 0) by (nonlinear_arith)
        requires
            width > 0,
    ;
}

/// Whatever the caller hands in as `rebound`, a ball that meets the paddle
/// leaves it upward and no farther from straight up than 45 degrees, at the
/// speed it came with, to within one unit. It leaves on the course that the
/// paddle asks for, or else straight up; where that course is straight up,
/// it leaves straight up at the speed it came with.
pub proof fn lemma_paddle_bounce(ball: Ball, paddle: Paddle, rebound: Option<Vec2>)
    requires
        ball.wf(),
        paddle.wf(),
        ball.meets(paddle),
    ensures
        ({
            let bounce = ball.bounce_off(paddle);
            let v = ball.after_paddle(paddle, rebound).velocity;
            let speed = isqrt(ball.speed_squared());
            &&& bounce.allows(v)
            &&& bounce.on_course(v) || v == bounce.straight_up()
            &&& v.y <= v.x <= -v.y
            &&& ball.speed_squared() > 0 ==> v.y < 0
            &&& speed - 1 <= isqrt(v.length_squared()) <= speed + 1
            &&& bounce.course() > 0 ==> v.x >= 0
            &&& bounce.course() < 0 ==> v.x <= 0
            &&& bounce.course() == 0 ==> v == (Vec2 { x: 0, y: (-speed) as i32 })
        }),
{
    let bounce = ball.bounce_off(paddle);
    lemma_speed_kept(ball, ball.reflected_off(paddle));
    lemma_straight_up_is_allowed(bounce);
    lemma_leaving_is_allowed(bounce, rebound);
}

/// However many bricks the ball meets, its speed stays as it was.
pub proof fn lemma_bricks_keep_speed(ball: Ball, bricks: Seq<Brick>, n: nat)
    requires
        valid_velocity(ball.velocity),
        n <= bricks.len(),
    ensures
        ball.after_bricks(bricks, n).speed_squared() == ball.speed_squared(),
        valid_velocity(ball.after_bricks(bricks, n).velocity),
    decreases n,
{
    if n > 0 {
        lemma_bricks_keep_speed(ball, bricks, (n - 1) as nat);
        let before = ball.after_bricks(bricks, (n - 1) as nat);
        lemma_speed_kept(before, before.after_brick(bricks[n - 1]));
    }
}

/// The ball leaves a solid brick as it is, and no brick that is destroyed
/// comes back.
pub proof fn lemma_solid_bricks_stay(ball: Ball, bricks: Seq<Brick>, i: int)
    requires
        0 <= i < bricks.len(),
    ensures
        bricks[i].is_solid ==> bricks_after(ball, bricks)[i] == bricks[i],
        bricks[i].is_destroyed ==> bricks_after(ball, bricks)[i] == bricks[i],
        bricks_after(ball, bricks)[i].is_solid == bricks[i].is_solid,
{
}

/// Whether a vector that goes `run` sideways for every `rise` upward has the
/// slope of the course `angle`.
fn has_slope(run: i64, rise: i64, angle: i64) -> (r: bool)
    requires
        -0x40_0000 <= run <= 0x40_0000,
        -0x40_0000 <= rise <= 0x40_0000,
        0 <= angle <= STEEPEST,
    ensures
        r == leans(run as int, rise as int, angle as int),
{
    assert(-45_000 * 0x40_0001 <= angle * (rise - 1) <= 45_000 * 0x40_0001) by (nonlinear_arith)
        requires
            0 <= angle <= 45_000,
            -0x40_0001 <= rise - 1 <= 0x40_0001,
    ;
    assert(-45_000 * 0x40_0001 <= angle * (rise + 1) <= 45_000 * 0x40_0001) by (nonlinear_arith)
        requires
            0 <= angle <= 45_000,
            -0x40_0001 <= rise + 1 <= 0x40_0001,
    ;
    let steepest: i64 = STEEPEST as i64;
    assert((run - 1) * steepest == (run - 1) * 45_000);
    (run + 1) * RADIAN >= angle * (rise - 1) && (run - 1) * steepest <= angle * (rise + 1)
}

impl Bounce {
    /// The course that the ball takes, in thousandths of a degree from
    /// straight up, rightward counted positive.
    pub fn angle(&self) -> (r: i32)
        ensures
            r == self.course(),
            -STEEPEST <= r <= STEEPEST,
    {
        if self.deflection > STEEPEST as i64 {
            STEEPEST
        } else if self.deflection < -(STEEPEST as i64) {
            -STEEPEST
        } else {
            self.deflection as i32
        }
    }

    /// The speed that the ball keeps, in whole units per second.
    pub fn incoming_speed(&self) -> (r: u64)
        ensures
            r == self.speed(),
    {
        integer_sqrt(self.velocity.squared_length() as u128)
    }

    /// Whether `v` is a velocity that the ball may leave the paddle with.
    pub fn accepts(&self, v: &Vec2) -> (r: bool)
        ensures
            r == self.takes(*v),
    {
        if !is_valid_velocity(v) {
            return false;
        }
        let kept: u128 = self.incoming_speed() as u128;
        let speed: u128 = integer_sqrt(v.squared_length() as u128) as u128;
        let course: i32 = self.angle();
        let x: i64 = v.x as i64;
        let y: i64 = v.y as i64;
        let upward = y <= x && x <= -y && (kept == 0 || y < 0) && kept <= speed + 1 && speed
            <= kept + 1;
        if course > 0 {
            upward && x >= 0 && has_slope(x, -y, course as i64)
        } else if course < 0 {
            upward && x <= 0 && has_slope(-x, -y, -(course as i64))
        } else {
            upward && x == 0
        }
    }

    /// The velocity that the ball leaves the paddle with, given the velocity
    /// `rebound` that the caller turned to the course.
    pub fn resolve(&self, rebound: Option<Vec2>) -> (r: Vec2)
        requires
            valid_velocity(self.velocity),
        ensures
            r == self.leaving(rebound),
            self.allows(r),
            self.on_course(r) || r == self.straight_up(),
    {
        proof {
            lemma_leaving_is_allowed(*self, rebound);
            lemma_straight_up_is_allowed(*self);
        }
        let up = Vec2 { x: 0, y: -(self.incoming_speed() as i32) };
        match rebound {
            Some(v) => {
                if self.angle() != 0 && self.accepts(&v) {
                    v
                } else {
                    up
                }
            },
            None => up,
        }
    }
}

impl Ball {
    /// Turns the ball back at the left, right and top borders.
    pub fn turn_at_borders(&mut self)
        requires
            old(self).wf(),
        ensures
            *final(self) == old(self).after_borders(),
            final(self).wf(),
            final(self).speed_squared() == old(self).speed_squared(),
    {
        let ghost before = *self;
        if self.game_object.position.x >= WIDTH - self.game_object.size.x {
            self.velocity.x = -self.velocity.x;
            self.game_object.position.x = WIDTH - self.game_object.size.x;
        } else if self.game_object.position.x <= 0 {
            self.velocity.x = -self.velocity.x;
            self.game_object.position.x = 0;
        }
        if self.game_object.position.y <= 0 {
            self.velocity.y = -self.velocity.y;
            self.game_object.position.y = 0;
        }
        proof {
            lemma_speed_kept(before, *self);
        }
    }

    /// Reflects the ball off the paddle if the two touch: the ball is turned
    /// back vertically, put directly above the paddle, and leaves with the
    /// velocity that the bounce gives for `rebound`. Returns what the paddle
    /// asks of the ball.
    pub fn bounce_off_paddle(&mut self, paddle: &Paddle, rebound: Option<Vec2>) -> (r: Option<
        Bounce,
    >)
        requires
            old(self).wf(),
            paddle.wf(),
        ensures
            *final(self) == old(self).after_paddle(*paddle, rebound),
            r == old(self).bounce_wanted(*paddle),
            final(self).wf(),
            r matches Some(bounce) ==> bounce.allows(final(self).velocity)
                && bounce.velocity.length_squared() == old(self).speed_squared(),
            r matches Some(bounce) ==> bounce.on_course(final(self).velocity)
                || final(self).velocity == bounce.straight_up(),
    {
        if Game::check_collision(&paddle.game_object, &self.game_object) {
            let ghost before = *self;
            self.velocity.y = -self.velocity.y;
            self.game_object.position.y = paddle.game_object.position.y - self.game_object.size.y;
            let offset: i64 = 2 * (self.game_object.position.x as i64) + (
            self.game_object.size.x as i64) - 2 * (paddle.game_object.position.x as i64) - (
            paddle.game_object.size.x as i64);
            let deflection: i64 = FULL_DEFLECTION * offset / (paddle.game_object.size.x as i64);
            let bounce = Bounce { velocity: self.velocity, deflection };
            proof {
                lemma_speed_kept(before, *self);
            }
            self.velocity = bounce.resolve(rebound);
            Some(bounce)
        } else {
            None
        }
    }
}

impl Game {
    /// Turns the ball back at the left, right and top borders: a ball at or
    /// past a border is put exactly on it, and its velocity across that
    /// border is reversed.
    pub fn check_ball_border_collision(&mut self)
        requires
            old(self).ball.wf(),
        ensures
            *final(self) == (Game { ball: old(self).ball.after_borders(), ..*old(self) }),
            final(self).ball.wf(),
            final(self).ball.game_object.position.y >= 0,
            final(self).ball.game_object.position.x <= old(self).ball.rightmost()
                || final(self).ball.game_object.position.x == 0,
            old(self).ball.rightmost() >= 0 ==> 0 <= final(self).ball.game_object.position.x,
            final(self).ball.game_object.position.x != old(self).ball.game_object.position.x
                ==> final(self).ball.velocity.x == -old(self).ball.velocity.x,
            final(self).ball.game_object.position.x == old(self).ball.game_object.position.x
                || final(self).ball.game_object.position.x == old(self).ball.rightmost()
                || final(self).ball.game_object.position.x == 0,
            final(self).ball.game_object.position.y != old(self).ball.game_object.position.y
                ==> final(self).ball.velocity.y == -old(self).ball.velocity.y,
            final(self).ball.speed_squared() == old(self).ball.speed_squared(),
    {
        let mut ball = self.ball;
        ball.turn_at_borders();
        self.ball = ball;
    }

    /// Reflects the ball off the paddle if the two touch. The ball is turned
    /// back vertically and put directly above the paddle. It leaves on the
    /// course that the paddle asks for: with `rebound`, the velocity that the
    /// caller turned to that course, where the ball may leave with it, and
    /// straight up at the speed it came with in every other case. Returns
    /// what the paddle asks of the ball, if they touch.
    pub fn check_ball_player_collision(&mut self, rebound: Option<Vec2>) -> (r: Option<Bounce>)
        requires
            old(self).ball.wf(),
            old(self).player.wf(),
        ensures
            *final(self) == (Game {
                ball: old(self).ball.after_paddle(old(self).player, rebound),
                ..*old(self)
            }),
            r == old(self).ball.bounce_wanted(old(self).player),
            r is Some <==> old(self).ball.meets(old(self).player),
            final(self).ball.wf(),
            r matches Some(bounce) ==> bounce.allows(final(self).ball.velocity),
            r matches Some(bounce) ==> bounce.on_course(final(self).ball.velocity)
                || final(self).ball.velocity == bounce.straight_up(),
            r is Some ==> final(self).ball.velocity.y <= final(self).ball.velocity.x
                <= -final(self).ball.velocity.y,
            r is Some && old(self).ball.speed_squared() > 0 ==> final(self).ball.velocity.y < 0,
            r is Some ==> isqrt(old(self).ball.speed_squared()) - 1 <= isqrt(
                final(self).ball.speed_squared(),
            ) <= isqrt(old(self).ball.speed_squared()) + 1,
            r matches Some(bounce) ==> (bounce.course() == 0 ==> final(self).ball.velocity == (
            Vec2 { x: 0, y: (-isqrt(old(self).ball.speed_squared())) as i32 })),
    {
        let mut ball = self.ball;
        let bounce = ball.bounce_off_paddle(&self.player, rebound);
        proof {
            if let Some(b) = bounce {
                lemma_straight_up_is_allowed(b);
                lemma_leaving_is_allowed(b, rebound);
            }
        }
        self.ball = ball;
        bounce
    }

    /// Lets the ball meet every brick in order: a brick that it strikes
    /// throws it back, and is destroyed unless it is solid.
    pub fn check_ball_brick_collision(&mut self)
        requires
            old(self).ball.wf(),
            old(self).bricks@.len() <= BRICK_LIMIT,
        ensures
            final(self).ball == old(self).ball.after_bricks(
                old(self).bricks@,
                old(self).bricks@.len(),
            ),
            final(self).bricks@ == bricks_after(old(self).ball, old(self).bricks@),
            final(self).keys == old(self).keys,
            final(self).bg == old(self).bg,
            final(self).player == old(self).player,
            final(self).ball.speed_squared() == old(self).ball.speed_squared(),
            forall|i: int|
                0 <= i < old(self).bricks@.len() && (#[trigger] old(self).bricks@[i]).is_solid
                    ==> final(self).bricks@[i] == old(self).bricks@[i],
            drifted(old(self).ball, final(self).ball, old(self).bricks@.len() as int),
    {
        let ghost start = self.ball;
        let ghost before = self.bricks@;
        let n = self.bricks.len();
        let mut ball = self.ball;
        let mut i: usize = 0;
        while i < n
            invariant
                i <= n,
                n == before.len(),
                n <= BRICK_LIMIT,
                self.bricks@.len() == n,
                start.wf(),
                self.keys == old(self).keys,
                self.bg == old(self).bg,
                self.player == old(self).player,
                ball == start.after_bricks(before, i as nat),
                drifted(start, ball, i as int),
                forall|j: int|
                    0 <= j < i ==> #[trigger] self.bricks@[j] == before[j].after_ball(
                        start.after_bricks(before, j as nat),
                    ),
                forall|j: int| i <= j < n ==> #[trigger] self.bricks@[j] == before[j],
            decreases n - i,
        {
            let brick = self.bricks[i];
            if !brick.is_destroyed {
                let Collision(collided, direction, penetration) =
                    Game::check_circle_rect_collision(&ball.game_object, &brick.game_object);
                if collided {
                    if !brick.is_solid {
                        let mut struck = brick;
                        struck.is_destroyed = true;
                        self.bricks.set(i, struck);
                    }
                    let depth: i32 = penetration as i32;
                    match direction {
                        Direction::LEFT => {
                            ball.velocity.x = -ball.velocity.x;
                            ball.game_object.position.x = ball.game_object.position.x - depth;
                        },
                        Direction::RIGHT => {
                            ball.velocity.x = -ball.velocity.x;
                            ball.game_object.position.x = ball.game_object.position.x + depth;
                        },
                        Direction::DOWN => {
                            ball.velocity.y = -ball.velocity.y;
                            ball.game_object.position.y = ball.game_object.position.y + depth;
                        },
                        Direction::UP => {
                            ball.velocity.y = -ball.velocity.y;
                            ball.game_object.position.y = ball.game_object.position.y - depth;
                        },
                    }
                }
            }
            i += 1;
        }
        proof {
            lemma_speed_kept(start, ball);
            assert(self.bricks@ =~= bricks_after(start, before));
        }
        self.ball = ball;
    }
}


/// `after` is `before` having met `n` bricks: the same ball but for its
/// position, which has moved by at most `n` pushes on either axis, and its
/// velocity, whose components are as they were or reversed.
pub open spec fn drifted(before: Ball, after: Ball, n: int) -> bool {
    &&& after.game_object.size == before.game_object.size
    &&& after.game_object.color == before.game_object.color
    &&& after.game_object.texture == before.game_object.texture
    &&& after.radius == before.radius
    &&& after.is_stuck == before.is_stuck
    &&& after.velocity.x == before.velocity.x || after.velocity.x == -before.velocity.x
    &&& after.velocity.y == before.velocity.y || after.velocity.y == -before.velocity.y
    &&& before.game_object.position.x - n * PUSH_LIMIT <= after.game_object.position.x
        <= before.game_object.position.x + n * PUSH_LIMIT
    &&& before.game_object.position.y - n * PUSH_LIMIT <= after.game_object.position.y
        <= before.game_object.position.y + n * PUSH_LIMIT
}

} // verus!
