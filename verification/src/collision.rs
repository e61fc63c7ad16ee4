//! Collision tests: overlap of two rectangles, and a circle against a
//! rectangle.
//!
//! A circle's center and a rectangle's center lie on half units, so the tests
//! work on doubled lengths, which are whole.
use vstd::prelude::*;
use crate::arith::{clamp_sym, clamp_symmetric, integer_sqrt, isqrt, lemma_isqrt_exists};
use crate::game::Game;
use crate::game_object::GameObject;
use crate::geometry::{Collision, Direction, Vec2};

verus! {

/// The projections of `a` and `b` on the horizontal axis overlap: each
/// starts before the other ends. Two that only touch, one ending exactly
/// where the other starts, do not overlap.
pub open spec fn overlap_x(a: GameObject, b: GameObject) -> bool {
    a.position.x < b.position.x + b.size.x && b.position.x < a.position.x + a.size.x
}

/// The projections of `a` and `b` on the vertical axis overlap: each starts
/// before the other ends.
pub open spec fn overlap_y(a: GameObject, b: GameObject) -> bool {
    a.position.y < b.position.y + b.size.y && b.position.y < a.position.y + a.size.y
}

/// The rectangles overlap on both axes. The test is the same in both orders
/// of the two, and rectangles that share no more than an edge or a corner
/// are apart: a ball that rests on the paddle does not touch it.
pub open spec fn overlap(a: GameObject, b: GameObject) -> bool {
    overlap_x(a, b) && overlap_y(a, b)
}

/// The side that the vector `(x, y)` points to most: the unit vector among
/// left, down, right and up with the largest dot product, the first of them
/// in that order where several are largest.
pub open spec fn vector_direction(x: int, y: int) -> Direction {
    let left = -x;
    let down = y;
    let right = x;
    let up = -y;
    if left >= down && left >= right && left >= up {
        Direction::LEFT
    } else if down >= right && down >= up {
        Direction::DOWN
    } else if right >= up {
        Direction::RIGHT
    } else {
        Direction::UP
    }
}

/// Twice the vector from the center of `rect` to the center of `circle`.
pub open spec fn center_offset(circle: GameObject, rect: GameObject) -> (int, int) {
    (
        2 * circle.position.x + circle.size.x - 2 * rect.position.x - rect.size.x,
        2 * circle.position.y + circle.size.y - 2 * rect.position.y - rect.size.y,
    )
}

/// Twice the vector from the center of `rect` to its point closest to the
/// center of `circle`: the offset of the centers, clamped to the half extents.
pub open spec fn closest_offset(circle: GameObject, rect: GameObject) -> (int, int) {
    let d = center_offset(circle, rect);
    (clamp_sym(d.0, rect.size.x as int), clamp_sym(d.1, rect.size.y as int))
}

/// Twice the vector from the center of `circle` to the closest point of
/// `rect`.
pub open spec fn gap(circle: GameObject, rect: GameObject) -> (int, int) {
    let d = center_offset(circle, rect);
    let k = closest_offset(circle, rect);
    (k.0 - d.0, k.1 - d.1)
}

/// The center of `circle` lies outside `rect`: the vector to the closest
/// point runs against the vector from the rectangle's center to that point.
pub open spec fn center_outside(circle: GameObject, rect: GameObject) -> bool {
    let k = closest_offset(circle, rect);
    let g = gap(circle, rect);
    k.0 * g.0 + k.1 * g.1 < 0
}

/// Square of twice the distance from the center of `circle` to the closest
/// point of `rect`.
pub open spec fn gap_squared(circle: GameObject, rect: GameObject) -> int {
    let g = gap(circle, rect);
    g.0 * g.0 + g.1 * g.1
}

/// The penetration depth: the radius, half the circle's width, less the
/// distance from the center to the closest point of the rectangle, with the
/// distance rounded so that the depth is the next whole number of units at
/// or above the exact difference.
pub open spec fn penetration(circle: GameObject, rect: GameObject) -> int {
    (circle.size.x - isqrt(gap_squared(circle, rect)) + 1) / 2
}

/// The circle inscribed in the width of `circle` against `rect`: they
/// collide when the depth is positive and the center is outside.
pub open spec fn circle_rect_collision(circle: GameObject, rect: GameObject) -> Collision {
    let d = center_offset(circle, rect);
    Collision(
        penetration(circle, rect) > 0 && center_outside(circle, rect),
        vector_direction(d.0, d.1),
        penetration(circle, rect) as i64,
    )
}

/// The side that the vector `(x, y)` points to most.
fn direction_of(x: i64, y: i64) -> (r: Direction)
    requires
        x > i64::MIN,
        y > i64::MIN,
    ensures
        r == vector_direction(x as int, y as int),
{
    let left: i64 = -x;
    let down: i64 = y;
    let right: i64 = x;
    let up: i64 = -y;
    let m0: i64 = if right > up { right } else { up };
    let m1: i64 = if down > m0 { down } else { m0 };
    let max: i64 = if left > m1 { left } else { m1 };
    if max == left {
        Direction::LEFT
    } else if max == down {
        Direction::DOWN
    } else if max == right {
        Direction::RIGHT
    } else {
        Direction::UP
    }
}

impl Game {
    /// Whether two rectangles overlap.
    pub fn check_collision(goa: &GameObject, gob: &GameObject) -> (r: bool)
        ensures
            r == overlap(*goa, *gob),
    {
        let ax: i64 = goa.position.x as i64;
        let ay: i64 = goa.position.y as i64;
        let bx: i64 = gob.position.x as i64;
        let by: i64 = gob.position.y as i64;
        let collision_x = !(ax >= bx + gob.size.x as i64 || ax + (goa.size.x as i64) <= bx);
        let collision_y = !(ay >= by + gob.size.y as i64 || ay + (goa.size.y as i64) <= by);
        collision_x && collision_y
    }

    /// The side that `v` points to most.
    pub fn calc_vector_direction(v: Vec2) -> (r: Direction)
        ensures
            r == vector_direction(v.x as int, v.y as int),
    {
        direction_of(v.x as i64, v.y as i64)
    }

    /// Tests the circle inscribed in the width of `circle` against `rect`.
    pub fn check_circle_rect_collision(circle: &GameObject, rect: &GameObject) -> (r: Collision)
        ensures
            r == circle_rect_collision(*circle, *rect),
            r.0 ==> r.2 > 0,
            r.2 <= circle.size.x / 2 + 1,
    {
        let dx: i64 = 2 * (circle.position.x as i64) + (circle.size.x as i64) - 2 * (
        rect.position.x as i64) - (rect.size.x as i64);
        let dy: i64 = 2 * (circle.position.y as i64) + (circle.size.y as i64) - 2 * (
        rect.position.y as i64) - (rect.size.y as i64);
        let kx: i64 = clamp_symmetric(dx, rect.size.x as i64);
        let ky: i64 = clamp_symmetric(dy, rect.size.y as i64);
        let gx: i64 = kx - dx;
        let gy: i64 = ky - dy;
        proof {
            lemma_square_bound(gx as int, 0x4_0000_0000);
            lemma_square_bound(gy as int, 0x4_0000_0000);
            lemma_product_bound(kx as int, gx as int, 0x4_0000_0000);
            lemma_product_bound(ky as int, gy as int, 0x4_0000_0000);
        }
        let dot: i128 = (kx as i128) * (gx as i128) + (ky as i128) * (gy as i128);
        let is_outside = dot < 0;
        let squared: u128 = ((gx as i128) * (gx as i128) + (gy as i128) * (gy as i128)) as u128;
        let root: u64 = integer_sqrt(squared);
        assert(root < 0x8_0000_0000) by (nonlinear_arith)
            requires
                root * root <= squared,
                squared <= 2 * (0x4_0000_0000 * 0x4_0000_0000),
        ;
        let magnitude: i64 = root as i64;
        let excess: i64 = circle.size.x as i64 - magnitude + 1;
        let penetration: i64 = if excess >= 0 {
            excess / 2
        } else {
            -((1 - excess) / 2)
        };
        Collision(penetration > 0 && is_outside, direction_of(dx, dy), penetration)
    }
}

/// The overlap test gives the same answer in both orders of the two
/// rectangles.
pub proof fn lemma_overlap_symmetric(a: GameObject, b: GameObject)
    ensures
        overlap(a, b) == overlap(b, a),
{
}

/// Two rectangles of which one ends exactly where the other starts, on
/// either axis, do not overlap, in either order.
pub proof fn lemma_shared_edge_apart(a: GameObject, b: GameObject)
    requires
        a.position.x + a.size.x == b.position.x || a.position.y + a.size.y == b.position.y,
    ensures
        !overlap(a, b),
        !overlap(b, a),
{
}

/// A collision is reported only with a positive penetration depth.
pub proof fn lemma_collision_penetrates(circle: GameObject, rect: GameObject)
    ensures
        circle_rect_collision(circle, rect).0 ==> penetration(circle, rect) > 0,
{
}

/// The penetration depth is the radius less the distance, rounded up to a
/// whole number of units. In doubled lengths: the width less twice the depth
/// does not exceed twice the distance, and with one unit less of depth it
/// would.
pub proof fn lemma_penetration_rounds_up(circle: GameObject, rect: GameObject)
    ensures
        ({
            let rest = circle.size.x - 2 * penetration(circle, rect);
            let twice_distance_squared = gap_squared(circle, rect);
            &&& rest <= 0 || rest * rest <= twice_distance_squared
            &&& rest + 2 > 0
            &&& (rest + 2) * (rest + 2) > twice_distance_squared
        }),
{
    let g = gap(circle, rect);
    let q = gap_squared(circle, rect);
    assert(q >= 0) by (nonlinear_arith)
        requires
            q == g.0 * g.0 + g.1 * g.1,
    ;
    lemma_isqrt_exists(q);
    let r = isqrt(q);
    let rest = circle.size.x - 2 * penetration(circle, rect);
    assert(rest == r || rest == r - 1);
    assert(rest <= 0 || rest * rest <= q) by (nonlinear_arith)
        requires
            rest == r || rest == r - 1,
            r >= 0,
            r * r <= q,
    ;
    assert((rest + 2) * (rest + 2) > q) by (nonlinear_arith)
        requires
            rest == r || rest == r - 1,
            r >= 0,
            q < (r + 1) * (r + 1),
    ;
}

/// The square of a number within `[-bound, bound]` is within `[0, bound * bound]`.
proof fn lemma_square_bound(a: int, bound: int)
    requires
        -bound <= a <= bound,
    ensures
        0 <= a * a <= bound * bound,
{
    assert(0 <= a * a <= bound * bound) by (nonlinear_arith)
        requires
            -bound <= a <= bound,
    ;
}

/// The product of two numbers within `[-bound, bound]` is within
/// `[-bound * bound, bound * bound]`.
proof fn lemma_product_bound(a: int, b: int, bound: int)
    requires
        -bound <= a <= bound,
        -bound <= b <= bound,
    ensures
        -(bound * bound) <= a * b <= bound * bound,
{
    assert(-(bound * bound) <= a * b <= bound * bound) by (nonlinear_arith)
        requires
            -bound <= a <= bound,
            -bound <= b <= bound,
    ;
}

} // verus!
