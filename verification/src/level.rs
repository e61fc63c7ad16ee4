//! Level generation: a grid of bricks over the top half of the playfield,
//! each cell's kind drawn at random, and the ball and the paddle at their
//! starting places.
use vstd::prelude::*;
use rand::distributions::{Distribution, WeightedError, WeightedIndex};
use rand::rngs::ThreadRng;
use crate::game::{Game, BRICK_LIMIT};
use crate::game_object::{Ball, Brick, Color, Paddle};
use crate::geometry::Vec2;
use crate::{HEIGHT, WIDTH};

verus! {

/// Cells in a row of the grid.
pub const COLUMNS: usize = 12;

/// Rows of the grid.
pub const ROWS: usize = 6;

/// Cells of the grid.
pub const CELLS: usize = COLUMNS * ROWS;

/// Width of a cell: the playfield's width over the cells in a row.
pub const CELL_WIDTH: i32 = 66_666;

/// Height of a cell: half the playfield's height over the rows.
pub const CELL_HEIGHT: i32 = 50_000;

/// The kind of brick that is solid.
pub const SOLID_KIND: u8 = 1;

/// The largest kind of brick.
pub const KINDS: u8 = 5;

/// Where a new level's ball starts, horizontally.
pub const BALL_START_X: i32 = 750_000;

/// Where a new level's ball starts, vertically.
pub const BALL_START_Y: i32 = 550_000;

/// Where a new level's paddle starts, horizontally.
pub const PADDLE_START_X: i32 = 500_000;

/// Where a new level's paddle starts, vertically.
pub const PADDLE_START_Y: i32 = 580_000;

/// Error of `rand::distributions::WeightedIndex::new`.
#[verifier::external_type_specification]
#[verifier::external_body]
pub struct ExWeightedError(WeightedError);

/// The thread's random number generator, `rand::rngs::ThreadRng`.
#[verifier::external_type_specification]
#[verifier::external_body]
pub struct ExThreadRng(ThreadRng);

/// A `rand::distributions::WeightedIndex` over `u32` weights.
#[verifier::external_body]
pub struct Weighted {
    index: WeightedIndex<u32>,
}

/// The number of weights that `dist` was made with.
pub uninterp spec fn weight_count(dist: Weighted) -> nat;

/// The sum of `weights`.
pub open spec fn total(weights: Seq<u32>) -> int
    decreases weights.len(),
{
    if weights.len() == 0 {
        0
    } else {
        total(weights.drop_last()) + weights.last()
    }
}

/// `WeightedIndex::new` on `weights`. It fails on an empty list and on
/// weights that are all zero, and on nothing else; the sum of the weights
/// must fit their type, since the call adds them up.
#[verifier::external_body]
fn weighted_index(weights: &Vec<u32>) -> (r: Result<Weighted, WeightedError>)
    requires
        total(weights@) <= u32::MAX,
    ensures
        match r {
            Ok(dist) => weights@.len() > 0 && total(weights@) > 0 && weight_count(dist)
                == weights@.len(),
            Err(_) => weights@.len() == 0 || total(weights@) == 0,
        },
{
    match WeightedIndex::new(weights) {
        Ok(index) => Ok(Weighted { index }),
        Err(e) => Err(e),
    }
}

/// `rand::thread_rng`: a handle to the thread's generator.
#[verifier::external_body]
fn thread_rng() -> ThreadRng {
    rand::thread_rng()
}

/// `WeightedIndex::sample`: an index into the weights, drawn at random.
/// Nothing is claimed of it but that it is an index.
#[verifier::external_body]
fn sample(dist: &Weighted, rng: &mut ThreadRng) -> (r: usize)
    ensures
        r < weight_count(*dist),
{
    dist.index.sample(rng)
}

/// The grid spans the width of the playfield and the top half of its height:
/// a cell is as wide as the playfield's width over the cells in a row, and as
/// high as half the playfield's height over the rows, in whole units.
pub proof fn lemma_grid_spans_top_half()
    ensures
        CELLS == COLUMNS * ROWS,
        CELL_WIDTH == (WIDTH as int) / (COLUMNS as int),
        CELL_HEIGHT == ((HEIGHT as int) / 2) / (ROWS as int),
        COLUMNS * CELL_WIDTH <= WIDTH,
        ROWS * CELL_HEIGHT <= HEIGHT / 2,
{
}

/// The tint of a brick of kind `kind`.
pub open spec fn kind_color(kind: u8) -> Color {
    if kind == 1 {
        Color { r: 800, g: 800, b: 700 }
    } else if kind == 2 {
        Color { r: 200, g: 600, b: 1000 }
    } else if kind == 3 {
        Color { r: 0, g: 700, b: 0 }
    } else if kind == 4 {
        Color { r: 800, g: 800, b: 400 }
    } else {
        Color { r: 1000, g: 500, b: 0 }
    }
}

/// `kind` is one of the kinds of brick.
pub open spec fn is_kind(kind: u8) -> bool {
    1 <= kind <= KINDS
}

/// The brick that the cell `index` holds when its kind is `kind`: the cells
/// fill the grid row by row, the brick fills its cell, and its ordinal is the
/// cell's index. Only the first kind is solid.
pub open spec fn cell_brick(index: int, kind: u8) -> Brick {
    Brick::make(
        index as u32,
        Vec2 { x: ((index % 12) * CELL_WIDTH) as i32, y: ((index / 12) * CELL_HEIGHT) as i32 },
        Vec2 { x: CELL_WIDTH, y: CELL_HEIGHT },
        kind_color(kind),
        kind == SOLID_KIND,
    )
}

/// The bricks of the grid whose cells have the kinds `tiles`: one brick for
/// each cell whose kind is a kind of brick, in the order of the cells, and
/// none for any other cell.
pub open spec fn level_bricks(tiles: Seq<u8>) -> Seq<Brick>
    decreases tiles.len(),
{
    if tiles.len() == 0 {
        Seq::empty()
    } else if is_kind(tiles.last()) {
        level_bricks(tiles.drop_last()).push(cell_brick(tiles.len() - 1, tiles.last()))
    } else {
        level_bricks(tiles.drop_last())
    }
}

/// `bricks` is a grid that level generation can produce: every cell holds
/// an intact brick of some kind.
pub open spec fn is_generated(bricks: Seq<Brick>) -> bool {
    &&& bricks.len() == CELLS
    &&& forall|i: int|
        0 <= i < CELLS ==> exists|kind: u8|
            is_kind(kind) && #[trigger] bricks[i] == cell_brick(i, kind)
}

/// Where every cell has a kind of brick, there is one brick for each cell.
pub proof fn lemma_level_full(tiles: Seq<u8>)
    requires
        forall|i: int| 0 <= i < tiles.len() ==> is_kind(#[trigger] tiles[i]),
    ensures
        level_bricks(tiles).len() == tiles.len(),
        forall|i: int|
            0 <= i < tiles.len() ==> #[trigger] level_bricks(tiles)[i] == cell_brick(i, tiles[i]),
    decreases tiles.len(),
{
    if tiles.len() > 0 {
        let front = tiles.drop_last();
        assert forall|i: int| 0 <= i < front.len() implies is_kind(#[trigger] front[i]) by {
            assert(front[i] == tiles[i]);
        }
        lemma_level_full(front);
        assert forall|i: int| 0 <= i < tiles.len() implies #[trigger] level_bricks(tiles)[i]
            == cell_brick(i, tiles[i]) by {
            if i < front.len() {
                assert(level_bricks(tiles)[i] == level_bricks(front)[i]);
                assert(front[i] == tiles[i]);
            }
        }
    }
}

/// The weights with which the kinds of brick are drawn, the solid kind
/// first: it is drawn less often than each other kind.
pub fn kind_weights() -> (w: Vec<u32>)
    ensures
        w@ == seq![3u32, 4u32, 4u32, 4u32, 4u32],
        total(w@) == 19,
{
    let mut weights: Vec<u32> = Vec::new();
    weights.push(3);
    weights.push(4);
    weights.push(4);
    weights.push(4);
    weights.push(4);
    proof {
        reveal_with_fuel(total, 6);
        assert(weights@.drop_last().drop_last().drop_last().drop_last().drop_last().len() == 0);
        assert(weights@ =~= seq![3u32, 4u32, 4u32, 4u32, 4u32]);
    }
    weights
}

/// The kind of brick that goes with the index `pick` into the weights.
pub fn kind_at(pick: usize) -> (k: u8)
    requires
        pick < 5,
    ensures
        k == pick + 1,
        is_kind(k),
        k == SOLID_KIND <==> pick == 0,
{
    let choices: [u8; 5] = [1, 2, 3, 4, 5];
    choices[pick]
}

/// Builds the brick of the cell `index` for the kind `kind`.
pub fn make_cell_brick(index: usize, kind: u8) -> (r: Brick)
    requires
        index < BRICK_LIMIT,
    ensures
        r == cell_brick(index as int, kind),
        r.wf(),
{
    let row: usize = index / COLUMNS;
    let column: usize = index % COLUMNS;
    let position = Vec2 { x: column as i32 * CELL_WIDTH, y: row as i32 * CELL_HEIGHT };
    let size = Vec2 { x: CELL_WIDTH, y: CELL_HEIGHT };
    if kind == 1 {
        Brick::new(index as u32, position, size, Color { r: 800, g: 800, b: 700 }, true)
    } else if kind == 2 {
        Brick::new(index as u32, position, size, Color { r: 200, g: 600, b: 1000 }, false)
    } else if kind == 3 {
        Brick::new(index as u32, position, size, Color { r: 0, g: 700, b: 0 }, false)
    } else if kind == 4 {
        Brick::new(index as u32, position, size, Color { r: 800, g: 800, b: 400 }, false)
    } else {
        Brick::new(index as u32, position, size, Color { r: 1000, g: 500, b: 0 }, false)
    }
}

/// Lays the bricks of the grid whose cells have the kinds `tiles`.
pub fn lay_bricks(tiles: &Vec<u8>) -> (bricks: Vec<Brick>)
    requires
        tiles@.len() <= BRICK_LIMIT,
    ensures
        bricks@ == level_bricks(tiles@),
        bricks@.len() <= tiles@.len(),
        forall|i: int| 0 <= i < bricks@.len() ==> (#[trigger] bricks@[i]).wf(),
        forall|i: int| 0 <= i < bricks@.len() ==> !(#[trigger] bricks@[i]).is_destroyed,
{
    let mut bricks: Vec<Brick> = Vec::new();
    let n = tiles.len();
    let mut idx: usize = 0;
    while idx < n
        invariant
            idx <= n,
            n == tiles@.len(),
            n <= BRICK_LIMIT,
            bricks@ == level_bricks(tiles@.take(idx as int)),
            bricks@.len() <= idx,
            forall|i: int| 0 <= i < bricks@.len() ==> (#[trigger] bricks@[i]).wf(),
            forall|i: int| 0 <= i < bricks@.len() ==> !(#[trigger] bricks@[i]).is_destroyed,
        decreases n - idx,
    {
        let t = tiles[idx];
        proof {
            let next = tiles@.take(idx as int + 1);
            assert(next.drop_last() =~= tiles@.take(idx as int));
            assert(next.last() == t);
        }
        if 1 <= t && t <= KINDS {
            bricks.push(make_cell_brick(idx, t));
        }
        idx += 1;
    }
    proof {
        assert(tiles@.take(n as int) =~= tiles@);
    }
    bricks
}

impl Game {
    /// Generates a level: the paddle and the ball at their starting places,
    /// and a full grid of bricks whose kinds are drawn at random, the solid
    /// kind with weight 3 and each other kind with weight 4.
    pub fn gen_level() -> (r: (Paddle, Ball, Vec<Brick>))
        ensures
            r.0 == Paddle::spawn(Vec2 { x: PADDLE_START_X, y: PADDLE_START_Y }),
            r.1 == Ball::spawn(Vec2 { x: BALL_START_X, y: BALL_START_Y }),
            is_generated(r.2@),
            r.2@.len() == CELLS,
            forall|i: int| 0 <= i < r.2@.len() ==> (#[trigger] r.2@[i]).wf(),
            forall|i: int| 0 <= i < r.2@.len() ==> !(#[trigger] r.2@[i]).is_destroyed,
    {
        let mut tile_data: Vec<u8> = Vec::new();
        let weights = kind_weights();
        match weighted_index(&weights) {
            Ok(dist) => {
                let mut rng = thread_rng();
                let mut n: usize = 0;
                while n < CELLS
                    invariant
                        n <= CELLS,
                        tile_data@.len() == n,
                        weight_count(dist) == 5,
                        forall|i: int| 0 <= i < n ==> is_kind(#[trigger] tile_data@[i]),
                    decreases CELLS - n,
                {
                    let pick = sample(&dist, &mut rng);
                    tile_data.push(kind_at(pick));
                    n += 1;
                }
            },
            // there are five weights and their sum is 19: the call cannot fail
            Err(_) => {},
        }
        let bricks = lay_bricks(&tile_data);
        proof {
            lemma_level_full(tile_data@);
            assert forall|i: int| 0 <= i < CELLS implies exists|kind: u8|
                is_kind(kind) && #[trigger] bricks@[i] == cell_brick(i, kind) by {
                assert(is_kind(tile_data@[i]) && bricks@[i] == cell_brick(i, tile_data@[i]));
            }
        }
        let ball = Ball::new(Vec2 { x: BALL_START_X, y: BALL_START_Y });
        let player = Paddle::new(Vec2 { x: PADDLE_START_X, y: PADDLE_START_Y });
        (player, ball, bricks)
    }
}

} // verus!
