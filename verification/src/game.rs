//! The state of one game, and the tick that advances it.
use vstd::prelude::*;
use crate::game_object::{Ball, Bg, Brick, GameObject, Paddle};
use crate::geometry::Vec2;
use crate::input::{any_quits, Action, Key, KeyEvent, Keys};
use crate::level::{is_generated, BALL_START_X, BALL_START_Y, PADDLE_START_X, PADDLE_START_Y};
use crate::motion::lemma_step_bound;
use crate::physics::{bricks_after, Bounce};
use crate::HEIGHT;

verus! {

/// Largest number of bricks in a level.
pub const BRICK_LIMIT: usize = 1024;

/// One game: the keys that are held, the backdrop, and the current level's
/// paddle, ball and bricks.
#[derive(Clone, Debug)]
pub struct Game {
    pub keys: Keys,
    pub bg: Bg,
    pub player: Paddle,
    pub ball: Ball,
    pub bricks: Vec<Brick>,
}

/// A game as a mathematical value: the bricks are a sequence.
pub struct State {
    pub keys: Keys,
    pub bg: Bg,
    pub player: Paddle,
    pub ball: Ball,
    pub bricks: Seq<Brick>,
}

impl View for Game {
    type V = State;

    open spec fn view(&self) -> State {
        State {
            keys: self.keys,
            bg: self.bg,
            player: self.player,
            ball: self.ball,
            bricks: self.bricks@,
        }
    }
}

/// The bricks that are drawn: those of `bricks` that are not destroyed, in
/// their order.
pub open spec fn visible(bricks: Seq<Brick>) -> Seq<GameObject>
    decreases bricks.len(),
{
    if bricks.len() == 0 {
        Seq::empty()
    } else if bricks.last().is_destroyed {
        visible(bricks.drop_last())
    } else {
        visible(bricks.drop_last()).push(bricks.last().game_object)
    }
}

impl State {
    /// Every entity is well formed and the level holds no more bricks than
    /// the limit.
    pub open spec fn wf(self) -> bool {
        &&& self.bg.game_object.wf()
        &&& self.player.wf()
        &&& self.ball.wf()
        &&& self.bricks.len() <= BRICK_LIMIT
        &&& forall|i: int| 0 <= i < self.bricks.len() ==> (#[trigger] self.bricks[i]).wf()
    }

    /// The ball after the collisions of a tick: the borders first, then the
    /// paddle, then every brick in order.
    pub open spec fn ball_after_collisions(self, rebound: Option<Vec2>) -> Ball {
        self.ball.after_borders().after_paddle(self.player, rebound).after_bricks(
            self.bricks,
            self.bricks.len(),
        )
    }

    /// The state after one tick of `dt` milliseconds, before the ball is
    /// looked for below the playfield. In this order: the ball against the
    /// borders, against the paddle, against the bricks; the paddle under the
    /// keys; the launch key; the ball's movement.
    pub open spec fn tick(self, dt: u16, rebound: Option<Vec2>) -> State {
        let player = self.player.after_keys(self.keys, dt);
        State {
            keys: self.keys,
            bg: self.bg,
            player,
            ball: self.ball_after_collisions(rebound).after_keys(self.keys).advanced(player, dt),
            bricks: bricks_after(
                self.ball.after_borders().after_paddle(self.player, rebound),
                self.bricks,
            ),
        }
    }

    /// `self` is `before` with a new level in place of the old one: the same
    /// keys, a new backdrop, the paddle and a stuck ball at their starting
    /// places, and a full grid of intact bricks.
    pub open spec fn restarts(self, before: State) -> bool {
        &&& self.keys == before.keys
        &&& self.bg == Bg::full_screen()
        &&& self.player == Paddle::spawn(Vec2 { x: PADDLE_START_X, y: PADDLE_START_Y })
        &&& self.ball == Ball::spawn(Vec2 { x: BALL_START_X, y: BALL_START_Y })
        &&& is_generated(self.bricks)
    }

    /// What is drawn, from back to front: the backdrop, the bricks that are
    /// not destroyed, the paddle, the ball.
    pub open spec fn scene(self) -> Seq<GameObject> {
        seq![self.bg.game_object] + visible(self.bricks) + seq![
            self.player.game_object,
            self.ball.game_object,
        ]
    }
}

/// A tick that does not lose the ball leaves every solid brick as it is:
/// a solid brick that is not destroyed stays so, whatever else is destroyed.
pub proof fn lemma_tick_spares_solid_bricks(state: State, dt: u16, rebound: Option<Vec2>, i: int)
    requires
        0 <= i < state.bricks.len(),
        state.bricks[i].is_solid,
    ensures
        state.tick(dt, rebound).bricks.len() == state.bricks.len(),
        state.tick(dt, rebound).bricks[i] == state.bricks[i],
{
}

impl Game {
    /// Every entity is well formed and the level holds no more bricks than
    /// the limit.
    pub open spec fn wf(self) -> bool {
        self@.wf()
    }

    /// Whether every entity is well formed and the level holds no more
    /// bricks than the limit.
    pub fn is_wf(&self) -> (r: bool)
        ensures
            r == self.wf(),
    {
        if !(self.bg.game_object.is_wf() && self.player.is_wf() && self.ball.is_wf()
            && self.bricks.len() <= BRICK_LIMIT) {
            return false;
        }
        let n = self.bricks.len();
        let mut i: usize = 0;
        while i < n
            invariant
                i <= n,
                n == self.bricks@.len(),
                forall|j: int| 0 <= j < i ==> (#[trigger] self.bricks@[j]).wf(),
            decreases n - i,
        {
            if !self.bricks[i].game_object.is_wf() {
                return false;
            }
            i += 1;
        }
        true
    }

    /// A new game: no key held, the backdrop, and a generated level.
    pub fn new() -> (r: Game)
        ensures
            r.wf(),
            r.keys == Keys::none(),
            r.bg == Bg::full_screen(),
            r.player == Paddle::spawn(Vec2 { x: PADDLE_START_X, y: PADDLE_START_Y }),
            r.ball == Ball::spawn(Vec2 { x: BALL_START_X, y: BALL_START_Y }),
            is_generated(r.bricks@),
    {
        let bg = Bg::new();
        let (player, ball, bricks) = Game::gen_level();
        Game { keys: Keys::new(), player, ball, bricks, bg }
    }

    /// Takes the keyboard events in order: a press adds the key to the held
    /// keys and a release removes it. Returns whether the quit key was
    /// pressed.
    pub fn process_events(&mut self, events: &Vec<KeyEvent>) -> (quit: bool)
        ensures
            final(self)@ == (State { keys: old(self).keys.after_all(events@), ..old(self)@ }),
            quit == any_quits(events@),
    {
        let mut quit = false;
        let n = events.len();
        let mut i: usize = 0;
        while i < n
            invariant
                i <= n,
                n == events@.len(),
                self@ == (State { keys: old(self).keys.after_all(events@.take(i as int)), ..old(self)@ }),
                quit == any_quits(events@.take(i as int)),
            decreases n - i,
        {
            let event = events[i];
            proof {
                let next = events@.take(i as int + 1);
                let seen = events@.take(i as int);
                assert(next.drop_last() =~= seen);
                assert(next.last() == event);
                if any_quits(seen) {
                    let k = choose|k: int| 0 <= k < seen.len() && (#[trigger] seen[k]).quits();
                    assert(next[k].quits());
                }
                if event.quits() {
                    assert(next[i as int].quits());
                }
                if any_quits(next) {
                    let k = choose|k: int| 0 <= k < next.len() && (#[trigger] next[k]).quits();
                    if k < i {
                        assert(seen[k].quits());
                    }
                }
            }
            match (event.key, event.action) {
                (Key::Quit, Action::Press) => {
                    quit = true;
                },
                _ => {
                    self.keys.apply(event);
                },
            }
            i += 1;
        }
        proof {
            assert(events@.take(n as int) =~= events@);
        }
        quit
    }

    /// What the paddle will ask of the ball in the next tick, if the ball
    /// meets the paddle then.
    pub fn pending_bounce(&self) -> (r: Option<Bounce>)
        requires
            self.ball.wf(),
            self.player.wf(),
        ensures
            r == self.ball.after_borders().bounce_wanted(self.player),
    {
        let mut ball = self.ball;
        ball.turn_at_borders();
        ball.bounce_off_paddle(&self.player, None)
    }

    /// Replaces the level by a newly generated one.
    pub fn reset(&mut self)
        ensures
            final(self)@.restarts(old(self)@),
            final(self).wf(),
    {
        let (player, ball, bricks) = Game::gen_level();
        self.bg = Bg::new();
        self.player = player;
        self.ball = ball;
        self.bricks = bricks;
    }

    /// Starts a new level if the ball has fallen past the bottom of the
    /// playfield.
    pub fn check_game_over(&mut self)
        ensures
            old(self).ball.is_lost() ==> final(self)@.restarts(old(self)@),
            !old(self).ball.is_lost() ==> *final(self) == *old(self),
    {
        if self.ball.game_object.position.y > HEIGHT {
            self.reset();
        }
    }

    /// Advances the game by one tick of `dt` milliseconds. Where the ball
    /// meets the paddle in this tick, it leaves on the course that the paddle
    /// asks for: with the velocity `rebound` if the ball may leave with it,
    /// and straight up at the speed it came with in every other case. Where
    /// the ball ends the tick below the playfield, a new level starts.
    pub fn update(&mut self, dt: u16, rebound: Option<Vec2>)
        requires
            old(self).wf(),
        ensures
            final(self).wf(),
            old(self)@.tick(dt, rebound).ball.is_lost() ==> final(self)@.restarts(old(self)@),
            !old(self)@.tick(dt, rebound).ball.is_lost() ==> final(self)@ == old(self)@.tick(
                dt,
                rebound,
            ),
    {
        self.check_ball_border_collision();
        self.check_ball_player_collision(rebound);
        self.check_ball_brick_collision();
        let mut player = self.player;
        player.steer(&self.keys, dt);
        self.player = player;
        let mut ball = self.ball;
        ball.launch(&self.keys);
        proof {
            lemma_step_bound(ball.velocity.x as int, dt as int);
            lemma_step_bound(ball.velocity.y as int, dt as int);
        }
        ball.advance(&self.player, dt);
        self.ball = ball;
        proof {
            assert(self@ =~= old(self)@.tick(dt, rebound));
        }
        self.check_game_over();
    }

    /// What is to be drawn, from back to front.
    pub fn draw_list(&self) -> (r: Vec<GameObject>)
        ensures
            r@ == self@.scene(),
    {
        let mut list: Vec<GameObject> = Vec::new();
        list.push(self.bg.game_object);
        let n = self.bricks.len();
        let mut i: usize = 0;
        while i < n
            invariant
                i <= n,
                n == self.bricks@.len(),
                list@ == seq![self.bg.game_object] + visible(self.bricks@.take(i as int)),
            decreases n - i,
        {
            proof {
                let next = self.bricks@.take(i as int + 1);
                assert(next.drop_last() =~= self.bricks@.take(i as int));
                assert(next.last() == self.bricks@[i as int]);
            }
            if !self.bricks[i].is_destroyed {
                list.push(self.bricks[i].game_object);
            }
            i += 1;
        }
        proof {
            assert(self.bricks@.take(n as int) =~= self.bricks@);
        }
        list.push(self.player.game_object);
        list.push(self.ball.game_object);
        list
    }
}

} // verus!
