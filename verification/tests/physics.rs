use cgmath::{vec2, Deg, InnerSpace, Matrix2};

use breakout::physics::{FULL_DEFLECTION, STEEPEST};
use breakout::{Ball, Bg, Bounce, Brick, Color, Game, Keys, Paddle, Vec2};

fn game_with(ball: Ball, player: Paddle, bricks: Vec<Brick>) -> Game {
    Game { keys: Keys::new(), bg: Bg::new(), player, ball, bricks }
}

fn free_ball(x: i32, y: i32, vx: i32, vy: i32) -> Ball {
    let mut ball = Ball::new(Vec2 { x, y });
    ball.is_stuck = false;
    ball.velocity = Vec2 { x: vx, y: vy };
    ball
}

fn far_paddle() -> Paddle {
    Paddle::new(Vec2 { x: 500_000, y: 580_000 })
}

fn brick_at(x: i32, y: i32, is_solid: bool) -> Brick {
    Brick::new(
        7,
        Vec2 { x, y },
        Vec2 { x: 66_666, y: 50_000 },
        Color { r: 200, g: 600, b: 1000 },
        is_solid,
    )
}

/// Turns straight up to the course that the bounce asks for, at the speed of
/// the reflected ball.
fn turned(bounce: &Bounce) -> Vec2 {
    let velocity = vec2(bounce.velocity.x as f64, bounce.velocity.y as f64);
    let up = vec2(0.0, -1.0);
    let course = Deg(bounce.angle() as f64 / 1000.0);
    let out = Matrix2::from_angle(course) * up * velocity.magnitude();
    Vec2 { x: out.x.round() as i32, y: out.y.round() as i32 }
}

fn on_the_paddle(x: i32, vx: i32, vy: i32) -> Game {
    game_with(free_ball(x, 570_000, vx, vy), far_paddle(), vec![])
}

fn speed_squared(ball: &Ball) -> i64 {
    let x = ball.velocity.x as i64;
    let y = ball.velocity.y as i64;
    x * x + y * y
}

#[test]
fn ball_past_the_right_border_is_put_on_it() {
    let mut game = game_with(free_ball(790_000, 300_000, 100_000, -350_000), far_paddle(), vec![]);
    game.check_ball_border_collision();
    assert_eq!(game.ball.game_object.position, Vec2 { x: 775_000, y: 300_000 });
    assert_eq!(game.ball.velocity, Vec2 { x: -100_000, y: -350_000 });
}

#[test]
fn ball_exactly_on_the_right_border_turns_back() {
    let mut game = game_with(free_ball(775_000, 300_000, 100_000, -350_000), far_paddle(), vec![]);
    game.check_ball_border_collision();
    assert_eq!(game.ball.game_object.position, Vec2 { x: 775_000, y: 300_000 });
    assert_eq!(game.ball.velocity, Vec2 { x: -100_000, y: -350_000 });
}

#[test]
fn ball_past_the_left_border_is_put_on_it() {
    let mut game = game_with(free_ball(-3_000, 300_000, -100_000, -350_000), far_paddle(), vec![]);
    game.check_ball_border_collision();
    assert_eq!(game.ball.game_object.position, Vec2 { x: 0, y: 300_000 });
    assert_eq!(game.ball.velocity, Vec2 { x: 100_000, y: -350_000 });
}

#[test]
fn ball_past_the_top_border_is_put_on_it() {
    let mut game = game_with(free_ball(300_000, -4_000, 100_000, -350_000), far_paddle(), vec![]);
    game.check_ball_border_collision();
    assert_eq!(game.ball.game_object.position, Vec2 { x: 300_000, y: 0 });
    assert_eq!(game.ball.velocity, Vec2 { x: 100_000, y: 350_000 });
}

#[test]
fn ball_in_a_corner_turns_back_on_both_axes() {
    let mut game = game_with(free_ball(800_000, -1, 100_000, -350_000), far_paddle(), vec![]);
    game.check_ball_border_collision();
    assert_eq!(game.ball.game_object.position, Vec2 { x: 775_000, y: 0 });
    assert_eq!(game.ball.velocity, Vec2 { x: -100_000, y: 350_000 });
}

#[test]
fn ball_inside_the_playfield_is_left_alone() {
    let ball = free_ball(400_000, 300_000, 100_000, -350_000);
    let mut game = game_with(ball, far_paddle(), vec![]);
    game.check_ball_border_collision();
    assert_eq!(game.ball, ball);
}

#[test]
fn there_is_no_bottom_border() {
    let ball = free_ball(400_000, 700_000, 100_000, 350_000);
    let mut game = game_with(ball, far_paddle(), vec![]);
    game.check_ball_border_collision();
    assert_eq!(game.ball, ball);
}

#[test]
fn border_keeps_the_speed() {
    let mut game = game_with(free_ball(900_000, -5, 123_456, -350_001), far_paddle(), vec![]);
    let before = speed_squared(&game.ball);
    game.check_ball_border_collision();
    assert_eq!(speed_squared(&game.ball), before);
}

#[test]
fn ball_above_the_paddle_center_is_not_deflected() {
    // the paddle spans 500000..600000, its center is at 550000
    let ball = free_ball(537_500, 570_000, 0, 350_000);
    let mut game = game_with(ball, far_paddle(), vec![]);
    let bounce = game.check_ball_player_collision(None);
    assert_eq!(bounce, Some(Bounce { velocity: Vec2 { x: 0, y: -350_000 }, deflection: 0 }));
    assert_eq!(bounce.unwrap().angle(), 0);
    assert_eq!(game.ball.velocity, Vec2 { x: 0, y: -350_000 });
    assert_eq!(game.ball.game_object.position, Vec2 { x: 537_500, y: 555_000 });
}

#[test]
fn ball_at_the_paddle_right_edge_is_deflected_by_twenty_degrees() {
    // the center of the ball is at 600000, the right edge of the paddle
    let ball = free_ball(587_500, 570_000, 0, 350_000);
    let mut game = game_with(ball, far_paddle(), vec![]);
    let bounce = game.check_ball_player_collision(None).unwrap();
    assert_eq!(bounce.deflection, 20_000);
    assert_eq!(bounce.angle(), 20_000);
}

#[test]
fn ball_at_the_paddle_left_edge_is_deflected_the_other_way() {
    let ball = free_ball(487_500, 570_000, 0, 350_000);
    let mut game = game_with(ball, far_paddle(), vec![]);
    let bounce = game.check_ball_player_collision(None).unwrap();
    assert_eq!(bounce.deflection, -20_000);
    assert_eq!(bounce.angle(), -20_000);
}

#[test]
fn deflection_is_rounded_toward_zero() {
    // the center of the ball is 1 unit right of the paddle's center: 20000 / 50000
    let ball = free_ball(537_501, 570_000, 0, 350_000);
    let mut game = game_with(ball, far_paddle(), vec![]);
    assert_eq!(game.check_ball_player_collision(None).unwrap().deflection, 0);
    // 3 units left: -60000 / 50000
    let ball = free_ball(537_497, 570_000, 0, 350_000);
    let mut game = game_with(ball, far_paddle(), vec![]);
    assert_eq!(game.check_ball_player_collision(None).unwrap().deflection, -1);
}

#[test]
fn paddle_gives_the_ball_the_rebound_on_its_course() {
    // the center of the ball is 22500 right of the paddle's center: 9 degrees
    let mut game = on_the_paddle(560_000, 100_000, 350_000);
    let wanted = game.pending_bounce().unwrap();
    assert_eq!(wanted.deflection, 9_000);
    assert_eq!(wanted.angle(), 9_000);
    assert_eq!(wanted.incoming_speed(), 364_005);
    let rebound = turned(&wanted);
    assert_eq!(rebound, Vec2 { x: 56_943, y: -359_524 });
    assert!(wanted.accepts(&rebound));
    let bounce = game.check_ball_player_collision(Some(rebound)).unwrap();
    assert_eq!(bounce, wanted);
    assert_eq!(bounce.velocity, Vec2 { x: 100_000, y: -350_000 });
    assert_eq!(game.ball.velocity, rebound);
    assert_eq!(game.ball.game_object.position.y, 555_000);
}

#[test]
fn ball_leaves_straight_up_without_a_rebound() {
    let mut game = on_the_paddle(560_000, 300_000, 400_000);
    game.check_ball_player_collision(None);
    assert_eq!(game.ball.velocity, Vec2 { x: 0, y: -500_000 });
    let mut game = on_the_paddle(560_000, 100_000, 350_000);
    game.check_ball_player_collision(None);
    assert_eq!(game.ball.velocity, Vec2 { x: 0, y: -364_005 });
}

#[test]
fn slanted_ball_on_the_paddle_center_leaves_straight_up() {
    let mut game = on_the_paddle(537_500, 300_000, 400_000);
    let bounce = game.pending_bounce().unwrap();
    assert_eq!(bounce.deflection, 0);
    assert_eq!(bounce.angle(), 0);
    assert_eq!(turned(&bounce), Vec2 { x: 0, y: -500_000 });
    // on this course the rebound plays no part
    game.check_ball_player_collision(Some(Vec2 { x: 0, y: -499_999 }));
    assert_eq!(game.ball.velocity, Vec2 { x: 0, y: -500_000 });
}

#[test]
fn falling_ball_on_the_paddle_edge_leaves_at_twenty_degrees() {
    let mut game = on_the_paddle(587_500, 0, 400_000);
    let bounce = game.pending_bounce().unwrap();
    assert_eq!(bounce.angle(), 20_000);
    let rebound = turned(&bounce);
    assert_eq!(rebound, Vec2 { x: 136_808, y: -375_877 });
    game.check_ball_player_collision(Some(rebound));
    assert_eq!(game.ball.velocity, rebound);
}

#[test]
fn rebound_that_is_too_fast_or_too_slow_is_not_taken() {
    let up = Vec2 { x: 0, y: -400_000 };
    let mut game = on_the_paddle(560_000, 0, 400_000);
    game.check_ball_player_collision(Some(Vec2 { x: 4_000_000, y: 1 }));
    assert_eq!(game.ball.velocity, up);
    let mut game = on_the_paddle(560_000, 0, 400_000);
    game.check_ball_player_collision(Some(Vec2 { x: 56_943, y: -359_524 }));
    assert_eq!(game.ball.velocity, up);
    let mut game = on_the_paddle(560_000, 0, 400_000);
    game.check_ball_player_collision(Some(Vec2 { x: 62_574, y: -395_080 }));
    assert_eq!(game.ball.velocity, up);
    let mut game = on_the_paddle(560_000, 0, 400_000);
    game.check_ball_player_collision(Some(Vec2 { x: 0, y: 0 }));
    assert_eq!(game.ball.velocity, up);
    // a unit more or less is rounding
    let bounce = game.check_ball_player_collision(None);
    assert_eq!(bounce, None);
    let wanted = on_the_paddle(560_000, 0, 400_000).pending_bounce().unwrap();
    assert_eq!(wanted.incoming_speed(), 400_000);
    assert!(wanted.accepts(&Vec2 { x: 62_574, y: -395_075 }));
    assert!(wanted.accepts(&Vec2 { x: 62_574, y: -395_076 }));
    assert!(wanted.accepts(&Vec2 { x: 62_574, y: -395_077 }));
    assert!(!wanted.accepts(&Vec2 { x: 62_574, y: -395_078 }));
    assert!(!wanted.accepts(&Vec2 { x: 62_574, y: -395_074 }));
}

#[test]
fn rebound_outside_the_cone_is_not_taken() {
    let steepest = Bounce { velocity: Vec2 { x: 0, y: -400_000 }, deflection: 45_000 };
    // level, downward, and flatter than 45 degrees
    assert!(!steepest.accepts(&Vec2 { x: 400_000, y: 0 }));
    assert!(!steepest.accepts(&Vec2 { x: 282_843, y: 282_843 }));
    assert!(!steepest.accepts(&Vec2 { x: 282_844, y: -282_842 }));
    // exactly 45 degrees is inside
    assert!(steepest.accepts(&Vec2 { x: 282_843, y: -282_843 }));
    let mut game = on_the_paddle(560_000, 0, 400_000);
    game.check_ball_player_collision(Some(Vec2 { x: 400_000, y: 0 }));
    assert_eq!(game.ball.velocity, Vec2 { x: 0, y: -400_000 });
}

#[test]
fn rebound_off_the_course_is_not_taken() {
    // the course is 9 degrees
    let wanted = on_the_paddle(560_000, 0, 400_000).pending_bounce().unwrap();
    assert_eq!(wanted.angle(), 9_000);
    // 400000 turned by 8 degrees, by 9 and by 12
    assert!(!wanted.accepts(&Vec2 { x: 55_669, y: -396_107 }));
    assert!(wanted.accepts(&Vec2 { x: 62_574, y: -395_075 }));
    assert!(!wanted.accepts(&Vec2 { x: 83_165, y: -391_259 }));
    // straight up, and 45 degrees
    assert!(!wanted.accepts(&Vec2 { x: 0, y: -400_000 }));
    assert!(!wanted.accepts(&Vec2 { x: 282_843, y: -282_843 }));
    let mut game = on_the_paddle(560_000, 0, 400_000);
    game.check_ball_player_collision(Some(Vec2 { x: 83_165, y: -391_259 }));
    assert_eq!(game.ball.velocity, Vec2 { x: 0, y: -400_000 });
}

#[test]
fn steep_rebound_is_not_taken_for_a_course_near_straight_up() {
    // the center of the ball is 500 right of the paddle's center: 0.2 degrees
    let mut game = on_the_paddle(538_000, 0, 400_000);
    let wanted = game.pending_bounce().unwrap();
    assert_eq!(wanted.angle(), 200);
    assert!(!wanted.accepts(&Vec2 { x: 282_843, y: -282_843 }));
    assert!(!wanted.accepts(&Vec2 { x: 6_981, y: -399_939 }));
    let rebound = turned(&wanted);
    assert_eq!(rebound, Vec2 { x: 1_396, y: -399_998 });
    assert!(wanted.accepts(&rebound));
    game.check_ball_player_collision(Some(Vec2 { x: 282_843, y: -282_843 }));
    assert_eq!(game.ball.velocity, Vec2 { x: 0, y: -400_000 });
}

#[test]
fn rebound_past_the_speed_limit_is_not_taken() {
    // at the speed limit, rounding both components up goes past the limit,
    // and rounding both down loses two units of speed
    let fastest = Bounce { velocity: Vec2 { x: 0, y: -4_194_304 }, deflection: 45_000 };
    assert_eq!(fastest.incoming_speed(), 4_194_304);
    assert!(!fastest.accepts(&Vec2 { x: 2_965_821, y: -2_965_821 }));
    assert!(!fastest.accepts(&Vec2 { x: 2_965_820, y: -2_965_820 }));
    assert!(fastest.accepts(&Vec2 { x: 2_965_820, y: -2_965_821 }));
    assert_eq!(fastest.resolve(Some(Vec2 { x: 2_965_821, y: -2_965_821 })), Vec2 {
        x: 0,
        y: -4_194_304,
    });
}

#[test]
fn velocity_turned_to_the_course_is_always_taken() {
    let speeds = [1, 2, 3, 10, 999, 1_000, 364_005, 400_000, 4_194_000];
    let mut course: i64 = -45_000;
    while course <= 45_000 {
        for speed in speeds.iter() {
            let bounce = Bounce { velocity: Vec2 { x: 0, y: -*speed }, deflection: course };
            let rebound = turned(&bounce);
            assert!(bounce.accepts(&rebound), "{} {} {:?}", course, speed, rebound);
            let slanted = Bounce { velocity: Vec2 { x: *speed, y: 0 }, deflection: course };
            assert!(slanted.accepts(&rebound), "{} {} {:?}", course, speed, rebound);
        }
        course += 125;
    }
}

#[test]
fn rebound_to_the_wrong_side_is_not_taken() {
    let right = on_the_paddle(560_000, 0, 400_000).pending_bounce().unwrap();
    assert!(right.angle() > 0);
    assert!(right.accepts(&Vec2 { x: 62_574, y: -395_075 }));
    assert!(!right.accepts(&Vec2 { x: -62_574, y: -395_075 }));
    let left = on_the_paddle(515_000, 0, 400_000).pending_bounce().unwrap();
    assert!(left.angle() < 0);
    assert!(left.accepts(&Vec2 { x: -62_574, y: -395_075 }));
    assert!(!left.accepts(&Vec2 { x: 62_574, y: -395_075 }));
    let middle = on_the_paddle(537_500, 0, 400_000).pending_bounce().unwrap();
    assert_eq!(middle.angle(), 0);
    assert!(middle.accepts(&Vec2 { x: 0, y: -400_000 }));
    assert!(!middle.accepts(&Vec2 { x: 1, y: -400_000 }));
}

#[test]
fn ball_at_rest_on_the_paddle_stays_at_rest() {
    let mut game = on_the_paddle(560_000, 0, 0);
    let bounce = game.check_ball_player_collision(Some(Vec2 { x: 0, y: -1 })).unwrap();
    assert_eq!(bounce.incoming_speed(), 0);
    assert_eq!(game.ball.velocity, Vec2 { x: 0, y: -1 });
    let mut game = on_the_paddle(560_000, 0, 0);
    game.check_ball_player_collision(None);
    assert_eq!(game.ball.velocity, Vec2 { x: 0, y: 0 });
}

#[test]
fn ball_leaves_the_paddle_upward_within_the_cone() {
    let rebounds = [
        None,
        Some(Vec2 { x: 4_000_000, y: 1 }),
        Some(Vec2 { x: -300_000, y: -300_000 }),
        Some(Vec2 { x: 62_574, y: -395_075 }),
        Some(Vec2 { x: -62_574, y: -395_075 }),
        Some(Vec2 { x: 0, y: 400_000 }),
    ];
    let mut x = 480_000;
    while x < 600_000 {
        for rebound in rebounds.iter() {
            for (vx, vy) in [(0, 400_000), (300_000, 264_575), (-390_000, 88_882)] {
                let mut game = on_the_paddle(x, vx, vy);
                let before = speed_squared(&game.ball);
                let bounce = game.check_ball_player_collision(*rebound).unwrap();
                let v = game.ball.velocity;
                assert!(v.y < 0 && v.y <= v.x && v.x <= -v.y, "{:?}", v);
                let kept = (before as f64).sqrt().floor() as i64;
                let speed = (speed_squared(&game.ball) as f64).sqrt().floor() as i64;
                assert!((kept - speed).abs() <= 1, "{} {}", kept, speed);
                assert!(bounce.angle() <= 0 || v.x >= 0);
                assert!(bounce.angle() >= 0 || v.x <= 0);
            }
        }
        x += 7_500;
    }
}

#[test]
fn ball_away_from_the_paddle_is_left_alone() {
    let ball = free_ball(100_000, 300_000, 100_000, 350_000);
    let mut game = game_with(ball, far_paddle(), vec![]);
    assert_eq!(game.check_ball_player_collision(Some(Vec2 { x: 1, y: -1 })), None);
    assert_eq!(game.ball, ball);
}

#[test]
fn pending_bounce_foretells_the_paddle() {
    let ball = free_ball(587_500, 570_000, 100_000, 350_000);
    let mut game = game_with(ball, far_paddle(), vec![]);
    let foretold = game.pending_bounce();
    assert_eq!(foretold, Some(Bounce { velocity: Vec2 { x: 100_000, y: -350_000 }, deflection: 20_000 }));
    assert_eq!(game.ball, ball);
    assert_eq!(game.check_ball_player_collision(None), foretold);
    assert_eq!(game.ball.velocity, Vec2 { x: 0, y: -364_005 });
    let away = game_with(free_ball(100_000, 300_000, 1, 1), far_paddle(), vec![]);
    assert_eq!(away.pending_bounce(), None);
}

#[test]
fn pending_bounce_looks_past_the_borders() {
    // the ball is past the right border; on the border it touches the paddle
    let paddle = Paddle::new(Vec2 { x: 700_000, y: 580_000 });
    let game = game_with(free_ball(900_000, 570_000, 100_000, 350_000), paddle, vec![]);
    let bounce = game.pending_bounce().unwrap();
    assert_eq!(bounce.velocity, Vec2 { x: -100_000, y: -350_000 });
    // center of the ball at 787500, center of the paddle at 750000
    assert_eq!(bounce.deflection, 15_000);
}

#[test]
fn bounce_angle_is_never_steeper_than_the_limit() {
    let deflections = [i64::MIN, -1_000_000, -45_001, -20_000, -1, 0, 1, 20_000, 45_001, i64::MAX];
    for deflection in deflections.iter() {
        let bounce = Bounce { velocity: Vec2 { x: 300_000, y: -1 }, deflection: *deflection };
        let angle = bounce.angle();
        assert!(-STEEPEST <= angle && angle <= STEEPEST);
    }
}

#[test]
fn bounce_angle_is_the_deflection_within_the_limit() {
    let at = |deflection: i64| Bounce { velocity: Vec2 { x: 300_000, y: -400_000 }, deflection };
    assert_eq!(at(0).angle(), 0);
    assert_eq!(at(FULL_DEFLECTION).angle(), 20_000);
    assert_eq!(at(-FULL_DEFLECTION).angle(), -20_000);
    assert_eq!(at(45_000).angle(), 45_000);
    assert_eq!(at(45_001).angle(), 45_000);
    assert_eq!(at(-45_001).angle(), -45_000);
    assert_eq!(at(9_000).angle(), 9_000);
    assert_eq!(at(9_000).incoming_speed(), 500_000);
}

#[test]
fn ball_destroys_the_brick_it_strikes() {
    // the ball comes from below: its center is 7500 under the brick
    let ball = free_ball(20_000, 45_000, 100_000, -350_000);
    let mut game = game_with(ball, far_paddle(), vec![brick_at(0, 0, false)]);
    game.check_ball_brick_collision();
    assert!(game.bricks[0].is_destroyed);
    assert_eq!(game.ball.velocity, Vec2 { x: 100_000, y: 350_000 });
    assert_eq!(game.ball.game_object.position, Vec2 { x: 20_000, y: 50_000 });
}

#[test]
fn ball_bounces_off_a_solid_brick_without_destroying_it() {
    let ball = free_ball(20_000, 45_000, 100_000, -350_000);
    let mut game = game_with(ball, far_paddle(), vec![brick_at(0, 0, true)]);
    game.check_ball_brick_collision();
    assert!(!game.bricks[0].is_destroyed);
    assert!(game.bricks[0].is_solid);
    assert_eq!(game.ball.velocity, Vec2 { x: 100_000, y: 350_000 });
    assert_eq!(game.ball.game_object.position, Vec2 { x: 20_000, y: 50_000 });
}

#[test]
fn ball_passes_through_a_destroyed_brick() {
    let ball = free_ball(20_000, 45_000, 100_000, -350_000);
    let mut brick = brick_at(0, 0, false);
    brick.is_destroyed = true;
    let mut game = game_with(ball, far_paddle(), vec![brick]);
    game.check_ball_brick_collision();
    assert_eq!(game.ball, ball);
    assert!(game.bricks[0].is_destroyed);
}

#[test]
fn ball_is_pushed_out_on_the_side_it_is_on() {
    // from the right of the brick, which ends at 66666
    let ball = free_ball(61_666, 12_500, -100_000, -350_000);
    let mut game = game_with(ball, far_paddle(), vec![brick_at(0, 0, false)]);
    game.check_ball_brick_collision();
    assert_eq!(game.ball.velocity, Vec2 { x: 100_000, y: -350_000 });
    assert_eq!(game.ball.game_object.position, Vec2 { x: 66_666, y: 12_500 });
    // from the left of the brick
    let ball = free_ball(80_000, 12_500, 100_000, -350_000);
    let mut game = game_with(ball, far_paddle(), vec![brick_at(100_000, 0, false)]);
    game.check_ball_brick_collision();
    assert_eq!(game.ball.velocity, Vec2 { x: -100_000, y: -350_000 });
    assert_eq!(game.ball.game_object.position, Vec2 { x: 75_000, y: 12_500 });
    // from above the brick
    let ball = free_ball(120_000, 80_000, 100_000, 350_000);
    let mut game = game_with(ball, far_paddle(), vec![brick_at(100_000, 100_000, false)]);
    game.check_ball_brick_collision();
    assert_eq!(game.ball.velocity, Vec2 { x: 100_000, y: -350_000 });
    assert_eq!(game.ball.game_object.position, Vec2 { x: 120_000, y: 75_000 });
}

#[test]
fn bricks_are_met_in_order() {
    // two bricks side by side; the ball strikes the first from below, is
    // pushed out, and no longer reaches the second
    let ball = free_ball(47_500, 45_000, 100_000, -350_000);
    let first = brick_at(0, 0, false);
    let second = brick_at(66_666, 0, false);
    let mut game = game_with(ball, far_paddle(), vec![first, second]);
    game.check_ball_brick_collision();
    assert!(game.bricks[0].is_destroyed);
    assert!(!game.bricks[1].is_destroyed);
    assert_eq!(game.ball.velocity, Vec2 { x: 100_000, y: 350_000 });
    assert_eq!(game.ball.game_object.position, Vec2 { x: 47_500, y: 50_000 });
    // alone, the second brick is struck
    let mut game = game_with(ball, far_paddle(), vec![second]);
    game.check_ball_brick_collision();
    assert!(game.bricks[0].is_destroyed);
}

#[test]
fn bricks_keep_the_speed() {
    let ball = free_ball(54_000, 45_000, 123_457, -350_003);
    let before = speed_squared(&ball);
    let mut bricks = vec![];
    let mut i = 0;
    while i < 12 {
        bricks.push(brick_at(i * 66_666, 0, i % 2 == 0));
        i += 1;
    }
    let mut game = game_with(ball, far_paddle(), bricks);
    game.check_ball_brick_collision();
    assert_eq!(speed_squared(&game.ball), before);
}

#[test]
fn solid_bricks_outlast_every_other_brick() {
    let mut bricks = vec![];
    let mut i = 0;
    while i < 12 {
        bricks.push(brick_at(i * 66_666, 0, i % 3 == 0));
        i += 1;
    }
    let mut game = game_with(free_ball(0, 45_000, 100_000, -350_000), far_paddle(), bricks);
    let mut x = 0;
    while x < 780_000 {
        game.ball = free_ball(x, 45_000, 100_000, -350_000);
        game.check_ball_brick_collision();
        x += 10_000;
    }
    for (i, brick) in game.bricks.iter().enumerate() {
        assert_eq!(brick.is_destroyed, !brick.is_solid, "brick {}", i);
    }
    // a solid brick still throws the ball back
    game.ball = free_ball(20_000, 45_000, 100_000, -350_000);
    game.check_ball_brick_collision();
    assert_eq!(game.ball.velocity, Vec2 { x: 100_000, y: 350_000 });
}

#[test]
fn ball_above_the_paddle_center_leaves_straight_up() {
    let ball = free_ball(537_500, 570_000, 0, 350_000);
    let mut game = game_with(ball, far_paddle(), vec![]);
    let bounce = game.pending_bounce().unwrap();
    assert_eq!(bounce.deflection, 0);
    let rebound = turned(&bounce);
    assert_eq!(rebound, Vec2 { x: 0, y: -350_000 });
    assert!(bounce.accepts(&rebound));
    game.update(0, Some(rebound));
    assert_eq!(game.ball.velocity, Vec2 { x: 0, y: -350_000 });
}

#[test]
fn ball_at_the_paddle_right_edge_leaves_twenty_degrees_from_vertical() {
    let ball = free_ball(587_500, 570_000, 0, 350_000);
    let mut game = game_with(ball, far_paddle(), vec![]);
    let bounce = game.pending_bounce().unwrap();
    assert_eq!(bounce.angle(), 20_000);
    let rebound = turned(&bounce);
    // 350000 * sin 20 and -350000 * cos 20, to the nearest unit
    assert_eq!(rebound, Vec2 { x: 119_707, y: -328_892 });
    game.update(0, Some(rebound));
    assert_eq!(game.ball.velocity, rebound);
    let before = 350_000f64 * 350_000f64;
    let after = speed_squared(&game.ball) as f64;
    assert!((after - before).abs() / before < 1e-5);
}
