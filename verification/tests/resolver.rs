// Tests for the ball interaction resolver and the whole tick pipeline.

use pong_core::config::BOUNDARY_X;
use pong_core::config::BOUNDARY_Y;
use pong_core::config::OPPONENT_SPEED;
use pong_core::config::OPPONENT_X;
use pong_core::config::PADDLE_WIDTH;
use pong_core::config::PLAYER_X;
use pong_core::config::SCALE;
use pong_core::config::WALL_CENTER_Y;
use pong_core::model::Ball;
use pong_core::model::GameState;
use pong_core::model::Paddle;
use pong_core::model::Wall;
use pong_core::systems::ball_reflection;
use pong_core::systems::tick;

fn make_state(player: Option<Paddle>, opponent: Option<Paddle>, ball: Option<Ball>) -> GameState {
    GameState {
        player,
        opponent,
        ball,
        top_wall: Wall { x: 0, y: WALL_CENTER_Y },
        bottom_wall: Wall { x: 0, y: -WALL_CENTER_Y },
    }
}

#[test]
fn round_reset_renormalizes_velocity() {
    // Ball one unit beyond the right boundary with velocity (3, 4): the
    // round resets, and the velocity comes back with unit length and
    // direction (0.6, 0.8).
    let ball = Ball { x: BOUNDARY_X + 1, y: 700, vx: 3 * SCALE, vy: 4 * SCALE };
    let mut s = make_state(None, None, Some(ball));
    ball_reflection(&mut s);
    let b = s.ball.unwrap();
    assert_eq!(b.x, 0);
    assert_eq!(b.y, 0);
    assert_eq!(b.vx, 60);
    assert_eq!(b.vy, 80);
    assert_eq!(b.vx * b.vx + b.vy * b.vy, SCALE * SCALE);
}

#[test]
fn round_reset_left_side() {
    let ball = Ball { x: -BOUNDARY_X - 200, y: -100, vx: -300, vy: 0 };
    let mut s = make_state(None, None, Some(ball));
    ball_reflection(&mut s);
    let b = s.ball.unwrap();
    assert_eq!((b.x, b.y), (0, 0));
    assert_eq!((b.vx, b.vy), (-SCALE, 0));
}

#[test]
fn round_reset_zero_velocity_falls_back_to_unit() {
    let ball = Ball { x: BOUNDARY_X + 500, y: 0, vx: 0, vy: 0 };
    let mut s = make_state(None, None, Some(ball));
    ball_reflection(&mut s);
    let b = s.ball.unwrap();
    assert_eq!((b.x, b.y), (0, 0));
    assert_eq!((b.vx, b.vy), (SCALE, 0));
}

#[test]
fn round_reset_truncates_toward_zero() {
    // (1, 1) has length sqrt(2): the renormalized components round down.
    let ball = Ball { x: BOUNDARY_X + 500, y: 0, vx: 100, vy: 100 };
    let mut s = make_state(None, None, Some(ball));
    ball_reflection(&mut s);
    let b = s.ball.unwrap();
    assert_eq!((b.vx, b.vy), (70, 70));
}

#[test]
fn vertical_boundary_clamps_and_reflects() {
    // Ball five units above the top boundary moving up: clamped back to
    // the boundary, vertical velocity inverted.
    let ball = Ball { x: 0, y: BOUNDARY_Y + 5 * SCALE, vx: 0, vy: 2 * SCALE };
    let mut s = make_state(None, None, Some(ball));
    ball_reflection(&mut s);
    let b = s.ball.unwrap();
    assert_eq!(b.y, BOUNDARY_Y);
    assert_eq!(b.vy, -2 * SCALE);
    assert_eq!(b.x, 0);
}

#[test]
fn vertical_boundary_clamps_below() {
    let ball = Ball { x: 100, y: -BOUNDARY_Y - 40, vx: 50, vy: -60 };
    let mut s = make_state(None, None, Some(ball));
    ball_reflection(&mut s);
    let b = s.ball.unwrap();
    assert_eq!(b.y, -BOUNDARY_Y);
    assert_eq!(b.vy, 60);
}

#[test]
fn player_hit_nudges_before_scaling() {
    // Paddle moving up: vy gains the 0.05 nudge first, then the 1.05
    // scale-up: (0.15 + 0.05) * 1.05 = 0.21, not 0.15 * 1.05 + 0.05 = 0.20.
    let player = Paddle { x: PLAYER_X, y: 0, vx: 0, vy: 200 };
    let ball = Ball { x: PLAYER_X - 200, y: 0, vx: 100, vy: 15 };
    let mut s = make_state(Some(player), None, Some(ball));
    ball_reflection(&mut s);
    let b = s.ball.unwrap();
    assert_eq!(b.vy, 21);
    assert_eq!(b.vx, -105);
    assert_eq!(b.x, PLAYER_X - PADDLE_WIDTH);
}

#[test]
fn player_hit_reflects_and_scales() {
    // Stationary paddle: vx reflects and scales by 1.05, vy only scales.
    let player = Paddle { x: PLAYER_X, y: 0, vx: 0, vy: 0 };
    let ball = Ball { x: PLAYER_X - 300, y: 100, vx: 200, vy: 100 };
    let mut s = make_state(Some(player), None, Some(ball));
    ball_reflection(&mut s);
    let b = s.ball.unwrap();
    assert_eq!(b.vx, -210);
    assert_eq!(b.vy, 105);
    assert_eq!(b.x, PLAYER_X - PADDLE_WIDTH);
    assert_eq!(b.y, 100);
}

#[test]
fn player_hit_down_nudge() {
    let player = Paddle { x: PLAYER_X, y: 0, vx: 0, vy: -200 };
    let ball = Ball { x: PLAYER_X - 200, y: 0, vx: 100, vy: 40 };
    let mut s = make_state(Some(player), None, Some(ball));
    ball_reflection(&mut s);
    // (0.40 - 0.05) * 1.05 = 0.3675, truncated toward zero to 0.36.
    assert_eq!(s.ball.unwrap().vy, 36);
}

#[test]
fn speedup_rounds_toward_zero() {
    let player = Paddle { x: PLAYER_X, y: 0, vx: 0, vy: 0 };
    let ball = Ball { x: PLAYER_X - 200, y: 0, vx: -3, vy: 0 };
    let mut s = make_state(Some(player), None, Some(ball));
    ball_reflection(&mut s);
    // 0.03 * 1.05 = 0.0315 truncates to 0.03, with the sign reflected.
    assert_eq!(s.ball.unwrap().vx, 3);
}

#[test]
fn opponent_hit_reflects_without_speedup() {
    let opponent = Paddle { x: OPPONENT_X, y: 0, vx: 0, vy: 0 };
    let ball = Ball { x: OPPONENT_X + 300, y: -200, vx: -100, vy: 40 };
    let mut s = make_state(None, Some(opponent), Some(ball));
    ball_reflection(&mut s);
    let b = s.ball.unwrap();
    assert_eq!(b.vx, 100);
    assert_eq!(b.vy, 40);
    assert_eq!(b.x, OPPONENT_X + PADDLE_WIDTH);
}

#[test]
fn opponent_hit_moving_paddle_nudges() {
    let opponent = Paddle { x: OPPONENT_X, y: 0, vx: 0, vy: OPPONENT_SPEED };
    let ball = Ball { x: OPPONENT_X + 300, y: 0, vx: -100, vy: 40 };
    let mut s = make_state(None, Some(opponent), Some(ball));
    ball_reflection(&mut s);
    assert_eq!(s.ball.unwrap().vy, 45);
}

#[test]
fn resolver_without_ball_is_noop() {
    let player = Paddle { x: PLAYER_X, y: 400, vx: 0, vy: 0 };
    let mut s = make_state(Some(player), None, None);
    ball_reflection(&mut s);
    assert_eq!(s.ball, None);
    assert_eq!(s.player.unwrap().y, 400);
}

#[test]
fn tick_without_ball_runs_paddle_stages_alone() {
    // Removing the ball must not crash the pipeline: the player still
    // follows input and clamping, the opponent keeps its old velocity.
    let player = Paddle { x: PLAYER_X, y: 8400, vx: 0, vy: 0 };
    let opponent = Paddle { x: OPPONENT_X, y: 0, vx: 0, vy: 100 };
    let mut s = make_state(Some(player), Some(opponent), None);
    tick(&mut s, true, false);
    let p = s.player.unwrap();
    let o = s.opponent.unwrap();
    assert_eq!(p.y, 8500);
    assert_eq!(p.vy, 200);
    assert_eq!(o.y, 100);
    assert_eq!(o.vy, 100);
    assert_eq!(s.ball, None);
}

#[test]
fn tick_keeps_paddle_inside_walls() {
    // Holding "up" at the top: the paddle never passes PADDLE_MAX_Y.
    let player = Paddle { x: PLAYER_X, y: 8500, vx: 0, vy: 0 };
    let mut s = make_state(Some(player), None, None);
    tick(&mut s, true, false);
    assert_eq!(s.player.unwrap().y, 8500);
    tick(&mut s, true, false);
    assert_eq!(s.player.unwrap().y, 8500);
}

#[test]
fn first_tick_of_a_match() {
    // From the initial state with no input: the opponent decides on the
    // pre-integration ball height (a tie, so it moves down), every entity
    // then advances by its velocity, and nothing collides.
    let mut s = GameState::new_match();
    tick(&mut s, false, false);
    let b = s.ball.unwrap();
    assert_eq!((b.x, b.y, b.vx, b.vy), (100, 100, 100, 100));
    let p = s.player.unwrap();
    assert_eq!((p.y, p.vy), (0, 0));
    let o = s.opponent.unwrap();
    assert_eq!((o.y, o.vy), (-100, -100));
}

#[test]
fn paddle_hit_and_vertical_clamp_can_share_a_tick() {
    // A hit and the vertical boundary act on independent axes: both fire.
    let player = Paddle { x: PLAYER_X, y: BOUNDARY_Y + 100, vx: 0, vy: 0 };
    let ball = Ball { x: PLAYER_X - 200, y: BOUNDARY_Y + 100, vx: 100, vy: 30 };
    let mut s = make_state(Some(player), None, Some(ball));
    ball_reflection(&mut s);
    let b = s.ball.unwrap();
    assert_eq!(b.vx, -105);
    assert_eq!(b.y, BOUNDARY_Y);
    assert_eq!(b.vy, -31);
    assert_eq!(b.x, PLAYER_X - PADDLE_WIDTH);
}
