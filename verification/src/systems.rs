//! The executable systems of the tick pipeline.
//!
//! Each system is proved equal to its stage function of the model, and
//! `tick` runs the five systems in their fixed order: velocities are final
//! before integration, positions are final before boundary enforcement,
//! and boundary-corrected paddle positions are final before the ball
//! interaction pass reads them.

use vstd::prelude::*;
use crate::arith::mul_speedup;
use crate::arith::normalize_velocity;
use crate::config::BALL_SIZE;
use crate::config::BOUNDARY_X;
use crate::config::BOUNDARY_Y;
use crate::config::COORD_LIMIT;
use crate::config::HIT_NUDGE;
use crate::config::OPPONENT_SPEED;
use crate::config::PADDLE_HEIGHT;
use crate::config::PADDLE_MAX_Y;
use crate::config::PADDLE_WIDTH;
use crate::config::PLAYER_SPEED;
use crate::config::SPEED_LIMIT;
use crate::config::TICK_COORD_LIMIT;
use crate::config::WALL_HEIGHT;
use crate::config::WALL_WIDTH;
use crate::geometry::aabb_overlap;
use crate::model::Ball;
use crate::model::GameState;
use crate::model::Paddle;
use crate::model::Wall;
use crate::model::clamped_paddle;
use crate::model::spec_enforce_paddles;
use crate::model::spec_integrate;
use crate::model::spec_opponent_decision;
use crate::model::spec_player_input;
use crate::model::spec_resolve_ball;
use crate::model::spec_tick;
use crate::model::state_bounded;

verus! {

/// Input mapper: clears the player paddle's velocity, then lets "down" and
/// "up" overwrite it in turn, so "up" wins when both are held. A no-op
/// when the player paddle is absent.
pub fn player_movement_input(s: &mut GameState, up: bool, down: bool)
    ensures
        final(s)@ == spec_player_input(old(s)@, up, down),
{
    match s.player {
        Some(p) => {
            let mut q = p;
            q.vx = 0;
            q.vy = 0;
            if down {
                q.vy = -PLAYER_SPEED;
            }
            if up {
                q.vy = PLAYER_SPEED;
            }
            s.player = Some(q);
        },
        None => {},
    }
}

/// Opponent controller: moves the opponent paddle toward the ball, one
/// unit per tick, downward on ties. A no-op when either entity is absent.
pub fn ai_movement(s: &mut GameState)
    ensures
        final(s)@ == spec_opponent_decision(old(s)@),
{
    match (s.opponent, s.ball) {
        (Some(o), Some(b)) => {
            let mut q = o;
            if b.y <= o.y {
                q.vy = -OPPONENT_SPEED;
            } else {
                q.vy = OPPONENT_SPEED;
            }
            s.opponent = Some(q);
        },
        _ => {},
    }
}

/// Motion integrator: advances every present moving entity by its
/// velocity, once per fixed step; walls are static.
pub fn movable_system(s: &mut GameState)
    requires
        state_bounded(old(s)@, COORD_LIMIT as int, SPEED_LIMIT as int),
    ensures
        final(s)@ == spec_integrate(old(s)@),
{
    match s.player {
        Some(p) => {
            s.player = Some(Paddle { x: p.x + p.vx, y: p.y + p.vy, vx: p.vx, vy: p.vy });
        },
        None => {},
    }
    match s.opponent {
        Some(o) => {
            s.opponent = Some(Paddle { x: o.x + o.vx, y: o.y + o.vy, vx: o.vx, vy: o.vy });
        },
        None => {},
    }
    match s.ball {
        Some(b) => {
            s.ball = Some(Ball { x: b.x + b.vx, y: b.y + b.vy, vx: b.vx, vy: b.vy });
        },
        None => {},
    }
}

/// One paddle clamped against the two walls, bottom first, then top, both
/// every tick: a correction pass, not an event.
fn clamp_paddle(p: Paddle, bottom: Wall, top: Wall) -> (r: Paddle)
    requires
        -COORD_LIMIT <= p.x <= COORD_LIMIT,
        -COORD_LIMIT <= p.y <= COORD_LIMIT,
        -COORD_LIMIT <= bottom.x <= COORD_LIMIT,
        -COORD_LIMIT <= bottom.y <= COORD_LIMIT,
        -COORD_LIMIT <= top.x <= COORD_LIMIT,
        -COORD_LIMIT <= top.y <= COORD_LIMIT,
    ensures
        r@ == clamped_paddle(p@, bottom@, top@),
{
    let mut q = p;
    if aabb_overlap(q.x, q.y, PADDLE_WIDTH, PADDLE_HEIGHT, bottom.x, bottom.y, WALL_WIDTH,
        WALL_HEIGHT) {
        q.y = -PADDLE_MAX_Y;
    }
    if aabb_overlap(q.x, q.y, PADDLE_WIDTH, PADDLE_HEIGHT, top.x, top.y, WALL_WIDTH, WALL_HEIGHT) {
        q.y = PADDLE_MAX_Y;
    }
    q
}

/// Paddle boundary enforcer: clamps both paddles, independently, against
/// the bottom and top walls.
pub fn paddle_movement_constraint(s: &mut GameState)
    requires
        state_bounded(old(s)@, COORD_LIMIT as int, SPEED_LIMIT as int),
    ensures
        final(s)@ == spec_enforce_paddles(old(s)@),
{
    let bottom = s.bottom_wall;
    let top = s.top_wall;
    match s.player {
        Some(p) => {
            s.player = Some(clamp_paddle(p, bottom, top));
        },
        None => {},
    }
    match s.opponent {
        Some(o) => {
            s.opponent = Some(clamp_paddle(o, bottom, top));
        },
        None => {},
    }
}

/// Ball interaction resolver: the four checks of the interaction pass in
/// their fixed order — player hit, opponent hit, horizontal boundary
/// (round reset), vertical boundary (clamp). A no-op when the ball is
/// absent.
pub fn ball_reflection(s: &mut GameState)
    requires
        state_bounded(old(s)@, COORD_LIMIT as int, SPEED_LIMIT as int),
    ensures
        final(s)@ == spec_resolve_ball(old(s)@),
{
    let player = s.player;
    let opponent = s.opponent;
    match s.ball {
        Some(b0) => {
            let mut b = b0;
            match player {
                Some(p) => {
                    if aabb_overlap(p.x, p.y, PADDLE_WIDTH, PADDLE_HEIGHT, b.x, b.y, BALL_SIZE,
                        BALL_SIZE) {
                        b.vx = mul_speedup(-b.vx);
                        if p.vy > 0 {
                            b.vy = b.vy + HIT_NUDGE;
                        } else if p.vy < 0 {
                            b.vy = b.vy - HIT_NUDGE;
                        }
                        b.vy = mul_speedup(b.vy);
                        b.x = p.x - PADDLE_WIDTH;
                    }
                },
                None => {},
            }
            match opponent {
                Some(o) => {
                    if aabb_overlap(o.x, o.y, PADDLE_WIDTH, PADDLE_HEIGHT, b.x, b.y, BALL_SIZE,
                        BALL_SIZE) {
                        b.vx = -b.vx;
                        if o.vy > 0 {
                            b.vy = b.vy + HIT_NUDGE;
                        } else if o.vy < 0 {
                            b.vy = b.vy - HIT_NUDGE;
                        }
                        b.x = o.x + PADDLE_WIDTH;
                    }
                },
                None => {},
            }
            if b.x > BOUNDARY_X || b.x < -BOUNDARY_X {
                b.x = 0;
                b.y = 0;
                let v = normalize_velocity(b.vx, b.vy);
                b.vx = v.0;
                b.vy = v.1;
            }
            if b.y > BOUNDARY_Y || b.y < -BOUNDARY_Y {
                b.vy = -b.vy;
                if b.y > BOUNDARY_Y {
                    b.y = BOUNDARY_Y;
                } else {
                    b.y = -BOUNDARY_Y;
                }
            }
            s.ball = Some(b);
        },
        None => {},
    }
}

/// One whole tick of the simulation: the five systems in their fixed,
/// load-bearing order.
pub fn tick(s: &mut GameState, up: bool, down: bool)
    requires
        state_bounded(old(s)@, TICK_COORD_LIMIT as int, SPEED_LIMIT as int),
    ensures
        final(s)@ == spec_tick(old(s)@, up, down),
{
    player_movement_input(s, up, down);
    ai_movement(s);
    movable_system(s);
    paddle_movement_constraint(s);
    ball_reflection(s);
}

} // verus!
