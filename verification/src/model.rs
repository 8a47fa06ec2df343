//! The entity store and the mathematical model of one simulation tick.
//!
//! The store is a struct of fixed fields: one player paddle, one opponent
//! paddle, one ball (each optional, so that a partially set up match never
//! crashes the loop) and the two static walls. Each executable record has a
//! ghost view over mathematical integers, and every stage of the tick is
//! defined here as a function on whole views; the executable systems are
//! proved equal to these functions.

use vstd::prelude::*;
use crate::arith::normalized_vx;
use crate::arith::normalized_vy;
use crate::arith::scale_up;
use crate::config::BALL_SIZE;
use crate::config::BALL_START_SPEED;
use crate::config::BOUNDARY_X;
use crate::config::BOUNDARY_Y;
use crate::config::HIT_NUDGE;
use crate::config::OPPONENT_SPEED;
use crate::config::OPPONENT_X;
use crate::config::PADDLE_HEIGHT;
use crate::config::PADDLE_MAX_Y;
use crate::config::PADDLE_WIDTH;
use crate::config::PLAYER_SPEED;
use crate::config::PLAYER_X;
use crate::config::WALL_CENTER_Y;
use crate::config::WALL_HEIGHT;
use crate::config::WALL_WIDTH;
use crate::geometry::rects_overlap;

verus! {

/// A paddle: center position, velocity; the size is configured.
#[derive(Clone, Copy, PartialEq, Eq, Structural, Debug)]
pub struct Paddle {
    pub x: i64,
    pub y: i64,
    pub vx: i64,
    pub vy: i64,
}

/// The ball: center position, velocity; the size is configured.
#[derive(Clone, Copy, PartialEq, Eq, Structural, Debug)]
pub struct Ball {
    pub x: i64,
    pub y: i64,
    pub vx: i64,
    pub vy: i64,
}

/// A wall: fixed center position; the size is configured. Walls never move.
#[derive(Clone, Copy, PartialEq, Eq, Structural, Debug)]
pub struct Wall {
    pub x: i64,
    pub y: i64,
}

/// The entity store: the fixed population of one match. The three moving
/// entities are optional so that every stage degrades to a no-op when its
/// entity is absent.
#[derive(Clone, Copy, PartialEq, Eq, Structural, Debug)]
pub struct GameState {
    pub player: Option<Paddle>,
    pub opponent: Option<Paddle>,
    pub ball: Option<Ball>,
    pub top_wall: Wall,
    pub bottom_wall: Wall,
}

/// Mathematical view of a paddle.
pub ghost struct PaddleV {
    pub x: int,
    pub y: int,
    pub vx: int,
    pub vy: int,
}

/// Mathematical view of the ball.
pub ghost struct BallV {
    pub x: int,
    pub y: int,
    pub vx: int,
    pub vy: int,
}

/// Mathematical view of a wall.
pub ghost struct WallV {
    pub x: int,
    pub y: int,
}

/// Mathematical view of the whole store.
pub ghost struct StateV {
    pub player: Option<PaddleV>,
    pub opponent: Option<PaddleV>,
    pub ball: Option<BallV>,
    pub top_wall: WallV,
    pub bottom_wall: WallV,
}

impl View for Paddle {
    type V = PaddleV;

    open spec fn view(&self) -> PaddleV {
        PaddleV { x: self.x as int, y: self.y as int, vx: self.vx as int, vy: self.vy as int }
    }
}

impl View for Ball {
    type V = BallV;

    open spec fn view(&self) -> BallV {
        BallV { x: self.x as int, y: self.y as int, vx: self.vx as int, vy: self.vy as int }
    }
}

impl View for Wall {
    type V = WallV;

    open spec fn view(&self) -> WallV {
        WallV { x: self.x as int, y: self.y as int }
    }
}

impl View for GameState {
    type V = StateV;

    open spec fn view(&self) -> StateV {
        StateV {
            player: match self.player {
                Some(p) => Some(p@),
                None => None,
            },
            opponent: match self.opponent {
                Some(o) => Some(o@),
                None => None,
            },
            ball: match self.ball {
                Some(b) => Some(b@),
                None => None,
            },
            top_wall: self.top_wall@,
            bottom_wall: self.bottom_wall@,
        }
    }
}

/// Whether a paddle and a wall overlap.
pub open spec fn paddle_wall_overlap(p: PaddleV, w: WallV) -> bool {
    rects_overlap(p.x, p.y, PADDLE_WIDTH as int, PADDLE_HEIGHT as int, w.x, w.y, WALL_WIDTH as int,
        WALL_HEIGHT as int)
}

/// Whether a paddle and the ball overlap.
pub open spec fn paddle_ball_overlap(p: PaddleV, b: BallV) -> bool {
    rects_overlap(p.x, p.y, PADDLE_WIDTH as int, PADDLE_HEIGHT as int, b.x, b.y, BALL_SIZE as int,
        BALL_SIZE as int)
}

/// Player paddle velocity chosen by the input mapper: the velocity is
/// cleared every tick, "down" then "up" each overwrite it in turn, so "up"
/// wins when both signals are held.
pub open spec fn player_input_vy(up: bool, down: bool) -> int {
    if up {
        PLAYER_SPEED as int
    } else if down {
        -PLAYER_SPEED as int
    } else {
        0
    }
}

/// Input mapper: sets the player paddle's velocity from the two input
/// signals; everything else is untouched.
pub open spec fn spec_player_input(s: StateV, up: bool, down: bool) -> StateV {
    match s.player {
        Some(p) => StateV {
            player: Some(PaddleV { x: p.x, y: p.y, vx: 0, vy: player_input_vy(up, down) }),
            opponent: s.opponent,
            ball: s.ball,
            top_wall: s.top_wall,
            bottom_wall: s.bottom_wall,
        },
        None => s,
    }
}

/// Opponent policy: chase the ball, one unit per tick, downward on ties.
pub open spec fn opponent_chase_vy(ball_y: int, opponent_y: int) -> int {
    if ball_y <= opponent_y {
        -OPPONENT_SPEED as int
    } else {
        OPPONENT_SPEED as int
    }
}

/// Opponent controller: sets the opponent paddle's vertical velocity from
/// the ball's height; a no-op when either entity is absent.
pub open spec fn spec_opponent_decision(s: StateV) -> StateV {
    match (s.opponent, s.ball) {
        (Some(o), Some(b)) => StateV {
            player: s.player,
            opponent: Some(PaddleV { x: o.x, y: o.y, vx: o.vx, vy: opponent_chase_vy(b.y, o.y) }),
            ball: s.ball,
            top_wall: s.top_wall,
            bottom_wall: s.bottom_wall,
        },
        _ => s,
    }
}

/// A paddle advanced by its velocity for one fixed step.
pub open spec fn moved_paddle(p: PaddleV) -> PaddleV {
    PaddleV { x: p.x + p.vx, y: p.y + p.vy, vx: p.vx, vy: p.vy }
}

/// The ball advanced by its velocity for one fixed step.
pub open spec fn moved_ball(b: BallV) -> BallV {
    BallV { x: b.x + b.vx, y: b.y + b.vy, vx: b.vx, vy: b.vy }
}

/// Motion integrator: advances every moving entity by its velocity; walls
/// are static.
pub open spec fn spec_integrate(s: StateV) -> StateV {
    StateV {
        player: match s.player {
            Some(p) => Some(moved_paddle(p)),
            None => None,
        },
        opponent: match s.opponent {
            Some(o) => Some(moved_paddle(o)),
            None => None,
        },
        ball: match s.ball {
            Some(b) => Some(moved_ball(b)),
            None => None,
        },
        top_wall: s.top_wall,
        bottom_wall: s.bottom_wall,
    }
}

/// One paddle clamped against the two walls: on overlap with the bottom
/// wall the paddle is pinned at `-PADDLE_MAX_Y`, then on overlap with the
/// top wall at `PADDLE_MAX_Y`; both corrections run every tick.
pub open spec fn clamped_paddle(p: PaddleV, bottom: WallV, top: WallV) -> PaddleV {
    let p1 = if paddle_wall_overlap(p, bottom) {
        PaddleV { x: p.x, y: -PADDLE_MAX_Y as int, vx: p.vx, vy: p.vy }
    } else {
        p
    };
    if paddle_wall_overlap(p1, top) {
        PaddleV { x: p1.x, y: PADDLE_MAX_Y as int, vx: p1.vx, vy: p1.vy }
    } else {
        p1
    }
}

/// Paddle boundary enforcer: clamps both paddles independently.
pub open spec fn spec_enforce_paddles(s: StateV) -> StateV {
    StateV {
        player: match s.player {
            Some(p) => Some(clamped_paddle(p, s.bottom_wall, s.top_wall)),
            None => None,
        },
        opponent: match s.opponent {
            Some(o) => Some(clamped_paddle(o, s.bottom_wall, s.top_wall)),
            None => None,
        },
        ball: s.ball,
        top_wall: s.top_wall,
        bottom_wall: s.bottom_wall,
    }
}

/// The ball's vertical velocity after a paddle hit: a paddle moving up
/// nudges it up by `HIT_NUDGE`, one moving down nudges it down, a
/// stationary paddle leaves it unchanged.
pub open spec fn nudged_vy(ball_vy: int, paddle_vy: int) -> int {
    if paddle_vy > 0 {
        ball_vy + HIT_NUDGE
    } else if paddle_vy < 0 {
        ball_vy - HIT_NUDGE
    } else {
        ball_vy
    }
}

/// The ball after the player-paddle check: on overlap the horizontal
/// velocity reflects, the paddle's motion nudges the vertical velocity,
/// both components speed up by 1.05, and the ball is pushed just outside
/// the paddle on the player's side.
pub open spec fn ball_after_player_hit(b: BallV, p: PaddleV) -> BallV {
    if paddle_ball_overlap(p, b) {
        BallV {
            x: p.x - PADDLE_WIDTH,
            y: b.y,
            vx: scale_up(-b.vx),
            vy: scale_up(nudged_vy(b.vy, p.vy)),
        }
    } else {
        b
    }
}

/// The ball after the opponent-paddle check: reflection and nudge as for
/// the player, but with no speed-up, and the push-out lands on the
/// opponent's side.
pub open spec fn ball_after_opponent_hit(b: BallV, o: PaddleV) -> BallV {
    if paddle_ball_overlap(o, b) {
        BallV { x: o.x + PADDLE_WIDTH, y: b.y, vx: -b.vx, vy: nudged_vy(b.vy, o.vy) }
    } else {
        b
    }
}

/// The ball after the horizontal boundary check: out of play beyond
/// `BOUNDARY_X`, the round resets — the ball returns to the center and its
/// velocity is renormalized to unit speed, direction kept.
pub open spec fn ball_after_horizontal_boundary(b: BallV) -> BallV {
    if b.x > BOUNDARY_X || b.x < -BOUNDARY_X {
        BallV { x: 0, y: 0, vx: normalized_vx(b.vx, b.vy), vy: normalized_vy(b.vx, b.vy) }
    } else {
        b
    }
}

/// The ball after the vertical boundary check: beyond `BOUNDARY_Y` the
/// vertical velocity inverts and the ball is clamped back to the exceeded
/// boundary.
pub open spec fn ball_after_vertical_boundary(b: BallV) -> BallV {
    if b.y > BOUNDARY_Y {
        BallV { x: b.x, y: BOUNDARY_Y as int, vx: b.vx, vy: -b.vy }
    } else if b.y < -BOUNDARY_Y {
        BallV { x: b.x, y: -BOUNDARY_Y as int, vx: b.vx, vy: -b.vy }
    } else {
        b
    }
}

/// The ball after the whole interaction pass: the four checks run
/// unconditionally in this order, each reading the previous one's result.
pub open spec fn resolved_ball(b: BallV, player: Option<PaddleV>, opponent: Option<PaddleV>) -> BallV {
    let b1 = match player {
        Some(p) => ball_after_player_hit(b, p),
        None => b,
    };
    let b2 = match opponent {
        Some(o) => ball_after_opponent_hit(b1, o),
        None => b1,
    };
    ball_after_vertical_boundary(ball_after_horizontal_boundary(b2))
}

/// Ball interaction resolver: resolves paddle hits and boundary events; a
/// no-op when the ball is absent.
pub open spec fn spec_resolve_ball(s: StateV) -> StateV {
    match s.ball {
        Some(b) => StateV {
            player: s.player,
            opponent: s.opponent,
            ball: Some(resolved_ball(b, s.player, s.opponent)),
            top_wall: s.top_wall,
            bottom_wall: s.bottom_wall,
        },
        None => s,
    }
}

/// The state after the paddle stages of one tick: input mapping, opponent
/// decision, motion integration and boundary enforcement, in that order.
pub open spec fn spec_pre_resolve(s: StateV, up: bool, down: bool) -> StateV {
    spec_enforce_paddles(spec_integrate(spec_opponent_decision(spec_player_input(s, up, down))))
}

/// One whole tick: the five stages in their fixed, load-bearing order.
pub open spec fn spec_tick(s: StateV, up: bool, down: bool) -> StateV {
    spec_resolve_ball(spec_pre_resolve(s, up, down))
}

/// Bounds on one entity's position and velocity.
pub open spec fn entity_bounded(x: int, y: int, vx: int, vy: int, climit: int, vlimit: int) -> bool {
    &&& -climit <= x <= climit
    &&& -climit <= y <= climit
    &&& -vlimit <= vx <= vlimit
    &&& -vlimit <= vy <= vlimit
}

/// Machine-limit bounds on a whole state: every present entity's position
/// within `climit` and velocity within `vlimit`, walls within `climit`.
pub open spec fn state_bounded(s: StateV, climit: int, vlimit: int) -> bool {
    &&& match s.player {
        Some(p) => entity_bounded(p.x, p.y, p.vx, p.vy, climit, vlimit),
        None => true,
    }
    &&& match s.opponent {
        Some(o) => entity_bounded(o.x, o.y, o.vx, o.vy, climit, vlimit),
        None => true,
    }
    &&& match s.ball {
        Some(b) => entity_bounded(b.x, b.y, b.vx, b.vy, climit, vlimit),
        None => true,
    }
    &&& -climit <= s.top_wall.x <= climit
    &&& -climit <= s.top_wall.y <= climit
    &&& -climit <= s.bottom_wall.x <= climit
    &&& -climit <= s.bottom_wall.y <= climit
}

/// A paddle of a well-formed match state: pinned to its side, never moving
/// horizontally, inside the walls, no faster than the player's speed.
pub open spec fn wf_paddle(p: PaddleV, side_x: int) -> bool {
    &&& p.x == side_x
    &&& p.vx == 0
    &&& -PADDLE_MAX_Y <= p.y <= PADDLE_MAX_Y
    &&& -PLAYER_SPEED <= p.vy <= PLAYER_SPEED
}

/// A well-formed match state, as constructed at match start and preserved
/// by every tick: paddles pinned to their sides and inside the walls, the
/// ball inside the boundaries, the walls in their configured places.
pub open spec fn wf_state(s: StateV) -> bool {
    &&& match s.player {
        Some(p) => wf_paddle(p, PLAYER_X as int),
        None => true,
    }
    &&& match s.opponent {
        Some(o) => wf_paddle(o, OPPONENT_X as int),
        None => true,
    }
    &&& match s.ball {
        Some(b) => -BOUNDARY_X <= b.x <= BOUNDARY_X && -BOUNDARY_Y <= b.y <= BOUNDARY_Y,
        None => true,
    }
    &&& s.top_wall == (WallV { x: 0, y: WALL_CENTER_Y as int })
    &&& s.bottom_wall == (WallV { x: 0, y: -WALL_CENTER_Y as int })
}

impl GameState {
    /// The state at match start: paddles centered on their sides, the ball
    /// at the center moving diagonally at unit speed, walls just outside
    /// the vertical boundaries.
    pub fn new_match() -> (s: GameState)
        ensures
            s@ == (StateV {
                player: Some(PaddleV { x: PLAYER_X as int, y: 0, vx: 0, vy: 0 }),
                opponent: Some(PaddleV { x: OPPONENT_X as int, y: 0, vx: 0, vy: 0 }),
                ball: Some(
                    BallV {
                        x: 0,
                        y: 0,
                        vx: BALL_START_SPEED as int,
                        vy: BALL_START_SPEED as int,
                    },
                ),
                top_wall: WallV { x: 0, y: WALL_CENTER_Y as int },
                bottom_wall: WallV { x: 0, y: -WALL_CENTER_Y as int },
            }),
            wf_state(s@),
    {
        GameState {
            player: Some(Paddle { x: PLAYER_X, y: 0, vx: 0, vy: 0 }),
            opponent: Some(Paddle { x: OPPONENT_X, y: 0, vx: 0, vy: 0 }),
            ball: Some(Ball { x: 0, y: 0, vx: BALL_START_SPEED, vy: BALL_START_SPEED }),
            top_wall: Wall { x: 0, y: WALL_CENTER_Y },
            bottom_wall: Wall { x: 0, y: -WALL_CENTER_Y },
        }
    }
}

} // verus!
