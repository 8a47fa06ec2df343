//! Proved laws of the tick pipeline.
//!
//! These public proof functions state the guarantees of the simulation
//! over the model of one tick: paddles never leave the walls, the boundary
//! enforcer is a stable correction, a player hit reflects and speeds the
//! ball up in a fixed order, a well-formed state stays well-formed, and a
//! missing ball degrades the tick to the paddle stages alone.

use vstd::prelude::*;
use vstd::arithmetic::div_mod::lemma_div_is_ordered;
use vstd::arithmetic::div_mod::lemma_div_multiples_vanish;
use crate::arith::div_trunc;
use crate::arith::scale_up;
use crate::config::BOUNDARY_Y;
use crate::config::HIT_NUDGE;
use crate::config::OPPONENT_SPEED;
use crate::config::OPPONENT_X;
use crate::config::PADDLE_MAX_Y;
use crate::config::PLAYER_X;
use crate::config::SPEEDUP_DEN;
use crate::config::SPEEDUP_NUM;
use crate::config::WALL_CENTER_Y;
use crate::geometry::abs_int;
use crate::model::BallV;
use crate::model::PaddleV;
use crate::model::StateV;
use crate::model::WallV;
use crate::model::paddle_ball_overlap;
use crate::model::resolved_ball;
use crate::model::spec_enforce_paddles;
use crate::model::spec_integrate;
use crate::model::spec_opponent_decision;
use crate::model::spec_player_input;
use crate::model::spec_pre_resolve;
use crate::model::spec_resolve_ball;
use crate::model::spec_tick;
use crate::model::wf_state;

verus! {

/// After the boundary enforcer of any tick from a well-formed state, both
/// paddles sit within `PADDLE_MAX_Y` of the center, whatever the input.
pub proof fn lemma_paddles_stay_in_bounds(s: StateV, up: bool, down: bool)
    requires
        wf_state(s),
    ensures
        match spec_pre_resolve(s, up, down).player {
            Some(p) => -PADDLE_MAX_Y <= p.y <= PADDLE_MAX_Y,
            None => true,
        },
        match spec_pre_resolve(s, up, down).opponent {
            Some(o) => -PADDLE_MAX_Y <= o.y <= PADDLE_MAX_Y,
            None => true,
        },
{
    let s1 = spec_player_input(s, up, down);
    let s2 = spec_opponent_decision(s1);
    let s3 = spec_integrate(s2);
    let s4 = spec_enforce_paddles(s3);
    assert(s4 == spec_pre_resolve(s, up, down));
}

/// The boundary enforcer is idempotent: with the walls in their configured
/// places, a second enforcement pass changes nothing.
pub proof fn lemma_enforcer_idempotent(s: StateV)
    requires
        s.top_wall == (WallV { x: 0, y: WALL_CENTER_Y as int }),
        s.bottom_wall == (WallV { x: 0, y: -WALL_CENTER_Y as int }),
    ensures
        spec_enforce_paddles(spec_enforce_paddles(s)) == spec_enforce_paddles(s),
{
    let s1 = spec_enforce_paddles(s);
    let s2 = spec_enforce_paddles(s1);
    assert(s2.player == s1.player);
    assert(s2.opponent == s1.opponent);
}

/// The opponent controller never picks any velocity but the two chase
/// speeds: whenever the ball is at or below the opponent paddle at
/// decision time the paddle's vertical velocity becomes exactly
/// `-OPPONENT_SPEED`, otherwise exactly `OPPONENT_SPEED`; nothing else of
/// the paddle changes.
pub proof fn lemma_opponent_decision_exact(s: StateV, o: PaddleV, b: BallV)
    requires
        s.opponent == Some(o),
        s.ball == Some(b),
    ensures
        b.y <= o.y ==> spec_opponent_decision(s).opponent == Some(
            PaddleV { x: o.x, y: o.y, vx: o.vx, vy: -OPPONENT_SPEED as int },
        ),
        b.y > o.y ==> spec_opponent_decision(s).opponent == Some(
            PaddleV { x: o.x, y: o.y, vx: o.vx, vy: OPPONENT_SPEED as int },
        ),
{
}

/// A player hit reflects the ball horizontally and speeds it up: when the
/// ball overlaps the player paddle at resolution time, the resolved
/// horizontal velocity is the old one inverted and scaled by 1.05 (rounded
/// toward zero), so its sign flips and its magnitude never shrinks.
pub proof fn lemma_player_hit_reflects(b: BallV, player: PaddleV, opponent: Option<PaddleV>)
    requires
        player.x == PLAYER_X,
        match opponent {
            Some(o) => o.x == OPPONENT_X,
            None => true,
        },
        paddle_ball_overlap(player, b),
    ensures
        resolved_ball(b, Some(player), opponent).vx == scale_up(-b.vx),
        b.vx > 0 ==> resolved_ball(b, Some(player), opponent).vx < 0,
        b.vx < 0 ==> resolved_ball(b, Some(player), opponent).vx > 0,
        abs_int(resolved_ball(b, Some(player), opponent).vx) == div_trunc(
            SPEEDUP_NUM * abs_int(b.vx), SPEEDUP_DEN as int),
        abs_int(resolved_ball(b, Some(player), opponent).vx) >= abs_int(b.vx),
{
    let a = abs_int(b.vx);
    lemma_div_multiples_vanish(a, SPEEDUP_DEN as int);
    lemma_div_is_ordered(SPEEDUP_DEN * a, SPEEDUP_NUM * a, SPEEDUP_DEN as int);
    if b.vx > 0 {
        lemma_div_is_ordered(SPEEDUP_DEN as int, SPEEDUP_NUM * a, SPEEDUP_DEN as int);
        lemma_div_multiples_vanish(1, SPEEDUP_DEN as int);
    }
    if b.vx < 0 {
        lemma_div_is_ordered(SPEEDUP_DEN as int, SPEEDUP_NUM * a, SPEEDUP_DEN as int);
        lemma_div_multiples_vanish(1, SPEEDUP_DEN as int);
    }
}

/// Over a whole tick from a well-formed state: whenever the ball overlaps
/// the player paddle when the interaction pass reads them, the post-tick
/// horizontal velocity is the pre-tick one inverted and scaled by 1.05
/// (rounded toward zero), so its sign is opposite to the pre-tick sign.
pub proof fn lemma_tick_player_hit_reflects(s: StateV, up: bool, down: bool, p: PaddleV, b: BallV)
    requires
        wf_state(s),
        spec_pre_resolve(s, up, down).player == Some(p),
        spec_pre_resolve(s, up, down).ball == Some(b),
        paddle_ball_overlap(p, b),
    ensures
        match (s.ball, spec_tick(s, up, down).ball) {
            (Some(b0), Some(rb)) => {
                &&& rb.vx == scale_up(-b0.vx)
                &&& b0.vx > 0 ==> rb.vx < 0
                &&& b0.vx < 0 ==> rb.vx > 0
                &&& abs_int(rb.vx) == div_trunc(SPEEDUP_NUM * abs_int(b0.vx), SPEEDUP_DEN as int)
            },
            _ => false,
        },
{
    let s4 = spec_pre_resolve(s, up, down);
    lemma_player_hit_reflects(b, p, s4.opponent);
}

/// On a player hit with the paddle moving, the additive nudge comes first
/// and the 1.05 scale-up second: with the paddle moving up, the resolved
/// vertical velocity is `(vy + HIT_NUDGE) * 1.05` rounded toward zero, not
/// `vy * 1.05 + HIT_NUDGE`.
pub proof fn lemma_player_hit_nudge_then_scale(b: BallV, player: PaddleV, opponent: Option<PaddleV>)
    requires
        player.x == PLAYER_X,
        match opponent {
            Some(o) => o.x == OPPONENT_X,
            None => true,
        },
        paddle_ball_overlap(player, b),
        player.vy > 0,
        -BOUNDARY_Y <= b.y <= BOUNDARY_Y,
    ensures
        resolved_ball(b, Some(player), opponent).vy == scale_up(b.vy + HIT_NUDGE),
{
}

/// A whole tick preserves well-formedness: from any well-formed state,
/// whatever the input, the next state is well-formed again.
pub proof fn lemma_tick_preserves_wf(s: StateV, up: bool, down: bool)
    requires
        wf_state(s),
    ensures
        wf_state(spec_tick(s, up, down)),
{
    lemma_paddles_stay_in_bounds(s, up, down);
    let s4 = spec_pre_resolve(s, up, down);
    let s5 = spec_resolve_ball(s4);
    assert(s5 == spec_tick(s, up, down));
}

/// Without the ball, a tick cannot fail and leaves the paddles exactly as
/// the input, integration and enforcement stages alone put them: the
/// opponent controller and the ball resolver degrade to no-ops.
pub proof fn lemma_tick_without_ball(s: StateV, up: bool, down: bool)
    requires
        s.ball is None,
    ensures
        spec_tick(s, up, down) == spec_enforce_paddles(spec_integrate(spec_player_input(s, up, down))),
        spec_tick(s, up, down).ball is None,
{
}

} // verus!
