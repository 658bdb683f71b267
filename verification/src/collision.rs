//! Ball–paddle collision detection and response.
//!
//! Detection tests the ball's centre against a paddle's rectangular hit zone,
//! whose dimensions are configured separately from the paddle's nominal
//! extent. The response applies only to a ball moving toward the paddle (a
//! receding ball is left alone, so one contact is never reflected twice): it
//! flips the horizontal velocity and redirects the vertical one by how far
//! off a reference point inside the paddle the ball struck.

use vstd::prelude::*;

use crate::ball::{Ball, BallView};
use crate::court::{abs_int, Court, CourtView, MAX_DIM, SPIN_CLAMP, SPIN_DIVISOR};
use crate::paddle::{Paddle, PaddleView, PlayerId};

verus! {

/// The configured hit-zone width for a player's paddle.
pub open spec fn hit_width(c: CourtView, id: PlayerId) -> int {
    match id {
        PlayerId::Player1 => c.p1_hit_width,
        PlayerId::Player2 => c.p2_hit_width,
    }
}

/// The configured hit-zone height for a player's paddle.
pub open spec fn hit_height(c: CourtView, id: PlayerId) -> int {
    match id {
        PlayerId::Player1 => c.p1_hit_height,
        PlayerId::Player2 => c.p2_hit_height,
    }
}

/// Whether the ball's centre lies inside the paddle's hit zone.
pub open spec fn hits(c: CourtView, p: PaddleView, b: BallView) -> bool {
    &&& p.x <= b.x <= p.x + hit_width(c, p.id)
    &&& p.y <= b.y <= p.y + hit_height(c, p.id)
}

/// Whether a ball with horizontal velocity `vx` is moving toward the given
/// player's paddle: leftward for Player1, rightward for Player2.
pub open spec fn toward(id: PlayerId, vx: int) -> bool {
    match id {
        PlayerId::Player1 => vx < 0,
        PlayerId::Player2 => vx > 0,
    }
}

/// Signed distance from the response's reference point inside the paddle —
/// a quarter of the paddle's height below its top, not its centre — to the
/// ball. The asymmetry biases the deflection angle on purpose.
pub open spec fn impact_offset(c: CourtView, p: PaddleView, b: BallView) -> int {
    b.y - (p.y + c.paddle_height / 4)
}

/// Combined speed, as the sum of the two components' magnitudes.
pub open spec fn speed_sum(b: BallView) -> int {
    abs_int(b.vx) + abs_int(b.vy)
}

/// The unclamped spin value: combined speed times the impact offset, divided
/// by `SPIN_DIVISOR` with truncation toward zero.
pub open spec fn spin_raw(c: CourtView, p: PaddleView, b: BallView) -> int {
    let o = impact_offset(c, p, b);
    if o >= 0 {
        speed_sum(b) * o / (SPIN_DIVISOR as int)
    } else {
        -(speed_sum(b) * (-o) / (SPIN_DIVISOR as int))
    }
}

/// `v` clamped into `[-SPIN_CLAMP, SPIN_CLAMP]`.
pub open spec fn clamp_spin(v: int) -> int {
    if v > SPIN_CLAMP {
        SPIN_CLAMP as int
    } else if v < -SPIN_CLAMP {
        -(SPIN_CLAMP as int)
    } else {
        v
    }
}

/// The vertical velocity a paddle hit imparts.
pub open spec fn spin_vy(c: CourtView, p: PaddleView, b: BallView) -> int {
    clamp_spin(spin_raw(c, p, b))
}

/// The ball after the collision response for one paddle: when the ball is in
/// the paddle's hit zone and moving toward it, the horizontal velocity flips
/// and the vertical one becomes the clamped spin value; otherwise the ball is
/// left unmodified.
pub open spec fn resolved(c: CourtView, p: PaddleView, b: BallView) -> BallView {
    if hits(c, p, b) && toward(p.id, b.vx) {
        BallView { vx: -b.vx, vy: spin_vy(c, p, b), ..b }
    } else {
        b
    }
}

/// Whether the ball's centre lies inside the paddle's hit zone.
pub fn ball_hits_paddle(court: &Court, paddle: &Paddle, ball: &Ball) -> (r: bool)
    requires
        court@.valid(),
        paddle@.wf(court@),
    ensures
        r == hits(court@, paddle@, ball@),
{
    ball.x >= paddle.x && ball.x <= paddle.x + hit_width_of(court, paddle.id)
        && ball.y >= paddle.y && ball.y <= paddle.y + hit_height_of(court, paddle.id)
}

/// The configured hit-zone width for a player's paddle.
pub fn hit_width_of(court: &Court, id: PlayerId) -> (r: i64)
    ensures
        r == hit_width(court@, id),
{
    match id {
        PlayerId::Player1 => court.p1_hit_width,
        PlayerId::Player2 => court.p2_hit_width,
    }
}

/// The configured hit-zone height for a player's paddle.
pub fn hit_height_of(court: &Court, id: PlayerId) -> (r: i64)
    ensures
        r == hit_height(court@, id),
{
    match id {
        PlayerId::Player1 => court.p1_hit_height,
        PlayerId::Player2 => court.p2_hit_height,
    }
}

/// Applies one paddle's collision response to the ball.
pub fn resolve(court: &Court, paddle: &Paddle, ball: &mut Ball)
    requires
        court@.valid(),
        paddle@.wf(court@),
        -2 * MAX_DIM <= old(ball)@.x <= 2 * MAX_DIM,
        -2 * MAX_DIM <= old(ball)@.y <= 2 * MAX_DIM,
        -2 * MAX_DIM <= old(ball)@.vx <= 2 * MAX_DIM,
        -2 * MAX_DIM <= old(ball)@.vy <= 2 * MAX_DIM,
    ensures
        final(ball)@ == resolved(court@, paddle@, old(ball)@),
{
    let contact = ball_hits_paddle(court, paddle, ball);
    let approaching = match paddle.id {
        PlayerId::Player1 => ball.vx < 0,
        PlayerId::Player2 => ball.vx > 0,
    };
    if contact && approaching {
        ball.vx = -ball.vx;
        let offset = ball.y - (paddle.y + court.paddle_height / 4);
        let avx = if ball.vx < 0 { -ball.vx } else { ball.vx };
        let avy = if ball.vy < 0 { -ball.vy } else { ball.vy };
        let speed = avx + avy;
        let magnitude = if offset < 0 { -offset } else { offset };
        proof {
            assert(0 <= speed <= 4 * MAX_DIM && 0 <= magnitude <= 4 * MAX_DIM);
            assert(speed * magnitude <= 16 * MAX_DIM * MAX_DIM) by (nonlinear_arith)
                requires
                    0 <= speed <= 4 * MAX_DIM,
                    0 <= magnitude <= 4 * MAX_DIM,
            ;
        }
        let quotient = speed * magnitude / SPIN_DIVISOR;
        let mut vy = if offset < 0 { -quotient } else { quotient };
        if vy > SPIN_CLAMP {
            vy = SPIN_CLAMP;
        }
        if vy < -SPIN_CLAMP {
            vy = -SPIN_CLAMP;
        }
        ball.vy = vy;
    }
}

} // verus!
