//! Scoring: horizontal out-of-bounds detection and the re-serve.
//!
//! Checked after the wall bounce and before paddle collisions, on the
//! pre-collision ball position. A ball at or beyond the right edge scores for
//! Player1; otherwise one at or beyond the left edge scores for Player2 — at
//! most one scoring event per tick. A score re-serves the ball: back to the
//! court's centre with the horizontal velocity flipped (so the serve
//! direction alternates) and the vertical velocity left untouched.

use vstd::prelude::*;

use crate::ball::{Ball, BallView};
use crate::court::{Court, CourtView, MAX_DIM};
use crate::paddle::PlayerId;

verus! {

/// Who, if anyone, scores on this ball position: Player1 when the ball has
/// crossed the right edge, else Player2 when it has crossed the left edge.
pub open spec fn scoring_event(c: CourtView, b: BallView) -> Option<PlayerId> {
    if b.x >= c.width {
        Some(PlayerId::Player1)
    } else if b.x <= 0 {
        Some(PlayerId::Player2)
    } else {
        None
    }
}

/// The re-served ball: centred, horizontal velocity flipped, vertical
/// velocity untouched.
pub open spec fn served(c: CourtView, b: BallView) -> BallView {
    BallView { x: c.width / 2, y: c.height / 2, vx: -b.vx, ..b }
}

/// The ball after the scoring stage: re-served exactly when someone scored.
pub open spec fn ball_after_scoring(c: CourtView, b: BallView) -> BallView {
    if scoring_event(c, b) is Some {
        served(c, b)
    } else {
        b
    }
}

/// A score after one stage: up by exactly one on that player's scoring
/// event, unchanged otherwise.
pub open spec fn score_after(s: int, scored: bool) -> int {
    if scored {
        s + 1
    } else {
        s
    }
}

/// Re-serves the ball from the court's centre, flipping its horizontal
/// velocity and leaving the vertical one untouched.
pub fn serve(court: &Court, ball: &mut Ball)
    requires
        court@.valid(),
        -2 * MAX_DIM <= old(ball)@.vx <= 2 * MAX_DIM,
    ensures
        final(ball)@ == served(court@, old(ball)@),
{
    ball.x = court.width / 2;
    ball.y = court.height / 2;
    ball.vx = -ball.vx;
}

/// The scoring stage: detects a horizontal out-of-bounds crossing, awards
/// that point, and re-serves the ball. The two scores move by exactly one or
/// not at all.
pub fn track(court: &Court, ball: &mut Ball, score1: &mut i64, score2: &mut i64)
    requires
        court@.valid(),
        -2 * MAX_DIM <= old(ball)@.vx <= 2 * MAX_DIM,
        0 <= *old(score1) <= 2 * MAX_DIM,
        0 <= *old(score2) <= 2 * MAX_DIM,
    ensures
        final(ball)@ == ball_after_scoring(court@, old(ball)@),
        *final(score1) == score_after(
            *old(score1) as int,
            scoring_event(court@, old(ball)@) == Some(PlayerId::Player1),
        ),
        *final(score2) == score_after(
            *old(score2) as int,
            scoring_event(court@, old(ball)@) == Some(PlayerId::Player2),
        ),
{
    if ball.x >= court.width {
        *score1 = *score1 + 1;
        serve(court, ball);
    } else if ball.x <= 0 {
        *score2 = *score2 + 1;
        serve(court, ball);
    }
}

} // verus!
