//! The simulation's general laws, each stated and proved over the spec-level
//! tick: paddle clamping on every tick, strict sign flips at walls, exact
//! score increments, the re-serve after a score, the permanent freeze of a
//! finished match, and single (never double) reflection at a paddle.

use vstd::prelude::*;

use crate::ball::{bounced, wall_contact, BallView};
use crate::collision::{hits, resolved, toward};
use crate::court::CourtView;
use crate::input::InputSnapshot;
use crate::match_state::{lemma_tick_spec_wf, tick_spec, MatchView};
use crate::paddle::{PaddleView, PlayerId};
use crate::score::{ball_after_scoring, scoring_event, served};

verus! {

/// The state after a whole sequence of ticks, first input first.
pub open spec fn ticks(s: MatchView, inputs: Seq<InputSnapshot>) -> MatchView
    decreases inputs.len(),
{
    if inputs.len() == 0 {
        s
    } else {
        ticks(tick_spec(s, inputs[0]), inputs.drop_first())
    }
}

/// The match invariant holds after every sequence of ticks; in particular
/// each paddle sits in `[0, height - paddle_height]` at the end of every
/// tick.
pub proof fn lemma_ticks_preserve_wf(s: MatchView, inputs: Seq<InputSnapshot>)
    requires
        s.wf(),
    ensures
        ticks(s, inputs).wf(),
    decreases inputs.len(),
{
    if inputs.len() > 0 {
        lemma_tick_spec_wf(s, inputs[0]);
        lemma_ticks_preserve_wf(tick_spec(s, inputs[0]), inputs.drop_first());
    }
}

/// One tick clamps both paddles into `[0, height - paddle_height]`, whatever
/// the input.
pub proof fn lemma_paddles_clamped(s: MatchView, input: InputSnapshot)
    requires
        s.wf(),
    ensures
        0 <= tick_spec(s, input).p1.y <= s.court.height - s.court.paddle_height,
        0 <= tick_spec(s, input).p2.y <= s.court.height - s.court.paddle_height,
{
}

/// Wall contact strictly flips the sign of the vertical velocity, and
/// nothing else about the ball; without contact the bounce stage is the
/// identity.
pub proof fn lemma_wall_contact_flips_vy(c: CourtView, b: BallView)
    ensures
        wall_contact(c, b) ==> bounced(c, b).vy == -b.vy,
        wall_contact(c, b) ==> bounced(c, b) == (BallView { vy: -b.vy, ..b }),
        wall_contact(c, b) && b.vy > 0 ==> bounced(c, b).vy < 0,
        wall_contact(c, b) && b.vy < 0 ==> bounced(c, b).vy > 0,
        !wall_contact(c, b) ==> bounced(c, b) == b,
{
}

/// Per tick, a horizontal out-of-bounds crossing moves the crossing's score
/// up by exactly one and the other score not at all; without a crossing both
/// scores are unchanged. Scores never decrease.
pub proof fn lemma_score_increment(s: MatchView, input: InputSnapshot)
    requires
        s.wf(),
        s.phase is Playing,
    ensures
        scoring_event(s.court, bounced(s.court, s.ball)) == Some(PlayerId::Player1) ==> {
            &&& tick_spec(s, input).score1 == s.score1 + 1
            &&& tick_spec(s, input).score2 == s.score2
        },
        scoring_event(s.court, bounced(s.court, s.ball)) == Some(PlayerId::Player2) ==> {
            &&& tick_spec(s, input).score2 == s.score2 + 1
            &&& tick_spec(s, input).score1 == s.score1
        },
        scoring_event(s.court, bounced(s.court, s.ball)) is None ==> {
            &&& tick_spec(s, input).score1 == s.score1
            &&& tick_spec(s, input).score2 == s.score2
        },
        tick_spec(s, input).score1 >= s.score1,
        tick_spec(s, input).score2 >= s.score2,
{
}

/// After any score event the ball is re-served: back at the court's centre,
/// horizontal velocity strictly flipped in sign, vertical velocity and radius
/// untouched.
pub proof fn lemma_serve_after_score(c: CourtView, b: BallView)
    ensures
        scoring_event(c, b) is Some ==> ball_after_scoring(c, b) == served(c, b),
        served(c, b).x == c.width / 2,
        served(c, b).y == c.height / 2,
        served(c, b).vx == -b.vx,
        served(c, b).vy == b.vy,
        served(c, b).radius == b.radius,
        b.vx > 0 ==> served(c, b).vx < 0,
        b.vx < 0 ==> served(c, b).vx > 0,
        scoring_event(c, b) is None ==> ball_after_scoring(c, b) == b,
{
}

/// Scores never decrease, on any tick of any well-formed state.
pub proof fn lemma_scores_monotonic(s: MatchView, input: InputSnapshot)
    requires
        s.wf(),
    ensures
        tick_spec(s, input).score1 >= s.score1,
        tick_spec(s, input).score2 >= s.score2,
{
}

/// Once a match is finished it stays finished with the same winner, and the
/// ball's velocity is zero after every subsequent sequence of ticks.
pub proof fn lemma_finished_stays_frozen(s: MatchView, inputs: Seq<InputSnapshot>)
    requires
        s.wf(),
        s.phase is Finished,
    ensures
        ticks(s, inputs).phase == s.phase,
        ticks(s, inputs).ball.vx == 0,
        ticks(s, inputs).ball.vy == 0,
        ticks(s, inputs).ball.x == s.ball.x,
        ticks(s, inputs).ball.y == s.ball.y,
        ticks(s, inputs).score1 == s.score1,
        ticks(s, inputs).score2 == s.score2,
    decreases inputs.len(),
{
    if inputs.len() > 0 {
        lemma_tick_spec_wf(s, inputs[0]);
        lemma_finished_stays_frozen(tick_spec(s, inputs[0]), inputs.drop_first());
    }
}

/// The collision response flips the horizontal velocity only on a ball that
/// is both in the hit zone and moving toward the paddle; a ball already
/// receding on contact — or missing the zone — is left entirely unmodified,
/// so one contact is never reflected twice.
pub proof fn lemma_single_reflection(c: CourtView, p: PaddleView, b: BallView)
    ensures
        !(hits(c, p, b) && toward(p.id, b.vx)) ==> resolved(c, p, b) == b,
        hits(c, p, b) && toward(p.id, b.vx) ==> resolved(c, p, b).vx == -b.vx,
        toward(p.id, b.vx) ==> b.vx != 0,
        hits(c, p, b) && toward(p.id, b.vx) ==> !toward(p.id, resolved(c, p, b).vx),
{
}

} // verus!
