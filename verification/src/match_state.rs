//! Match orchestration: one tick composes, in a fixed order, paddle motion,
//! wall reflection, scoring, paddle collision response, position integration
//! and the win check. Once a player's score exceeds the win threshold the
//! match is finished: the ball's velocity is forced to zero and stays zero,
//! while paddle motion continues cosmetically.

use vstd::prelude::*;

use crate::ball::{bounced, integrated, Ball, BallView};
use crate::collision;
use crate::collision::{hits, resolved};
use crate::court::{Court, CourtView};
use crate::input::InputSnapshot;
use crate::paddle::{clamped_y, spawn_x, stepped_y, Paddle, PaddleView, PlayerId};
use crate::score;
use crate::score::{ball_after_scoring, score_after, scoring_event};

verus! {

/// Whether the match is still being played, and who won once it is not.
#[derive(Clone, Copy, Debug, PartialEq, Eq, Structural)]
pub enum MatchPhase {
    Playing,
    Finished(PlayerId),
}

/// The mathematical model of a `MatchState`.
pub ghost struct MatchView {
    pub court: CourtView,
    pub p1: PaddleView,
    pub p2: PaddleView,
    pub ball: BallView,
    pub score1: int,
    pub score2: int,
    pub phase: MatchPhase,
}

impl MatchView {
    /// The invariant every tick preserves: a valid configuration, both
    /// paddles at their fixed horizontal positions and clamped inside the
    /// court, a well-formed ball, scores that never pass one beyond the win
    /// threshold (and never reach it while still playing), and a frozen ball
    /// once the match is finished.
    pub open spec fn wf(self) -> bool {
        &&& self.court.valid()
        &&& self.p1.id == PlayerId::Player1
        &&& self.p2.id == PlayerId::Player2
        &&& self.p1.wf(self.court)
        &&& self.p2.wf(self.court)
        &&& self.ball.wf(self.court)
        &&& 0 <= self.score1 <= self.court.win_threshold + 1
        &&& 0 <= self.score2 <= self.court.win_threshold + 1
        &&& self.phase is Playing ==> self.score1 <= self.court.win_threshold
            && self.score2 <= self.court.win_threshold
        &&& self.phase is Finished ==> self.ball.vx == 0 && self.ball.vy == 0
    }
}

/// Who has won on these scores: the player whose score exceeds the win
/// threshold, Player1 checked first.
pub open spec fn winner_on(c: CourtView, score1: int, score2: int) -> Option<PlayerId> {
    if score1 > c.win_threshold {
        Some(PlayerId::Player1)
    } else if score2 > c.win_threshold {
        Some(PlayerId::Player2)
    } else {
        None
    }
}

/// The state a fresh match starts from: paddles at their spawn positions,
/// a freshly served ball, both scores zero, playing.
pub open spec fn initial_state(c: CourtView) -> MatchView {
    MatchView {
        court: c,
        p1: PaddleView {
            id: PlayerId::Player1,
            x: spawn_x(c, PlayerId::Player1),
            y: clamped_y(c, c.height / 2 - c.paddle_height / 4),
        },
        p2: PaddleView {
            id: PlayerId::Player2,
            x: spawn_x(c, PlayerId::Player2),
            y: clamped_y(c, c.height / 2 - c.paddle_height / 4),
        },
        ball: BallView {
            x: c.width / 2,
            y: c.height / 2,
            vx: c.serve_vx,
            vy: c.serve_vy,
            radius: c.ball_radius,
        },
        score1: 0,
        score2: 0,
        phase: MatchPhase::Playing,
    }
}

/// One whole tick as a function of the previous state and the tick's input.
///
/// Both paddles move first. While the match is finished nothing else happens.
/// While it is playing, the ball bounces off the horizontal walls, the
/// scoring stage runs on the pre-collision position, each paddle's collision
/// response is applied in turn (Player1 first), the ball integrates its
/// velocity, and finally a score beyond the win threshold finishes the match
/// and freezes the ball.
pub open spec fn tick_spec(s: MatchView, input: InputSnapshot) -> MatchView {
    let p1 = PaddleView { y: stepped_y(s.court, s.p1.y, input.p1_up, input.p1_down), ..s.p1 };
    let p2 = PaddleView { y: stepped_y(s.court, s.p2.y, input.p2_up, input.p2_down), ..s.p2 };
    if s.phase is Finished {
        MatchView { p1, p2, ..s }
    } else {
        let b1 = bounced(s.court, s.ball);
        let event = scoring_event(s.court, b1);
        let b2 = ball_after_scoring(s.court, b1);
        let ns1 = score_after(s.score1, event == Some(PlayerId::Player1));
        let ns2 = score_after(s.score2, event == Some(PlayerId::Player2));
        let b3 = resolved(s.court, p1, b2);
        let b4 = resolved(s.court, p2, b3);
        let b5 = integrated(b4);
        match winner_on(s.court, ns1, ns2) {
            Some(w) => MatchView {
                p1,
                p2,
                ball: BallView { vx: 0, vy: 0, ..b5 },
                score1: ns1,
                score2: ns2,
                phase: MatchPhase::Finished(w),
                ..s
            },
            None => MatchView { p1, p2, ball: b5, score1: ns1, score2: ns2, ..s },
        }
    }
}

/// One tick preserves the match invariant `MatchView::wf`. In particular both
/// paddles stay clamped inside the court, the ball's position and velocity
/// stay within their serve-derived bounds, a wall overshoot oscillates in
/// place instead of drifting, scores never pass one beyond the win threshold,
/// and a finished match keeps a frozen ball.
pub proof fn lemma_tick_spec_wf(s: MatchView, input: InputSnapshot)
    requires
        s.wf(),
    ensures
        tick_spec(s, input).wf(),
{
    let c = s.court;
    let t = tick_spec(s, input);
    assert(t.p1.wf(c) && t.p2.wf(c));
    if s.phase is Playing {
        let b0 = s.ball;
        let b1 = bounced(c, s.ball);
        let event = scoring_event(c, b1);
        let b2 = ball_after_scoring(c, b1);
        let b3 = resolved(c, t.p1, b2);
        let b4 = resolved(c, t.p2, b3);
        let b5 = integrated(b4);
        // Velocity bounds survive every stage: a wall bounce or a collision
        // flips `vx`; a collision replaces `vy` by a value clamped within
        // `SPIN_CLAMP`, which the bound dominates.
        assert(-c.vx_bound() <= b4.vx <= c.vx_bound());
        assert(-c.vy_bound() <= b4.vy <= c.vy_bound());
        // Horizontal position: the scoring stage leaves the ball strictly
        // inside the court or re-serves it to the centre.
        assert(event is None ==> 0 < b4.x < c.width);
        assert(event is Some ==> b4.x == c.width / 2 && 0 <= c.width / 2 <= c.width);
        assert(-c.vx_bound() <= b5.x <= c.width + c.vx_bound());
        // Vertical position: a collision can only happen with the ball inside
        // the court, because each hit zone lies inside its paddle, which is
        // clamped inside the court.
        assert(hits(c, t.p1, b2) ==> 0 <= b2.y <= c.height);
        assert(hits(c, t.p2, b3) ==> 0 <= b3.y <= c.height);
        if event is Some {
            assert(0 <= b4.y <= c.height);
        } else {
            assert(b4.y == b0.y);
            if b4.y < 0 {
                // Below the court: the wall stage flipped `vy` and neither
                // paddle can be hit, so this tick undoes the last step.
                assert(!hits(c, t.p1, b2) && !hits(c, t.p2, b3));
                assert(b4.vy == -b0.vy);
                assert(b5.y == b0.y - b0.vy);
            } else if b4.y > c.height {
                assert(!hits(c, t.p1, b2) && !hits(c, t.p2, b3));
                assert(b4.vy == -b0.vy);
                assert(b5.y == b0.y - b0.vy);
            }
        }
        assert(-c.vy_bound() <= b5.y <= c.height + c.vy_bound());
        assert(b5.y < 0 ==> b5.y - b5.vy >= -c.vy_bound());
        assert(b5.y > c.height ==> b5.y - b5.vy <= c.height + c.vy_bound());
        assert(b5.wf(c));
        assert(t.ball.wf(c));
        assert(0 <= t.score1 <= c.win_threshold + 1);
        assert(0 <= t.score2 <= c.win_threshold + 1);
    }
}

/// What a renderer needs of one tick's outcome, read-only: both paddle
/// positions, the ball's position and radius, both scores and the phase.
#[derive(Clone, Copy, Debug, PartialEq, Eq, Structural)]
pub struct RenderSnapshot {
    pub p1_x: i64,
    pub p1_y: i64,
    pub p2_x: i64,
    pub p2_y: i64,
    pub ball_x: i64,
    pub ball_y: i64,
    pub ball_radius: i64,
    pub score1: i64,
    pub score2: i64,
    pub phase: MatchPhase,
}

/// The whole simulation state of one match: both paddles, the ball, both
/// scores and the phase, mutated exactly once per tick.
pub struct MatchState {
    pub court: Court,
    pub p1: Paddle,
    pub p2: Paddle,
    pub ball: Ball,
    pub score1: i64,
    pub score2: i64,
    pub phase: MatchPhase,
}

impl View for MatchState {
    type V = MatchView;

    open spec fn view(&self) -> MatchView {
        MatchView {
            court: self.court@,
            p1: self.p1@,
            p2: self.p2@,
            ball: self.ball@,
            score1: self.score1 as int,
            score2: self.score2 as int,
            phase: self.phase,
        }
    }
}

impl MatchState {
    /// A fresh match on the given configuration.
    pub fn new(court: Court) -> (m: MatchState)
        requires
            court@.valid(),
        ensures
            m@ == initial_state(court@),
            m@.wf(),
    {
        let p1 = Paddle::new(&court, PlayerId::Player1);
        let p2 = Paddle::new(&court, PlayerId::Player2);
        let ball = Ball::new(&court);
        MatchState { court, p1, p2, ball, score1: 0, score2: 0, phase: MatchPhase::Playing }
    }

    /// Runs one tick on this state and the tick's input snapshot.
    pub fn tick(&mut self, input: InputSnapshot)
        requires
            old(self)@.wf(),
        ensures
            final(self)@ == tick_spec(old(self)@, input),
            final(self)@.wf(),
    {
        let ghost s0 = old(self)@;
        let court = self.court;
        self.p1.step(&court, input.p1_up, input.p1_down);
        self.p2.step(&court, input.p2_up, input.p2_down);
        proof {
            assert(self.p1@ == (PaddleView {
                y: stepped_y(s0.court, s0.p1.y, input.p1_up, input.p1_down),
                ..s0.p1
            }));
            assert(self.p2@ == (PaddleView {
                y: stepped_y(s0.court, s0.p2.y, input.p2_up, input.p2_down),
                ..s0.p2
            }));
        }
        match self.phase {
            MatchPhase::Finished(_) => {
                proof {
                    assert(self@ == tick_spec(s0, input));
                }
            },
            MatchPhase::Playing => {
                self.ball.bounce_walls(&court);
                proof {
                    assert(self.ball@ == bounced(s0.court, s0.ball));
                }
                let ghost b1 = bounced(s0.court, s0.ball);
                score::track(&court, &mut self.ball, &mut self.score1, &mut self.score2);
                proof {
                    assert(self.ball@ == ball_after_scoring(s0.court, b1));
                }
                let ghost b2 = ball_after_scoring(s0.court, b1);
                collision::resolve(&court, &self.p1, &mut self.ball);
                proof {
                    assert(self.ball@ == resolved(s0.court, tick_spec(s0, input).p1, b2));
                }
                let ghost b3 = resolved(s0.court, tick_spec(s0, input).p1, b2);
                collision::resolve(&court, &self.p2, &mut self.ball);
                proof {
                    assert(self.ball@ == resolved(s0.court, tick_spec(s0, input).p2, b3));
                }
                let ghost b4 = resolved(s0.court, tick_spec(s0, input).p2, b3);
                self.ball.advance();
                proof {
                    assert(self.ball@ == integrated(b4));
                }
                if self.score1 > court.win_threshold {
                    self.phase = MatchPhase::Finished(PlayerId::Player1);
                    self.ball.vx = 0;
                    self.ball.vy = 0;
                } else if self.score2 > court.win_threshold {
                    self.phase = MatchPhase::Finished(PlayerId::Player2);
                    self.ball.vx = 0;
                    self.ball.vy = 0;
                }
                proof {
                    assert(self@ == tick_spec(s0, input));
                    lemma_tick_spec_wf(s0, input);
                }
            },
        }
    }

    /// The read-only render snapshot of the current state.
    pub fn snapshot(&self) -> (r: RenderSnapshot)
        ensures
            r.p1_x == self@.p1.x,
            r.p1_y == self@.p1.y,
            r.p2_x == self@.p2.x,
            r.p2_y == self@.p2.y,
            r.ball_x == self@.ball.x,
            r.ball_y == self@.ball.y,
            r.ball_radius == self@.ball.radius,
            r.score1 == self@.score1,
            r.score2 == self@.score2,
            r.phase == self@.phase,
    {
        RenderSnapshot {
            p1_x: self.p1.x,
            p1_y: self.p1.y,
            p2_x: self.p2.x,
            p2_y: self.p2.y,
            ball_x: self.ball.x,
            ball_y: self.ball.y,
            ball_radius: self.ball.radius,
            score1: self.score1,
            score2: self.score2,
            phase: self.phase,
        }
    }
}

} // verus!
