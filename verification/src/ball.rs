//! The ball and its simulator: wall reflection and position integration.
//!
//! Wall contact (`y <= 0` or `y >= height`) flips the sign of the vertical
//! velocity and nothing else; the position itself is never clamped, so the
//! ball may rest slightly outside the court for a tick before the flipped
//! velocity carries it back. The horizontal position may transiently leave
//! `[0, width]`; that overshoot is the scoring trigger, not a fault.

use vstd::prelude::*;

use crate::court::{Court, CourtView, MAX_DIM};

verus! {

/// The mathematical model of a `Ball`.
pub ghost struct BallView {
    pub x: int,
    pub y: int,
    pub vx: int,
    pub vy: int,
    pub radius: int,
}

/// Whether the ball touches the top or bottom wall.
pub open spec fn wall_contact(c: CourtView, b: BallView) -> bool {
    b.y <= 0 || b.y >= c.height
}

/// The ball after the wall-reflection stage: on wall contact the sign of
/// `vy` flips; nothing else changes.
pub open spec fn bounced(c: CourtView, b: BallView) -> BallView {
    BallView { vy: if wall_contact(c, b) { -b.vy } else { b.vy }, ..b }
}

/// The ball after position integration: the velocity is added to the
/// position; the velocity itself is unchanged.
pub open spec fn integrated(b: BallView) -> BallView {
    BallView { x: b.x + b.vx, y: b.y + b.vy, ..b }
}

impl BallView {
    /// Well-formedness against a court, an invariant of every tick:
    /// - the radius is the configured one;
    /// - both velocity components stay within the court's serve-derived
    ///   bounds;
    /// - the position stays within one velocity bound of the court;
    /// - while the ball rests beyond a horizontal wall, undoing its last
    ///   integration step lands back within the bound (the overshoot
    ///   oscillates, it cannot drift away).
    pub open spec fn wf(self, c: CourtView) -> bool {
        &&& self.radius == c.ball_radius
        &&& -c.vx_bound() <= self.vx <= c.vx_bound()
        &&& -c.vy_bound() <= self.vy <= c.vy_bound()
        &&& -c.vx_bound() <= self.x <= c.width + c.vx_bound()
        &&& -c.vy_bound() <= self.y <= c.height + c.vy_bound()
        &&& self.y < 0 ==> self.y - self.vy >= -c.vy_bound()
        &&& self.y > c.height ==> self.y - self.vy <= c.height + c.vy_bound()
    }
}

/// The ball: position, velocity and fixed radius.
#[derive(Clone, Copy, Debug)]
pub struct Ball {
    pub x: i64,
    pub y: i64,
    pub vx: i64,
    pub vy: i64,
    pub radius: i64,
}

impl View for Ball {
    type V = BallView;

    open spec fn view(&self) -> BallView {
        BallView {
            x: self.x as int,
            y: self.y as int,
            vx: self.vx as int,
            vy: self.vy as int,
            radius: self.radius as int,
        }
    }
}

impl Ball {
    /// A freshly served ball: centred in the court, moving with the court's
    /// serve velocity.
    pub fn new(court: &Court) -> (b: Ball)
        requires
            court@.valid(),
        ensures
            b@ == (BallView {
                x: court@.width / 2,
                y: court@.height / 2,
                vx: court@.serve_vx,
                vy: court@.serve_vy,
                radius: court@.ball_radius,
            }),
            b@.wf(court@),
    {
        Ball {
            x: court.width / 2,
            y: court.height / 2,
            vx: court.serve_vx,
            vy: court.serve_vy,
            radius: court.ball_radius,
        }
    }

    /// Wall reflection: on contact with the top or bottom wall, flip the sign
    /// of the vertical velocity. The position is deliberately left alone.
    pub fn bounce_walls(&mut self, court: &Court)
        requires
            court@.valid(),
            -2 * MAX_DIM <= old(self)@.vy <= 2 * MAX_DIM,
        ensures
            final(self)@ == bounced(court@, old(self)@),
    {
        if self.y <= 0 || self.y >= court.height {
            self.vy = -self.vy;
        }
    }

    /// Position integration: add the velocity to the position. Always the
    /// final ball update of a tick.
    pub fn advance(&mut self)
        requires
            -4 * MAX_DIM <= old(self)@.x <= 4 * MAX_DIM,
            -4 * MAX_DIM <= old(self)@.y <= 4 * MAX_DIM,
            -4 * MAX_DIM <= old(self)@.vx <= 4 * MAX_DIM,
            -4 * MAX_DIM <= old(self)@.vy <= 4 * MAX_DIM,
        ensures
            final(self)@ == integrated(old(self)@),
    {
        self.x = self.x + self.vx;
        self.y = self.y + self.vy;
    }
}

} // verus!
