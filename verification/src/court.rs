//! Immutable match configuration: court dimensions, paddle geometry and
//! speed, ball radius and serve velocity, paddle hit-zone sizes, and the win
//! threshold. A `Court` is validated once at construction and never mutated.

use vstd::prelude::*;

verus! {

/// Largest magnitude accepted for any dimension, speed or threshold, so that
/// every intermediate product of the simulation fits comfortably in an `i64`.
pub const MAX_DIM: i64 = 1_000_000;

/// Divisor of the spin formula: a paddle hit sets the vertical velocity to
/// `(|vx| + |vy|) * offset / SPIN_DIVISOR`, truncated toward zero.
pub const SPIN_DIVISOR: i64 = 100;

/// Largest magnitude of the vertical velocity a paddle hit can impart: the
/// spin formula's result is clamped into `[-SPIN_CLAMP, SPIN_CLAMP]`.
pub const SPIN_CLAMP: i64 = 5;

/// Magnitude of `x`.
pub open spec fn abs_int(x: int) -> int {
    if x < 0 { -x } else { x }
}

/// The mathematical model of a `Court`: the same fields, as unbounded
/// integers.
pub ghost struct CourtView {
    pub width: int,
    pub height: int,
    pub paddle_width: int,
    pub paddle_height: int,
    pub paddle_speed: int,
    pub ball_radius: int,
    pub serve_vx: int,
    pub serve_vy: int,
    pub win_threshold: int,
    pub p1_hit_width: int,
    pub p1_hit_height: int,
    pub p2_hit_width: int,
    pub p2_hit_height: int,
}

impl CourtView {
    /// A well-formed configuration: every dimension positive and within the
    /// machine limit, the paddle strictly shorter than the court (else it
    /// could not be clamped inside it), and each hit zone inside its paddle's
    /// nominal extent.
    pub open spec fn valid(self) -> bool {
        &&& 0 < self.width <= MAX_DIM
        &&& 0 < self.height <= MAX_DIM
        &&& 0 < self.paddle_width <= self.width
        &&& 0 < self.paddle_height < self.height
        &&& 0 < self.paddle_speed <= MAX_DIM
        &&& 0 < self.ball_radius <= MAX_DIM
        &&& -MAX_DIM <= self.serve_vx <= MAX_DIM
        &&& -MAX_DIM <= self.serve_vy <= MAX_DIM
        &&& 0 < self.win_threshold <= MAX_DIM
        &&& 0 < self.p1_hit_width <= self.paddle_width
        &&& 0 < self.p1_hit_height <= self.paddle_height
        &&& 0 < self.p2_hit_width <= self.paddle_width
        &&& 0 < self.p2_hit_height <= self.paddle_height
    }

    /// Bound on the ball's horizontal speed over the whole match: `vx` only
    /// ever flips sign or is frozen to zero.
    pub open spec fn vx_bound(self) -> int {
        abs_int(self.serve_vx)
    }

    /// Bound on the ball's vertical speed over the whole match: `vy` is the
    /// serve value with sign flips until a paddle hit replaces it by a spin
    /// value clamped into `[-SPIN_CLAMP, SPIN_CLAMP]`.
    pub open spec fn vy_bound(self) -> int {
        if abs_int(self.serve_vy) >= SPIN_CLAMP {
            abs_int(self.serve_vy)
        } else {
            SPIN_CLAMP as int
        }
    }
}

/// The configuration a construction with full-extent hit zones asks for.
pub open spec fn full_hit_params(
    width: int,
    height: int,
    paddle_width: int,
    paddle_height: int,
    paddle_speed: int,
    ball_radius: int,
    serve_vx: int,
    serve_vy: int,
    win_threshold: int,
) -> CourtView {
    CourtView {
        width,
        height,
        paddle_width,
        paddle_height,
        paddle_speed,
        ball_radius,
        serve_vx,
        serve_vy,
        win_threshold,
        p1_hit_width: paddle_width,
        p1_hit_height: paddle_height,
        p2_hit_width: paddle_width,
        p2_hit_height: paddle_height,
    }
}

/// The one construction-time failure: a non-positive or degenerate dimension,
/// speed or threshold, or one beyond the machine limit `MAX_DIM`.
#[derive(Clone, Copy, Debug, PartialEq, Eq, Structural)]
pub enum ConfigError {
    Degenerate,
}

/// Immutable match configuration, shared read-only by every component.
#[derive(Clone, Copy, Debug, PartialEq, Eq, Structural)]
pub struct Court {
    pub width: i64,
    pub height: i64,
    pub paddle_width: i64,
    pub paddle_height: i64,
    pub paddle_speed: i64,
    pub ball_radius: i64,
    pub serve_vx: i64,
    pub serve_vy: i64,
    pub win_threshold: i64,
    pub p1_hit_width: i64,
    pub p1_hit_height: i64,
    pub p2_hit_width: i64,
    pub p2_hit_height: i64,
}

impl View for Court {
    type V = CourtView;

    open spec fn view(&self) -> CourtView {
        CourtView {
            width: self.width as int,
            height: self.height as int,
            paddle_width: self.paddle_width as int,
            paddle_height: self.paddle_height as int,
            paddle_speed: self.paddle_speed as int,
            ball_radius: self.ball_radius as int,
            serve_vx: self.serve_vx as int,
            serve_vy: self.serve_vy as int,
            win_threshold: self.win_threshold as int,
            p1_hit_width: self.p1_hit_width as int,
            p1_hit_height: self.p1_hit_height as int,
            p2_hit_width: self.p2_hit_width as int,
            p2_hit_height: self.p2_hit_height as int,
        }
    }
}

impl Court {
    /// Whether this configuration is well-formed.
    pub fn is_valid(&self) -> (r: bool)
        ensures
            r == self@.valid(),
    {
        self.width > 0 && self.width <= MAX_DIM
            && self.height > 0 && self.height <= MAX_DIM
            && self.paddle_width > 0 && self.paddle_width <= self.width
            && self.paddle_height > 0 && self.paddle_height < self.height
            && self.paddle_speed > 0 && self.paddle_speed <= MAX_DIM
            && self.ball_radius > 0 && self.ball_radius <= MAX_DIM
            && self.serve_vx >= -MAX_DIM && self.serve_vx <= MAX_DIM
            && self.serve_vy >= -MAX_DIM && self.serve_vy <= MAX_DIM
            && self.win_threshold > 0 && self.win_threshold <= MAX_DIM
            && self.p1_hit_width > 0 && self.p1_hit_width <= self.paddle_width
            && self.p1_hit_height > 0 && self.p1_hit_height <= self.paddle_height
            && self.p2_hit_width > 0 && self.p2_hit_width <= self.paddle_width
            && self.p2_hit_height > 0 && self.p2_hit_height <= self.paddle_height
    }

    /// Builds a configuration whose hit zones default to the full paddle
    /// extent, failing exactly on degenerate parameters.
    pub fn new(
        width: i64,
        height: i64,
        paddle_width: i64,
        paddle_height: i64,
        paddle_speed: i64,
        ball_radius: i64,
        serve_vx: i64,
        serve_vy: i64,
        win_threshold: i64,
    ) -> (r: Result<Court, ConfigError>)
        ensures
            r is Ok <==> full_hit_params(
                width as int, height as int, paddle_width as int, paddle_height as int,
                paddle_speed as int, ball_radius as int, serve_vx as int, serve_vy as int,
                win_threshold as int,
            ).valid(),
            r matches Ok(c) ==> c@ == full_hit_params(
                width as int, height as int, paddle_width as int, paddle_height as int,
                paddle_speed as int, ball_radius as int, serve_vx as int, serve_vy as int,
                win_threshold as int,
            ),
    {
        let c = Court {
            width,
            height,
            paddle_width,
            paddle_height,
            paddle_speed,
            ball_radius,
            serve_vx,
            serve_vy,
            win_threshold,
            p1_hit_width: paddle_width,
            p1_hit_height: paddle_height,
            p2_hit_width: paddle_width,
            p2_hit_height: paddle_height,
        };
        if c.is_valid() {
            Ok(c)
        } else {
            Err(ConfigError::Degenerate)
        }
    }

    /// Returns this configuration with the four hit-zone dimensions replaced,
    /// failing exactly when a new zone is non-positive or exceeds the
    /// paddle's nominal extent.
    pub fn with_hit_zone(
        self,
        p1_hit_width: i64,
        p1_hit_height: i64,
        p2_hit_width: i64,
        p2_hit_height: i64,
    ) -> (r: Result<Court, ConfigError>)
        requires
            self@.valid(),
        ensures
            r is Ok <==> (CourtView {
                p1_hit_width: p1_hit_width as int,
                p1_hit_height: p1_hit_height as int,
                p2_hit_width: p2_hit_width as int,
                p2_hit_height: p2_hit_height as int,
                ..self@
            }).valid(),
            r matches Ok(c) ==> c@ == (CourtView {
                p1_hit_width: p1_hit_width as int,
                p1_hit_height: p1_hit_height as int,
                p2_hit_width: p2_hit_width as int,
                p2_hit_height: p2_hit_height as int,
                ..self@
            }),
    {
        let c = Court { p1_hit_width, p1_hit_height, p2_hit_width, p2_hit_height, ..self };
        if c.is_valid() {
            Ok(c)
        } else {
            Err(ConfigError::Degenerate)
        }
    }
}

} // verus!
