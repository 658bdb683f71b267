//! Paddles and the paddle controller. A paddle's horizontal position is fixed
//! by its player's identity at construction; its vertical position moves by
//! the court's paddle speed and is clamped into the court on every step, so
//! `0 <= y <= height - paddle_height` holds at the end of every tick.

use vstd::prelude::*;

use crate::court::{Court, CourtView};

verus! {

/// The two player identities.
#[derive(Clone, Copy, Debug, PartialEq, Eq, Structural)]
pub enum PlayerId {
    Player1,
    Player2,
}

/// The mathematical model of a `Paddle`.
pub ghost struct PaddleView {
    pub id: PlayerId,
    pub x: int,
    pub y: int,
}

/// The fixed horizontal position of a player's paddle: Player1 sits near the
/// left edge, Player2 flush with the right edge.
pub open spec fn spawn_x(c: CourtView, id: PlayerId) -> int {
    match id {
        PlayerId::Player1 => c.paddle_width / 2,
        PlayerId::Player2 => c.width - c.paddle_width,
    }
}

/// `y` clamped into the court: the paddle's whole height stays inside
/// `[0, height]`.
pub open spec fn clamped_y(c: CourtView, y: int) -> int {
    if y < 0 {
        0
    } else if y > c.height - c.paddle_height {
        c.height - c.paddle_height
    } else {
        y
    }
}

/// Where one step's input moves a paddle before clamping: the "down" action
/// takes priority when both actions are pressed at once.
pub open spec fn moved_y(c: CourtView, y: int, up: bool, down: bool) -> int {
    if down {
        y + c.paddle_speed
    } else if up {
        y - c.paddle_speed
    } else {
        y
    }
}

/// One controller step: move by the input, then clamp into the court.
pub open spec fn stepped_y(c: CourtView, y: int, up: bool, down: bool) -> int {
    clamped_y(c, moved_y(c, y, up, down))
}

/// A paddle: fixed identity and horizontal position, mutable vertical
/// position.
#[derive(Clone, Copy, Debug)]
pub struct Paddle {
    pub id: PlayerId,
    pub x: i64,
    pub y: i64,
}

impl View for Paddle {
    type V = PaddleView;

    open spec fn view(&self) -> PaddleView {
        PaddleView { id: self.id, x: self.x as int, y: self.y as int }
    }
}

impl PaddleView {
    /// Well-formedness against a court: the identity's fixed horizontal
    /// position, and a vertical position clamped inside the court.
    pub open spec fn wf(self, c: CourtView) -> bool {
        &&& self.x == spawn_x(c, self.id)
        &&& 0 <= self.y <= c.height - c.paddle_height
    }
}

impl Paddle {
    /// A new paddle for `id`, at its fixed horizontal position, vertically
    /// near the middle of the court (clamped inside it).
    pub fn new(court: &Court, id: PlayerId) -> (p: Paddle)
        requires
            court@.valid(),
        ensures
            p@.id == id,
            p@.wf(court@),
            p@.y == clamped_y(court@, court@.height / 2 - court@.paddle_height / 4),
    {
        let x = match id {
            PlayerId::Player1 => court.paddle_width / 2,
            PlayerId::Player2 => court.width - court.paddle_width,
        };
        let start = court.height / 2 - court.paddle_height / 4;
        let limit = court.height - court.paddle_height;
        let y = if start < 0 {
            0
        } else if start > limit {
            limit
        } else {
            start
        };
        Paddle { id, x, y }
    }

    /// One controller step: if the "down" action is active move `+speed`,
    /// else if "up" is active move `-speed` (down wins a simultaneous press),
    /// then clamp the result into `[0, height - paddle_height]`.
    pub fn step(&mut self, court: &Court, up: bool, down: bool)
        requires
            court@.valid(),
            old(self)@.wf(court@),
        ensures
            final(self)@.id == old(self)@.id,
            final(self)@.x == old(self)@.x,
            final(self)@.y == stepped_y(court@, old(self)@.y, up, down),
            final(self)@.wf(court@),
    {
        let moved = if down {
            self.y + court.paddle_speed
        } else if up {
            self.y - court.paddle_speed
        } else {
            self.y
        };
        let limit = court.height - court.paddle_height;
        self.y = if moved < 0 {
            0
        } else if moved > limit {
            limit
        } else {
            moved
        };
    }
}

} // verus!
