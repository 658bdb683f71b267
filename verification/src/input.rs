//! Per-tick input: the boolean state of the four logical paddle actions,
//! sampled once per tick by the caller. The simulation never polls input
//! itself; one snapshot drives exactly one tick.

use vstd::prelude::*;

verus! {

/// The state of the four logical actions for one tick.
#[derive(Clone, Copy, Debug, PartialEq, Eq, Structural)]
pub struct InputSnapshot {
    pub p1_up: bool,
    pub p1_down: bool,
    pub p2_up: bool,
    pub p2_down: bool,
}

impl InputSnapshot {
    /// A snapshot with the given four action states.
    pub fn new(p1_up: bool, p1_down: bool, p2_up: bool, p2_down: bool) -> (r: InputSnapshot)
        ensures
            r == (InputSnapshot { p1_up, p1_down, p2_up, p2_down }),
    {
        InputSnapshot { p1_up, p1_down, p2_up, p2_down }
    }

    /// A snapshot with no action active.
    pub fn idle() -> (r: InputSnapshot)
        ensures
            r == (InputSnapshot { p1_up: false, p1_down: false, p2_up: false, p2_down: false }),
    {
        InputSnapshot { p1_up: false, p1_down: false, p2_up: false, p2_down: false }
    }
}

} // verus!
