//! A verified two-player ball-and-paddle match simulation.
//!
//! The library holds the per-tick state machine of the game: paddle motion
//! with clamping, ball integration, wall and paddle collision response,
//! scoring with re-serve, and the win-condition freeze. All coordinates and
//! velocities are integers; every tick is a deterministic, total function of
//! the previous state and one input snapshot, and its behaviour is stated in
//! the contracts below. Rendering, window management and raw input polling
//! live outside the library: a caller feeds it an `InputSnapshot` once per
//! tick and reads back a `RenderSnapshot`.

pub mod ball;
pub mod collision;
pub mod court;
pub mod input;
pub mod laws;
pub mod match_state;
pub mod paddle;
pub mod score;
