use vstd::prelude::*;

verus! {

/// The ways in which the rules engine refuses its input.
#[derive(Debug, Clone, Copy, PartialEq, Eq, Structural)]
pub enum GameError {
    /// The input does not name rock, paper or scissors.
    InvalidMove,
    /// A round was resolved while one side had not chosen a move yet.
    InvalidRoundState,
    /// A match was configured with a target that can never be reached.
    InvalidConfiguration,
}

} // verus!
