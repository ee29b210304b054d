use vstd::prelude::*;

use crate::error::GameError;
use crate::moves::MoveType;
use crate::winner::Winner;

verus! {

/// The beats relation: rock beats scissors, scissors beats paper, paper
/// beats rock.
pub open spec fn beats(a: MoveType, b: MoveType) -> bool {
    ||| a is Rock && b is Scissors
    ||| a is Scissors && b is Paper
    ||| a is Paper && b is Rock
}

/// The outcome of a round in which the user plays `a` and the enemy `b`.
pub open spec fn round_outcome(a: MoveType, b: MoveType) -> Result<Winner, GameError> {
    if !a.is_chosen() || !b.is_chosen() {
        Err(GameError::InvalidRoundState)
    } else if a == b {
        Ok(Winner::Tie)
    } else if beats(a, b) {
        Ok(Winner::User)
    } else {
        Ok(Winner::Enemy)
    }
}

/// Resolves one round between the user's move `a` and the enemy's move `b`.
/// A side that has not chosen makes the round invalid.
pub fn resolve(a: MoveType, b: MoveType) -> (r: Result<Winner, GameError>)
    ensures
        r == round_outcome(a, b),
{
    match (a, b) {
        (MoveType::Unset, _) | (_, MoveType::Unset) => Err(GameError::InvalidRoundState),
        (MoveType::Rock, MoveType::Rock)
        | (MoveType::Paper, MoveType::Paper)
        | (MoveType::Scissors, MoveType::Scissors) => Ok(Winner::Tie),
        (MoveType::Rock, MoveType::Scissors)
        | (MoveType::Paper, MoveType::Rock)
        | (MoveType::Scissors, MoveType::Paper) => Ok(Winner::User),
        _ => Ok(Winner::Enemy),
    }
}

/// The two moves of one round.
#[derive(Debug, Clone, Copy, PartialEq, Eq, Structural)]
pub struct PlayerMoves {
    pub user_move: MoveType,
    pub enemy_move: MoveType,
}

impl PlayerMoves {
    /// A round in which neither side has chosen yet.
    pub fn new() -> (r: PlayerMoves)
        ensures
            r.user_move == MoveType::Unset,
            r.enemy_move == MoveType::Unset,
    {
        PlayerMoves { user_move: MoveType::Unset, enemy_move: MoveType::Unset }
    }

    /// Who wins this round; refused while either side has not chosen.
    pub fn check_who_wins_round(&self) -> (r: Result<Winner, GameError>)
        ensures
            r == round_outcome(self.user_move, self.enemy_move),
    {
        resolve(self.user_move, self.enemy_move)
    }
}

/// Every pair of legal moves has exactly one outcome: equal moves tie, and
/// otherwise exactly one side's move beats the other's, and that side wins.
pub proof fn lemma_round_outcome_total(a: MoveType, b: MoveType)
    requires
        a.is_chosen(),
        b.is_chosen(),
    ensures
        round_outcome(a, b) is Ok,
        a == b || beats(a, b) || beats(b, a),
        !(beats(a, b) && beats(b, a)),
        !(a == b && (beats(a, b) || beats(b, a))),
        round_outcome(a, b) == Ok::<Winner, GameError>(Winner::Tie) <==> a == b,
        round_outcome(a, b) == Ok::<Winner, GameError>(Winner::User) <==> beats(a, b),
        round_outcome(a, b) == Ok::<Winner, GameError>(Winner::Enemy) <==> beats(b, a),
{
}

/// Swapping the two sides swaps the winner: the user wins `(a, b)` exactly
/// when the enemy wins `(b, a)`, and both rounds tie exactly when the moves
/// are equal.
pub proof fn lemma_round_outcome_symmetric(a: MoveType, b: MoveType)
    requires
        a.is_chosen(),
        b.is_chosen(),
    ensures
        round_outcome(a, b) == Ok::<Winner, GameError>(Winner::User)
            <==> round_outcome(b, a) == Ok::<Winner, GameError>(Winner::Enemy),
        round_outcome(a, b) == Ok::<Winner, GameError>(Winner::Tie)
            && round_outcome(b, a) == Ok::<Winner, GameError>(Winner::Tie) <==> a == b,
{
}

} // verus!
