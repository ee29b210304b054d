use vstd::prelude::*;

use crate::error::GameError;
use crate::round::{round_outcome, PlayerMoves};
use crate::settings::GameSettings;
use crate::winner::Winner;

verus! {

/// The running round wins of both sides within a match.
#[derive(Debug, Clone, Copy, PartialEq, Eq, Structural)]
pub struct Scores {
    pub user_wins: u8,
    pub enemy_wins: u8,
}

impl View for Scores {
    /// The user's wins, then the enemy's.
    type V = (nat, nat);

    open spec fn view(&self) -> (nat, nat) {
        (self.user_wins as nat, self.enemy_wins as nat)
    }
}

/// The text of the answer given while neither side has reached the target.
pub open spec fn no_winner_message() -> Seq<char> {
    "rock-paper-scissors: err: No winner yet"@
}

/// Who has taken the match, if anyone: a side wins once its count reaches
/// the target, and the user is looked at first.
pub open spec fn match_winner(s: (nat, nat), target: nat) -> Option<Winner> {
    if s.0 >= target {
        Some(Winner::User)
    } else if s.1 >= target {
        Some(Winner::Enemy)
    } else {
        None
    }
}

/// The scores after one more round: the side that won it gains one win, a
/// tie changes nothing.
pub open spec fn after_round(s: (nat, nat), outcome: Winner) -> (nat, nat) {
    match outcome {
        Winner::User => (s.0 + 1, s.1),
        Winner::Enemy => (s.0, s.1 + 1),
        Winner::Tie => s,
    }
}

/// The scores after a reset, whatever they were.
pub open spec fn reset_scores(s: (nat, nat)) -> (nat, nat) {
    (0, 0)
}

/// The scores after playing `rounds` in order, starting from `start`.
pub open spec fn tally(start: (nat, nat), rounds: Seq<Winner>) -> (nat, nat)
    decreases rounds.len(),
{
    if rounds.len() == 0 {
        start
    } else {
        after_round(tally(start, rounds.drop_last()), rounds.last())
    }
}

/// How many of `rounds` ended with `outcome`.
pub open spec fn count_outcome(rounds: Seq<Winner>, outcome: Winner) -> nat
    decreases rounds.len(),
{
    if rounds.len() == 0 {
        0
    } else {
        count_outcome(rounds.drop_last(), outcome) + if rounds.last() == outcome {
            1nat
        } else {
            0nat
        }
    }
}

impl Scores {
    /// Both counts at zero.
    pub fn new() -> (r: Scores)
        ensures
            r@ == (0nat, 0nat),
    {
        Scores { user_wins: 0, enemy_wins: 0 }
    }

    /// The side that has taken the match under `game_settings`, or an error
    /// while neither count has reached its target.
    pub fn check_for_winner(&self, game_settings: &GameSettings) -> (r: Result<
        Winner,
        &'static str,
    >)
        ensures
            r is Ok <==> match_winner(self@, game_settings.first_to as nat) is Some,
            r matches Ok(w) ==> match_winner(self@, game_settings.first_to as nat) == Some(w),
            r matches Err(e) ==> e@ == no_winner_message(),
            r is Err <==> self.user_wins < game_settings.first_to && self.enemy_wins
                < game_settings.first_to,
            r == Ok::<Winner, &'static str>(Winner::User) <==> self.user_wins
                >= game_settings.first_to,
    {
        if self.user_wins >= game_settings.first_to {
            Ok(Winner::User)
        } else if self.enemy_wins >= game_settings.first_to {
            Ok(Winner::Enemy)
        } else {
            Err("rock-paper-scissors: err: No winner yet")
        }
    }

    /// Sets both counts back to zero.
    pub fn reset(&mut self)
        ensures
            final(self)@ == reset_scores(old(self)@),
            final(self)@ == (0nat, 0nat),
    {
        self.user_wins = 0;
        self.enemy_wins = 0;
    }

    /// Counts the outcome of one round: the winner gains a win, a tie changes
    /// nothing. The winner's count must have room for one more.
    pub fn record_round(&mut self, outcome: Winner)
        requires
            outcome is User ==> old(self).user_wins < u8::MAX,
            outcome is Enemy ==> old(self).enemy_wins < u8::MAX,
        ensures
            final(self)@ == after_round(old(self)@, outcome),
    {
        match outcome {
            Winner::User => self.user_wins = self.user_wins + 1,
            Winner::Enemy => self.enemy_wins = self.enemy_wins + 1,
            Winner::Tie => {},
        }
    }

    /// Plays one round: resolves `moves`, counts the result, and reports it
    /// together with the side that has now taken the match, if any. A round
    /// with an unset move is refused and changes nothing.
    pub fn play_round(&mut self, moves: &PlayerMoves, game_settings: &GameSettings) -> (r: Result<
        (Winner, Option<Winner>),
        GameError,
    >)
        requires
            old(self).user_wins < u8::MAX,
            old(self).enemy_wins < u8::MAX,
        ensures
            match round_outcome(moves.user_move, moves.enemy_move) {
                Err(e) => r == Err::<(Winner, Option<Winner>), GameError>(e) && *final(self) == *old(
                    self,
                ),
                Ok(w) => final(self)@ == after_round(old(self)@, w) && r == Ok::<
                    (Winner, Option<Winner>),
                    GameError,
                >((w, match_winner(final(self)@, game_settings.first_to as nat))),
            },
    {
        let outcome = moves.check_who_wins_round();
        match outcome {
            Err(e) => Err(e),
            Ok(w) => {
                self.record_round(w);
                let taken = match self.check_for_winner(game_settings) {
                    Ok(m) => Some(m),
                    Err(_) => None,
                };
                Ok((w, taken))
            },
        }
    }
}

/// Playing any sequence of rounds from fresh scores leaves each side's count
/// equal to the number of rounds it won; ties never change either count.
pub proof fn lemma_tally_counts_wins(rounds: Seq<Winner>)
    ensures
        tally((0, 0), rounds) == (
            count_outcome(rounds, Winner::User),
            count_outcome(rounds, Winner::Enemy),
        ),
        tally((0, 0), rounds.push(Winner::Tie)) == tally((0, 0), rounds),
    decreases rounds.len(),
{
    if rounds.len() > 0 {
        lemma_tally_counts_wins(rounds.drop_last());
    }
    assert(rounds.push(Winner::Tie).drop_last() =~= rounds);
}

/// Resetting twice leaves the same zeroed scores as resetting once, and
/// right after a reset no side has taken a match whose target is at least
/// one.
pub proof fn lemma_reset_idempotent(s: (nat, nat), target: nat)
    requires
        target >= 1,
    ensures
        reset_scores(reset_scores(s)) == reset_scores(s),
        reset_scores(s) == (0nat, 0nat),
        match_winner(reset_scores(s), target) is None,
{
}

} // verus!
