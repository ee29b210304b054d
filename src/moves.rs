use rand::Rng;
use vstd::prelude::*;

use crate::error::GameError;
use crate::text::{decimal_u8, parse_u8, trim_text, trimmed};

verus! {

/// A side's choice for a round; `Unset` stands for a side that has not
/// chosen yet.
#[derive(Debug, Clone, Copy, PartialEq, Eq, Structural)]
pub enum MoveType {
    Rock,
    Paper,
    Scissors,
    Unset,
}

impl MoveType {
    /// One of the three legal moves: anything but the unset marker.
    pub open spec fn is_chosen(self) -> bool {
        self !is Unset
    }
}

/// The label shown for each move.
pub open spec fn move_label(m: MoveType) -> Seq<char> {
    match m {
        MoveType::Rock => "Rock"@,
        MoveType::Paper => "Paper"@,
        MoveType::Scissors => "Scissors"@,
        MoveType::Unset => "None"@,
    }
}

/// The move that a numeric code selects: 1, 2 and 3 are rock, paper and
/// scissors; every other code is refused.
pub open spec fn move_of_code(code: int) -> Result<MoveType, GameError> {
    if code == 1 {
        Ok(MoveType::Rock)
    } else if code == 2 {
        Ok(MoveType::Paper)
    } else if code == 3 {
        Ok(MoveType::Scissors)
    } else {
        Err(GameError::InvalidMove)
    }
}

/// The move that a text selects: the text must be the decimal form of a
/// valid code.
pub open spec fn move_of_text(s: Seq<char>) -> Result<MoveType, GameError> {
    match decimal_u8(s) {
        Some(code) => move_of_code(code as int),
        None => Err(GameError::InvalidMove),
    }
}

/// Relies on `rand::rng` and `Rng::random_range`: a draw from the thread's
/// generator, which for an inclusive range lies within its bounds.
#[verifier::external_body]
fn draw_code() -> (r: u8)
    ensures
        1 <= r <= 3,
{
    rand::rng().random_range(1..=3u8)
}

impl MoveType {
    /// A move drawn at random; never the unset marker.
    pub fn random_move() -> (r: MoveType)
        ensures
            r.is_chosen(),
    {
        let code = draw_code();
        match MoveType::from_code(code) {
            Ok(m) => m,
            Err(_) => MoveType::Scissors,
        }
    }

    /// The human-readable label of this move.
    pub fn convert_to_string(&self) -> (r: String)
        ensures
            r@ == move_label(*self),
    {
        match self {
            MoveType::Rock => "Rock".to_string(),
            MoveType::Paper => "Paper".to_string(),
            MoveType::Scissors => "Scissors".to_string(),
            MoveType::Unset => "None".to_string(),
        }
    }

    /// The move selected by a numeric code (1 rock, 2 paper, 3 scissors).
    pub fn from_code(code: u8) -> (r: Result<MoveType, GameError>)
        ensures
            r == move_of_code(code as int),
            r matches Ok(m) ==> m.is_chosen(),
    {
        match code {
            1 => Ok(MoveType::Rock),
            2 => Ok(MoveType::Paper),
            3 => Ok(MoveType::Scissors),
            _ => Err(GameError::InvalidMove),
        }
    }

    /// The move selected by a text that holds only a decimal code.
    pub fn from_text(s: &str) -> (r: Result<MoveType, GameError>)
        ensures
            r == move_of_text(s@),
    {
        match parse_u8(s) {
            Some(code) => MoveType::from_code(code),
            None => Err(GameError::InvalidMove),
        }
    }

    /// The move selected by a line of user input: surrounding white space
    /// is ignored, the rest must be a decimal code.
    pub fn from_input_line(line: &str) -> (r: Result<MoveType, GameError>)
        ensures
            r == move_of_text(trimmed(line@)),
    {
        let t = trim_text(line);
        MoveType::from_text(t)
    }
}

} // verus!
