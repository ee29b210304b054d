use vstd::prelude::*;

verus! {

/// The result of one round, or the side that took the match.
#[derive(Debug, Clone, Copy, PartialEq, Eq, Structural)]
pub enum Winner {
    Tie,
    User,
    Enemy,
}

/// The label shown for each result.
pub open spec fn winner_label(w: Winner) -> Seq<char> {
    match w {
        Winner::Tie => "Tie"@,
        Winner::User => "User"@,
        Winner::Enemy => "Enemy"@,
    }
}

impl Winner {
    /// The human-readable label of this result.
    pub fn convert_to_string(&self) -> (r: String)
        ensures
            r@ == winner_label(*self),
    {
        match self {
            Winner::Tie => "Tie".to_string(),
            Winner::User => "User".to_string(),
            Winner::Enemy => "Enemy".to_string(),
        }
    }
}

} // verus!
