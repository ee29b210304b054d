use vstd::prelude::*;

use crate::error::GameError;

verus! {

/// The length of a match: the first side to win `first_to` rounds takes it.
#[derive(Debug, Clone, Copy, PartialEq, Eq, Structural)]
pub struct GameSettings {
    pub first_to: u8,
}

impl GameSettings {
    /// A target that can be reached: at least one round must be won.
    pub open spec fn wf(self) -> bool {
        self.first_to >= 1
    }

    /// The default match: first to one round win.
    pub fn new() -> (r: GameSettings)
        ensures
            r.first_to == 1,
            r.wf(),
    {
        GameSettings { first_to: 1 }
    }

    /// The common match: first to three round wins.
    pub fn first_to_3() -> (r: GameSettings)
        ensures
            r.first_to == 3,
            r.wf(),
    {
        GameSettings { first_to: 3 }
    }

    /// A match of the given length; a target of zero could never be won and
    /// is refused.
    pub fn from_first_to(target: u8) -> (r: Result<GameSettings, GameError>)
        ensures
            target == 0 ==> r == Err::<GameSettings, GameError>(GameError::InvalidConfiguration),
            target != 0 ==> r == Ok::<GameSettings, GameError>(GameSettings { first_to: target }),
            r matches Ok(s) ==> s.wf(),
    {
        if target == 0 {
            Err(GameError::InvalidConfiguration)
        } else {
            Ok(GameSettings { first_to: target })
        }
    }
}

} // verus!
