//! Rules engine for a round-based game of rock, paper, scissors: moves,
//! round outcomes, running scores and the first-to-N match rule.

pub mod error;
pub mod moves;
pub mod round;
pub mod scores;
pub mod settings;
pub mod text;
pub mod winner;

pub use error::GameError;
pub use moves::MoveType;
pub use round::{resolve, PlayerMoves};
pub use scores::Scores;
pub use settings::GameSettings;
pub use winner::Winner;
