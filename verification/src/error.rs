//! The reasons for which a move is turned down.

use vstd::prelude::*;

verus! {

/// Why a move was turned down. A move that is turned down changes nothing.
#[derive(Clone, Copy, Debug, PartialEq, Eq, Structural)]
pub enum GameError {
    /// A secret or a guess lies outside 1 to 100.
    InvalidNumber,
    /// The creator of a game tried to guess in it.
    CannotGuessOwnGame,
    /// A guess came after the game had been won.
    GameNotActive,
    /// The record was to be reclaimed before the game had been won.
    GameStillActive,
    /// Someone other than the creator tried to reclaim the record.
    UnAuthorized,
}

impl GameError {
    /// The sentence that explains this error.
    pub open spec fn message_text(self) -> Seq<char> {
        match self {
            GameError::InvalidNumber => "Secret number must be between 1 and 100"@,
            GameError::CannotGuessOwnGame => "The creator of the game cannot make guesses"@,
            GameError::GameNotActive => "The game is not active"@,
            GameError::GameStillActive => "The game is still active"@,
            GameError::UnAuthorized => "Only the creator can close this game"@,
        }
    }

    /// The sentence that explains this error, for a log or a user.
    pub fn message(&self) -> (text: String)
        ensures
            text@ == self.message_text(),
    {
        match self {
            GameError::InvalidNumber => "Secret number must be between 1 and 100".to_owned(),
            GameError::CannotGuessOwnGame => "The creator of the game cannot make guesses".to_owned(),
            GameError::GameNotActive => "The game is not active".to_owned(),
            GameError::GameStillActive => "The game is still active".to_owned(),
            GameError::UnAuthorized => "Only the creator can close this game".to_owned(),
        }
    }
}

} // verus!
