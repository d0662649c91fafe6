//! The record of one game, and the moves of the game as a mathematical
//! state machine on that record.

use vstd::prelude::*;
use crate::error::GameError;
use crate::identity::Identity;

verus! {

/// The smallest number that can be a secret or a guess.
pub const MIN_NUMBER: u8 = 1;

/// The largest number that can be a secret or a guess.
pub const MAX_NUMBER: u8 = 100;

/// Whether `n` may be a secret or a guess.
pub open spec fn valid_number(n: int) -> bool {
    MIN_NUMBER <= n <= MAX_NUMBER
}

/// Whether `n` may be a secret or a guess.
pub fn is_valid_number(n: u8) -> (valid: bool)
    ensures
        valid == valid_number(n as int),
{
    MIN_NUMBER <= n && n <= MAX_NUMBER
}

/// What an accepted guess turned out to be.
#[derive(Clone, Copy, Debug, PartialEq, Eq, Structural)]
pub enum GuessOutcome {
    /// The guess is smaller than the secret.
    TooLow,
    /// The guess is larger than the secret.
    TooHigh,
    /// The guess is the secret: the guesser has won.
    Correct,
}

/// The stored record of one game.
#[derive(Clone, Copy, Debug, PartialEq, Eq)]
pub struct GameState {
    /// The number to be guessed.
    pub secret_number: u8,
    /// How many guesses have been accepted so far.
    pub attempts: u8,
    /// Who created the game.
    pub creator: Identity,
    /// Whether the game still takes guesses.
    pub is_active: bool,
    /// Who guessed the secret, once somebody has.
    pub winner: Option<Identity>,
    /// The salt from which the store derives the record's address.
    pub bump: u8,
}

/// A game as a mathematical value: a `GameState` whose numbers are free of
/// any machine width, so that guesses can be counted without end.
pub struct GameRecord {
    /// The number to be guessed.
    pub secret_number: nat,
    /// How many guesses have been accepted so far.
    pub attempts: nat,
    /// Who created the game.
    pub creator: Identity,
    /// Whether the game still takes guesses.
    pub is_active: bool,
    /// Who guessed the secret, once somebody has.
    pub winner: Option<Identity>,
    /// The salt from which the store derives the record's address.
    pub bump: nat,
}

impl View for GameState {
    type V = GameRecord;

    open spec fn view(&self) -> GameRecord {
        GameRecord {
            secret_number: self.secret_number as nat,
            attempts: self.attempts as nat,
            creator: self.creator,
            is_active: self.is_active,
            winner: self.winner,
            bump: self.bump as nat,
        }
    }
}

impl GameRecord {
    /// What holds of every record that the game produces: the secret is a
    /// valid number, the game is over exactly when it has a winner, and the
    /// winner is not the creator.
    pub open spec fn well_formed(self) -> bool {
        &&& valid_number(self.secret_number as int)
        &&& self.is_active <==> self.winner is None
        &&& self.winner != Some(self.creator)
    }

    /// The record of a game that `creator` has just set up.
    pub open spec fn created(creator: Identity, secret_number: nat, bump: nat) -> GameRecord {
        GameRecord {
            secret_number,
            attempts: 0,
            creator,
            is_active: true,
            winner: None,
            bump,
        }
    }

    /// Why the guess `guess` of `guesser` is turned down, or `None` where it
    /// is accepted. The game must be going on, the guesser must not be the
    /// creator, and the guess must be a valid number; the first of these that
    /// fails gives the error. So the creator of a game that is going on is
    /// told that they cannot guess whatever number they try.
    pub open spec fn guess_error(self, guesser: Identity, guess: int) -> Option<GameError> {
        if !self.is_active {
            Some(GameError::GameNotActive)
        } else if guesser == self.creator {
            Some(GameError::CannotGuessOwnGame)
        } else if !valid_number(guess) {
            Some(GameError::InvalidNumber)
        } else {
            None
        }
    }

    /// How `guess` compares with the secret.
    pub open spec fn outcome(self, guess: int) -> GuessOutcome {
        if guess == self.secret_number {
            GuessOutcome::Correct
        } else if guess < self.secret_number {
            GuessOutcome::TooLow
        } else {
            GuessOutcome::TooHigh
        }
    }

    /// The record after the accepted guess `guess` of `guesser`: one more
    /// attempt, and where the guess is the secret the game is over and
    /// `guesser` has won.
    pub open spec fn after_guess(self, guesser: Identity, guess: int) -> GameRecord {
        if guess == self.secret_number {
            GameRecord {
                attempts: self.attempts + 1,
                is_active: false,
                winner: Some(guesser),
                ..self
            }
        } else {
            GameRecord { attempts: self.attempts + 1, ..self }
        }
    }

    /// The record after `guesser` has tried `guess`, whether the guess was
    /// accepted or turned down. A guess that is turned down changes nothing.
    pub open spec fn guessed(self, guesser: Identity, guess: int) -> GameRecord {
        if self.guess_error(guesser, guess) is None {
            self.after_guess(guesser, guess)
        } else {
            self
        }
    }

    /// Why `caller` may not reclaim the record, or `None` where they may.
    /// Only the creator may, and only once the game is over; a caller who is
    /// not the creator is told so whatever the state of the game.
    pub open spec fn close_error(self, caller: Identity) -> Option<GameError> {
        if caller != self.creator {
            Some(GameError::UnAuthorized)
        } else if self.is_active {
            Some(GameError::GameStillActive)
        } else {
            None
        }
    }
}

impl GameState {
    /// Whether this record is one that the game can have produced.
    pub open spec fn well_formed(&self) -> bool {
        self@.well_formed()
    }

    /// A record is known by its mathematical value: two records with the
    /// same view are the same record.
    pub proof fn lemma_view_is_faithful(a: GameState, b: GameState)
        ensures
            (a@ == b@) <==> (a == b),
    {
    }

    /// Why the guess `guess` of `guesser` would be turned down, or `None`
    /// where it would be accepted. Nothing is changed.
    pub fn guess_error(&self, guesser: &Identity, guess: u8) -> (error: Option<GameError>)
        ensures
            error == self@.guess_error(*guesser, guess as int),
    {
        if !self.is_active {
            Some(GameError::GameNotActive)
        } else if self.creator == *guesser {
            Some(GameError::CannotGuessOwnGame)
        } else if !is_valid_number(guess) {
            Some(GameError::InvalidNumber)
        } else {
            None
        }
    }

    /// Why `caller` may not reclaim this record, or `None` where they may.
    /// Nothing is changed.
    pub fn close_error(&self, caller: &Identity) -> (error: Option<GameError>)
        ensures
            error == self@.close_error(*caller),
    {
        if self.creator != *caller {
            Some(GameError::UnAuthorized)
        } else if self.is_active {
            Some(GameError::GameStillActive)
        } else {
            None
        }
    }
}

} // verus!
