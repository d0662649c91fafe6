//! A two-party number-guessing game as a verified state machine.
//!
//! One party, the creator, picks a secret number between 1 and 100. Any other
//! party may then submit guesses until one of them matches the secret. Each
//! game lives in a single record that counts the guesses and remembers the
//! winner; once the game is won its creator may reclaim the record.
//!
//! The library decides and computes; it stores nothing and prints nothing.
//! Whoever hosts the game keeps the records, makes sure that a caller is who
//! they claim to be, applies each move as one step, and writes the log.
//!
//! - [`identity`]: the parties, known by their keys.
//! - [`error`]: why a move can be turned down.
//! - [`state`]: the record of a game, and the game as a mathematical state
//!   machine on it.
//! - [`game`]: the three moves, [`new_game`], [`make_guess`] and
//!   [`close_game`].
//! - [`play`]: what holds of whole runs of guesses.
//! - [`messages`]: the line that tells of each move, for a log.

pub mod error;
pub mod game;
pub mod identity;
pub mod messages;
pub mod play;
pub mod state;

pub use error::GameError;
pub use game::{close_game, make_guess, new_game, CloseGame, MakeGuess, NewGame};
pub use identity::Identity;
pub use state::{is_valid_number, GameState, GuessOutcome, MAX_NUMBER, MIN_NUMBER};
