//! The three moves of the game: setting a game up, guessing, and reclaiming
//! the record of a game that is over.

use vstd::prelude::*;
use crate::error::GameError;
use crate::identity::Identity;
use crate::state::{GameRecord, GameState, GuessOutcome, is_valid_number, valid_number};

verus! {

/// What setting up a game works on.
#[derive(Clone, Copy, Debug, PartialEq, Eq)]
pub struct NewGame {
    /// The party that sets the game up.
    pub creator: Identity,
    /// The salt that the store found for the address of the new record.
    pub bump: u8,
}

/// What a guess works on.
#[derive(Clone, Copy, Debug, PartialEq, Eq)]
pub struct MakeGuess {
    /// The record of the game that is played.
    pub game_state: GameState,
    /// The party that guesses.
    pub guesser: Identity,
}

/// What reclaiming a record works on.
#[derive(Clone, Copy, Debug, PartialEq, Eq)]
pub struct CloseGame {
    /// The record that is to be reclaimed.
    pub game_state: GameState,
    /// The party that asks for it.
    pub creator: Identity,
}

impl MakeGuess {
    /// Why `guess` would be turned down, or `None` where it would be
    /// accepted.
    pub open spec fn guess_error(self, guess: int) -> Option<GameError> {
        self.game_state@.guess_error(self.guesser, guess)
    }

    /// Whether the record can take `guess`: a guess that is accepted is
    /// counted, and the counter, a byte, must have room for one more.
    pub open spec fn spec_can_count(&self, guess: u8) -> bool {
        self.guess_error(guess as int) is None ==> self.game_state.attempts < u8::MAX
    }

    /// Whether the record can take `guess`: a guess that is accepted is
    /// counted, and the counter, a byte, must have room for one more. A guess
    /// that is turned down needs no room.
    #[verifier::when_used_as_spec(spec_can_count)]
    pub fn can_count(&self, guess: u8) -> (fits: bool)
        ensures
            fits == self.spec_can_count(guess),
    {
        self.game_state.attempts < u8::MAX || self.game_state.guess_error(
            &self.guesser,
            guess,
        ).is_some()
    }
}

/// Sets up a game with the secret `secret_number` for `ctx.creator`.
///
/// A secret outside 1 to 100 is turned down with `InvalidNumber`, and then
/// there is no record. Otherwise the new record is returned: no attempts yet,
/// the game going on, nobody has won.
pub fn new_game(ctx: &NewGame, secret_number: u8) -> (result: Result<GameState, GameError>)
    ensures
        result is Ok <==> valid_number(secret_number as int),
        !valid_number(secret_number as int) ==> result == Err::<GameState, GameError>(
            GameError::InvalidNumber,
        ),
        result matches Ok(game) ==> game@ == GameRecord::created(
            ctx.creator,
            secret_number as nat,
            ctx.bump as nat,
        ),
        result matches Ok(game) ==> game.attempts == 0 && game.is_active && game.winner is None,
        result matches Ok(game) ==> game.well_formed(),
{
    if !is_valid_number(secret_number) {
        return Err(GameError::InvalidNumber);
    }
    Ok(
        GameState {
            secret_number,
            attempts: 0,
            creator: ctx.creator,
            is_active: true,
            winner: None,
            bump: ctx.bump,
        },
    )
}

/// Lets `ctx.guesser` try `guess` on the game `ctx.game_state`.
///
/// The guess is turned down, and nothing changes, with `GameNotActive` where
/// the game is over, else with `CannotGuessOwnGame` where the guesser is the
/// creator, whatever the guess, else with `InvalidNumber` where `guess` is
/// outside 1 to 100.
/// An accepted guess is counted; where it is the secret, the game is over and
/// the guesser has won. The result says how the guess compares with the
/// secret.
///
/// The record counts its guesses in a byte, so a guess that is accepted must
/// not be the 256th: [`MakeGuess::can_count`] tells.
pub fn make_guess(ctx: &mut MakeGuess, guess: u8) -> (result: Result<GuessOutcome, GameError>)
    requires
        old(ctx).can_count(guess),
    ensures
        final(ctx).guesser == old(ctx).guesser,
        final(ctx).game_state@ == old(ctx).game_state@.guessed(old(ctx).guesser, guess as int),
        result is Ok <==> old(ctx).guess_error(guess as int) is None,
        result matches Err(error) ==> old(ctx).guess_error(guess as int) == Some(error),
        result matches Ok(outcome) ==> outcome == old(ctx).game_state@.outcome(guess as int),
        result is Ok ==> final(ctx).game_state.attempts == old(ctx).game_state.attempts + 1,
        result is Err ==> *final(ctx) == *old(ctx),
        !old(ctx).game_state.is_active ==> result == Err::<GuessOutcome, GameError>(
            GameError::GameNotActive,
        ),
        old(ctx).game_state.is_active && old(ctx).guesser == old(ctx).game_state.creator
            ==> result == Err::<GuessOutcome, GameError>(GameError::CannotGuessOwnGame),
        old(ctx).game_state.is_active && old(ctx).guesser != old(ctx).game_state.creator
            && !valid_number(guess as int) ==> result == Err::<GuessOutcome, GameError>(
            GameError::InvalidNumber,
        ),
        old(ctx).guesser == old(ctx).game_state.creator ==> result is Err,
        old(ctx).game_state.well_formed() ==> final(ctx).game_state.well_formed(),
{
    match ctx.game_state.guess_error(&ctx.guesser, guess) {
        Some(error) => Err(error),
        None => {
            ctx.game_state.attempts = ctx.game_state.attempts + 1;
            if guess == ctx.game_state.secret_number {
                ctx.game_state.is_active = false;
                ctx.game_state.winner = Some(ctx.guesser);
                Ok(GuessOutcome::Correct)
            } else if guess < ctx.game_state.secret_number {
                Ok(GuessOutcome::TooLow)
            } else {
                Ok(GuessOutcome::TooHigh)
            }
        },
    }
}

/// Decides whether `ctx.creator` may reclaim the record `ctx.game_state`.
///
/// A caller who is not the creator of the game is turned down with
/// `UnAuthorized`, whatever the state of the game; the creator is turned down
/// with `GameStillActive` as long as nobody has won. Otherwise the result is
/// the party to whom what was reserved for the record goes back, which is the
/// creator, and the store may destroy the record. The record itself is never
/// changed here.
pub fn close_game(ctx: &CloseGame) -> (result: Result<Identity, GameError>)
    ensures
        result is Ok <==> ctx.game_state@.close_error(ctx.creator) is None,
        result matches Err(error) ==> ctx.game_state@.close_error(ctx.creator) == Some(error),
        result matches Ok(recipient) ==> recipient == ctx.game_state.creator,
        result is Ok ==> ctx.creator == ctx.game_state.creator && !ctx.game_state.is_active,
        ctx.creator != ctx.game_state.creator ==> result == Err::<Identity, GameError>(
            GameError::UnAuthorized,
        ),
        ctx.game_state.is_active ==> result is Err,
        ctx.game_state.is_active && ctx.creator == ctx.game_state.creator ==> result == Err::<
            Identity,
            GameError,
        >(GameError::GameStillActive),
{
    match ctx.game_state.close_error(&ctx.creator) {
        Some(error) => Err(error),
        None => Ok(ctx.game_state.creator),
    }
}

} // verus!
