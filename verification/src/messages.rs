//! The lines that tell of each move, for whoever keeps a log of the game.
//!
//! A line names a party as its public key is displayed, in base 58. That text
//! comes from `Pubkey` itself; the rest of each line is put together here.
//!
//! [`new_game_told`], [`make_guess_told`] and [`close_game_told`] make a move
//! and hand back its line with its result, so that the line tells of the
//! move as it was made.

use vstd::prelude::*;
use crate::error::GameError;
use crate::game::{close_game, make_guess, new_game, CloseGame, MakeGuess, NewGame};
use crate::identity::Identity;
use crate::state::{GameRecord, GameState, GuessOutcome, valid_number};

verus! {

/// The text under which the party with the key bytes `key` is known: the
/// bytes written in base 58, as `Pubkey` displays a key.
pub uninterp spec fn base58_text(key: Seq<u8>) -> Seq<char>;

/// Makes a `Pubkey` of the bytes of `identity` with `Pubkey::new_from_array`
/// and has it displayed with `to_string`.
///
/// Nothing is proved of this. It is taken from `Pubkey` that the text is the
/// base-58 text of the 32 bytes and depends on nothing else: its `Display`
/// writes what `bs58::encode` makes of them.
#[verifier::external_body]
fn key_text(identity: &Identity) -> (text: String)
    ensures
        text@ == base58_text(identity@),
{
    anchor_lang::prelude::Pubkey::new_from_array(identity.bytes).to_string()
}

/// The decimal digit for `d`.
pub open spec fn digit_char(d: nat) -> char {
    seq!['0', '1', '2', '3', '4', '5', '6', '7', '8', '9'][d as int]
}

/// `n` written in decimal digits, without leading zeros.
pub open spec fn decimal_text(n: nat) -> Seq<char>
    decreases n,
{
    if n < 10 {
        seq![digit_char(n)]
    } else {
        decimal_text(n / 10).push(digit_char(n % 10))
    }
}

/// The decimal digit for `d`, as a text of one character.
fn digit_text(d: u8) -> (text: &'static str)
    requires
        d < 10,
    ensures
        text@ == seq![digit_char(d as nat)],
{
    proof {
        reveal_strlit("0");
        reveal_strlit("1");
        reveal_strlit("2");
        reveal_strlit("3");
        reveal_strlit("4");
        reveal_strlit("5");
        reveal_strlit("6");
        reveal_strlit("7");
        reveal_strlit("8");
        reveal_strlit("9");
    }
    let text = if d == 0 {
        "0"
    } else if d == 1 {
        "1"
    } else if d == 2 {
        "2"
    } else if d == 3 {
        "3"
    } else if d == 4 {
        "4"
    } else if d == 5 {
        "5"
    } else if d == 6 {
        "6"
    } else if d == 7 {
        "7"
    } else if d == 8 {
        "8"
    } else {
        "9"
    };
    assert(text@ =~= seq![digit_char(d as nat)]);
    text
}

/// `n` written in decimal digits, without leading zeros.
pub fn number_text(n: u8) -> (text: String)
    ensures
        text@ == decimal_text(n as nat),
{
    let mut text = String::new();
    if n >= 100 {
        text.append(digit_text(n / 100));
    }
    if n >= 10 {
        text.append(digit_text((n / 10) % 10));
    }
    text.append(digit_text(n % 10));
    proof {
        reveal_with_fuel(decimal_text, 3);
        assert(text@ =~= decimal_text(n as nat));
    }
    text
}

/// The line that tells of a new game of the party known as `creator`.
pub open spec fn created_text(creator: Seq<char>) -> Seq<char> {
    "New game created by "@ + creator
}

/// The line that tells how the accepted guess `guess` of the party known as
/// `guesser` turned out, after which the game had counted `attempts` guesses.
pub open spec fn guess_text(
    outcome: GuessOutcome,
    guesser: Seq<char>,
    guess: nat,
    attempts: nat,
) -> Seq<char> {
    match outcome {
        GuessOutcome::Correct => guesser + " guessed the correct number "@ + decimal_text(guess)
            + " in "@ + decimal_text(attempts) + " attempts!"@,
        GuessOutcome::TooLow => "Your guess of "@ + decimal_text(guess) + " is too low!"@,
        GuessOutcome::TooHigh => "Your guess of "@ + decimal_text(guess) + " is too high!"@,
    }
}

/// The line that tells that the record of a game was reclaimed by the party
/// known as `creator`.
pub open spec fn closed_text(creator: Seq<char>) -> Seq<char> {
    "Game has been closed. "@ + creator + " retrieves the funds."@
}

/// The line that tells of a new game of `creator`.
pub fn created_line(creator: &Identity) -> (line: String)
    ensures
        line@ == created_text(base58_text(creator@)),
{
    let name = key_text(creator);
    created_line_with(name.as_str())
}

/// The line that tells of a new game of the party known as `creator`.
pub fn created_line_with(creator: &str) -> (line: String)
    ensures
        line@ == created_text(creator@),
{
    let mut line = "New game created by ".to_owned();
    line.append(creator);
    line
}

/// The line that tells how the accepted guess `guess` of `guesser` turned
/// out, after which the game had counted `attempts` guesses.
pub fn guess_line(
    outcome: GuessOutcome,
    guesser: &Identity,
    guess: u8,
    attempts: u8,
) -> (line: String)
    ensures
        line@ == guess_text(outcome, base58_text(guesser@), guess as nat, attempts as nat),
{
    match outcome {
        GuessOutcome::Correct => {
            let name = key_text(guesser);
            guess_line_with(outcome, name.as_str(), guess, attempts)
        },
        _ => guess_line_with(outcome, "", guess, attempts),
    }
}

/// The line that tells how the accepted guess `guess` of the party known as
/// `guesser` turned out, after which the game had counted `attempts` guesses.
/// Only the line of a guess that hit the secret names the guesser.
pub fn guess_line_with(
    outcome: GuessOutcome,
    guesser: &str,
    guess: u8,
    attempts: u8,
) -> (line: String)
    ensures
        line@ == guess_text(outcome, guesser@, guess as nat, attempts as nat),
{
    let number = number_text(guess);
    match outcome {
        GuessOutcome::Correct => {
            let count = number_text(attempts);
            let mut line = guesser.to_owned();
            line.append(" guessed the correct number ");
            line.append(number.as_str());
            line.append(" in ");
            line.append(count.as_str());
            line.append(" attempts!");
            line
        },
        GuessOutcome::TooLow => {
            let mut line = "Your guess of ".to_owned();
            line.append(number.as_str());
            line.append(" is too low!");
            line
        },
        GuessOutcome::TooHigh => {
            let mut line = "Your guess of ".to_owned();
            line.append(number.as_str());
            line.append(" is too high!");
            line
        },
    }
}

/// The line that tells that the record of a game was reclaimed by `creator`.
pub fn closed_line(creator: &Identity) -> (line: String)
    ensures
        line@ == closed_text(base58_text(creator@)),
{
    let name = key_text(creator);
    closed_line_with(name.as_str())
}

/// The line that tells that the record of a game was reclaimed by the party
/// known as `creator`.
pub fn closed_line_with(creator: &str) -> (line: String)
    ensures
        line@ == closed_text(creator@),
{
    let mut line = "Game has been closed. ".to_owned();
    line.append(creator);
    line.append(" retrieves the funds.");
    line
}

/// Sets up a game as [`new_game`] does, and hands back with the new record
/// the line that tells of it, which names the creator.
pub fn new_game_told(ctx: &NewGame, secret_number: u8) -> (result: Result<
    (GameState, String),
    GameError,
>)
    ensures
        result is Ok <==> valid_number(secret_number as int),
        !valid_number(secret_number as int) ==> result == Err::<(GameState, String), GameError>(
            GameError::InvalidNumber,
        ),
        result matches Ok(told) ==> told.0@ == GameRecord::created(
            ctx.creator,
            secret_number as nat,
            ctx.bump as nat,
        ),
        result matches Ok(told) ==> told.0.well_formed(),
        result matches Ok(told) ==> told.1@ == created_text(base58_text(ctx.creator@)),
{
    match new_game(ctx, secret_number) {
        Ok(game) => {
            let line = created_line(&game.creator);
            Ok((game, line))
        },
        Err(error) => Err(error),
    }
}

/// Lets `ctx.guesser` try `guess` as [`make_guess`] does, and hands back with
/// the outcome of an accepted guess the line that tells of it. The line of a
/// guess that hit the secret names the guesser, the guess, and the count of
/// attempts as it stands after this guess.
pub fn make_guess_told(ctx: &mut MakeGuess, guess: u8) -> (result: Result<
    (GuessOutcome, String),
    GameError,
>)
    requires
        old(ctx).can_count(guess),
    ensures
        final(ctx).guesser == old(ctx).guesser,
        final(ctx).game_state@ == old(ctx).game_state@.guessed(old(ctx).guesser, guess as int),
        result is Ok <==> old(ctx).guess_error(guess as int) is None,
        result matches Err(error) ==> old(ctx).guess_error(guess as int) == Some(error),
        result is Err ==> *final(ctx) == *old(ctx),
        result matches Ok(told) ==> told.0 == old(ctx).game_state@.outcome(guess as int),
        result matches Ok(told) ==> told.1@ == guess_text(
            told.0,
            base58_text(old(ctx).guesser@),
            guess as nat,
            final(ctx).game_state@.attempts,
        ),
        result is Ok ==> final(ctx).game_state@.attempts == old(ctx).game_state@.attempts + 1,
        !old(ctx).game_state.is_active ==> result == Err::<(GuessOutcome, String), GameError>(
            GameError::GameNotActive,
        ),
        old(ctx).game_state.is_active && old(ctx).guesser == old(ctx).game_state.creator
            ==> result == Err::<(GuessOutcome, String), GameError>(
            GameError::CannotGuessOwnGame,
        ),
        old(ctx).game_state.is_active && old(ctx).guesser != old(ctx).game_state.creator
            && !valid_number(guess as int) ==> result == Err::<(GuessOutcome, String), GameError>(
            GameError::InvalidNumber,
        ),
        old(ctx).game_state.well_formed() ==> final(ctx).game_state.well_formed(),
{
    match make_guess(ctx, guess) {
        Ok(outcome) => {
            let line = guess_line(outcome, &ctx.guesser, guess, ctx.game_state.attempts);
            Ok((outcome, line))
        },
        Err(error) => Err(error),
    }
}

/// Decides as [`close_game`] does whether `ctx.creator` may reclaim the
/// record, and hands back with the party that gets what was reserved for it
/// the line that tells of it, which names that party.
pub fn close_game_told(ctx: &CloseGame) -> (result: Result<(Identity, String), GameError>)
    ensures
        result is Ok <==> ctx.game_state@.close_error(ctx.creator) is None,
        result matches Err(error) ==> ctx.game_state@.close_error(ctx.creator) == Some(error),
        result matches Ok(told) ==> told.0 == ctx.game_state.creator && told.0 == ctx.creator,
        result matches Ok(told) ==> told.1@ == closed_text(base58_text(ctx.creator@)),
        ctx.creator != ctx.game_state.creator ==> result == Err::<(Identity, String), GameError>(
            GameError::UnAuthorized,
        ),
        ctx.game_state.is_active && ctx.creator == ctx.game_state.creator ==> result == Err::<
            (Identity, String),
            GameError,
        >(GameError::GameStillActive),
{
    match close_game(ctx) {
        Ok(recipient) => {
            let line = closed_line(&recipient);
            Ok((recipient, line))
        },
        Err(error) => Err(error),
    }
}

} // verus!
