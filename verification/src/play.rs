//! Whole games: what a run of guesses, one after the other, does to a record.

use vstd::prelude::*;
use crate::error::GameError;
use crate::identity::Identity;
use crate::state::{GameRecord, valid_number};

verus! {

/// One guess in a run of guesses: who guesses, and which number.
pub struct Guess {
    /// The party that guesses.
    pub guesser: Identity,
    /// The number that it tries.
    pub number: int,
}

impl GameRecord {
    /// The record after the guesses of `guesses` have been tried in turn,
    /// each of them accepted or turned down as the record then stands.
    pub open spec fn after_guesses(self, guesses: Seq<Guess>) -> GameRecord
        decreases guesses.len(),
    {
        if guesses.len() == 0 {
            self
        } else {
            self.after_guesses(guesses.drop_last()).guessed(
                guesses.last().guesser,
                guesses.last().number,
            )
        }
    }

    /// Whether `guess` is a valid guess at this game that misses the secret:
    /// a valid number, not the secret, from someone other than the creator.
    pub open spec fn is_valid_miss(self, guess: Guess) -> bool {
        &&& guess.guesser != self.creator
        &&& valid_number(guess.number)
        &&& guess.number != self.secret_number
    }

    /// Whether `guess` is a valid guess at this game that hits the secret.
    pub open spec fn is_valid_hit(self, guess: Guess) -> bool {
        &&& guess.guesser != self.creator
        &&& valid_number(guess.number)
        &&& guess.number == self.secret_number
    }

    /// No run of guesses, accepted or not, changes the secret, the creator or
    /// the salt of a game, nor lowers the count of attempts, which grows by
    /// one for each guess at most.
    pub proof fn lemma_guesses_keep_what_is_fixed(self, guesses: Seq<Guess>)
        ensures
            self.after_guesses(guesses).secret_number == self.secret_number,
            self.after_guesses(guesses).creator == self.creator,
            self.after_guesses(guesses).bump == self.bump,
            self.attempts <= self.after_guesses(guesses).attempts <= self.attempts
                + guesses.len(),
        decreases guesses.len(),
    {
        if guesses.len() > 0 {
            self.lemma_guesses_keep_what_is_fixed(guesses.drop_last());
        }
    }

    /// A well-formed record stays well-formed under every run of guesses.
    pub proof fn lemma_guesses_keep_well_formed(self, guesses: Seq<Guess>)
        requires
            self.well_formed(),
        ensures
            self.after_guesses(guesses).well_formed(),
        decreases guesses.len(),
    {
        if guesses.len() > 0 {
            self.lemma_guesses_keep_well_formed(guesses.drop_last());
            self.lemma_guesses_keep_what_is_fixed(guesses.drop_last());
        }
    }

    /// A game that is over stays as it is: no run of guesses changes its
    /// record in any field, so it is never taken up again, its winner stays,
    /// and its count of attempts stands.
    pub proof fn lemma_finished_game_is_final(self, guesses: Seq<Guess>)
        requires
            !self.is_active,
        ensures
            self.after_guesses(guesses) == self,
        decreases guesses.len(),
    {
        if guesses.len() > 0 {
            self.lemma_finished_game_is_final(guesses.drop_last());
        }
    }

    /// A game that is going on after a run of guesses was going on before
    /// it: a game that is over is never taken up again.
    pub proof fn lemma_game_ends_once(self, guesses: Seq<Guess>)
        ensures
            self.after_guesses(guesses).is_active ==> self.is_active,
        decreases guesses.len(),
    {
        if guesses.len() > 0 {
            self.lemma_game_ends_once(guesses.drop_last());
        }
    }

    /// The winner of a game is set once: a well-formed record that has a
    /// winner keeps that winner under every run of guesses.
    pub proof fn lemma_winner_stays(self, guesses: Seq<Guess>)
        requires
            self.well_formed(),
            self.winner is Some,
        ensures
            self.after_guesses(guesses).winner == self.winner,
    {
        self.lemma_finished_game_is_final(guesses);
    }

    /// Valid guesses that all miss the secret are all counted and leave the
    /// game going on, with the winner it had before.
    pub proof fn lemma_misses_are_counted(self, misses: Seq<Guess>)
        requires
            self.is_active,
            forall|i: int| 0 <= i < misses.len() ==> self.is_valid_miss(#[trigger] misses[i]),
        ensures
            self.after_guesses(misses).is_active,
            self.after_guesses(misses).winner == self.winner,
            self.after_guesses(misses).attempts == self.attempts + misses.len(),
        decreases misses.len(),
    {
        if misses.len() > 0 {
            self.lemma_misses_are_counted(misses.drop_last());
            self.lemma_guesses_keep_what_is_fixed(misses.drop_last());
        }
    }

    /// In a game that is going on, after any number of valid guesses that
    /// miss the secret and then one valid guess that hits it, every one of
    /// these guesses has been counted, the game is over, and the winner is
    /// the party that made the last guess.
    pub proof fn lemma_misses_then_hit(self, misses: Seq<Guess>, hit: Guess)
        requires
            self.is_active,
            forall|i: int| 0 <= i < misses.len() ==> self.is_valid_miss(#[trigger] misses[i]),
            self.is_valid_hit(hit),
        ensures
            self.after_guesses(misses.push(hit)).attempts == self.attempts + misses.len() + 1,
            !self.after_guesses(misses.push(hit)).is_active,
            self.after_guesses(misses.push(hit)).winner == Some(hit.guesser),
    {
        self.lemma_misses_are_counted(misses);
        self.lemma_guesses_keep_what_is_fixed(misses);
        assert(misses.push(hit).drop_last() == misses);
    }
}

/// A new game that sees `misses.len()` valid guesses that miss the secret and
/// then one valid guess that hits it has counted `misses.len() + 1` attempts,
/// is over, and was won by the party that made the last guess. Up to that
/// guess every guess was counted, the game was going on and had no winner:
/// the winner is set once.
pub proof fn lemma_new_game_is_won_once(
    creator: Identity,
    secret_number: nat,
    bump: nat,
    misses: Seq<Guess>,
    hit: Guess,
)
    requires
        forall|i: int|
            0 <= i < misses.len() ==> GameRecord::created(
                creator,
                secret_number,
                bump,
            ).is_valid_miss(#[trigger] misses[i]),
        GameRecord::created(creator, secret_number, bump).is_valid_hit(hit),
    ensures
        GameRecord::created(creator, secret_number, bump).after_guesses(
            misses.push(hit),
        ).attempts == misses.len() + 1,
        !GameRecord::created(creator, secret_number, bump).after_guesses(
            misses.push(hit),
        ).is_active,
        GameRecord::created(creator, secret_number, bump).after_guesses(misses.push(hit)).winner
            == Some(hit.guesser),
        forall|k: int|
            0 <= k <= misses.len() ==> (#[trigger] GameRecord::created(
                creator,
                secret_number,
                bump,
            ).after_guesses(misses.take(k))).attempts == k,
        forall|k: int|
            0 <= k <= misses.len() ==> (#[trigger] GameRecord::created(
                creator,
                secret_number,
                bump,
            ).after_guesses(misses.take(k))).is_active,
        forall|k: int|
            0 <= k <= misses.len() ==> (#[trigger] GameRecord::created(
                creator,
                secret_number,
                bump,
            ).after_guesses(misses.take(k))).winner is None,
{
    let start = GameRecord::created(creator, secret_number, bump);
    start.lemma_misses_then_hit(misses, hit);
    assert forall|k: int| 0 <= k <= misses.len() implies {
        &&& (#[trigger] start.after_guesses(misses.take(k))).attempts == k
        &&& start.after_guesses(misses.take(k)).is_active
        &&& start.after_guesses(misses.take(k)).winner is None
    } by {
        start.lemma_misses_are_counted(misses.take(k));
    }
}

/// The creator of a new game cannot reclaim its record while the guesses
/// miss the secret, and can as soon as one valid guess has hit it. Nobody else
/// can at any time.
pub proof fn lemma_record_is_reclaimed_after_the_win(
    creator: Identity,
    secret_number: nat,
    bump: nat,
    misses: Seq<Guess>,
    hit: Guess,
    stranger: Identity,
)
    requires
        forall|i: int|
            0 <= i < misses.len() ==> GameRecord::created(
                creator,
                secret_number,
                bump,
            ).is_valid_miss(#[trigger] misses[i]),
        GameRecord::created(creator, secret_number, bump).is_valid_hit(hit),
        stranger != creator,
    ensures
        GameRecord::created(creator, secret_number, bump).after_guesses(misses).close_error(
            creator,
        ) == Some(GameError::GameStillActive),
        GameRecord::created(creator, secret_number, bump).after_guesses(
            misses.push(hit),
        ).close_error(creator) is None,
        GameRecord::created(creator, secret_number, bump).after_guesses(misses).close_error(
            stranger,
        ) == Some(GameError::UnAuthorized),
        GameRecord::created(creator, secret_number, bump).after_guesses(
            misses.push(hit),
        ).close_error(stranger) == Some(GameError::UnAuthorized),
{
    let start = GameRecord::created(creator, secret_number, bump);
    start.lemma_misses_are_counted(misses);
    start.lemma_misses_then_hit(misses, hit);
    start.lemma_guesses_keep_what_is_fixed(misses);
    start.lemma_guesses_keep_what_is_fixed(misses.push(hit));
}

} // verus!
