//! Records of an ear-training game: the attempts of a player and the times
//! at which they were made.

use vstd::prelude::*;

verus! {

/// `NaiveDateTime` of chrono: a date and a time of day without a time
/// zone. It is carried as it is; nothing is known here of what it holds.
#[verifier::external_type_specification]
#[verifier::external_body]
pub struct ExNaiveDateTime(chrono::NaiveDateTime);

/// `Utc::now` of chrono, read through `DateTime::naive_utc`: the date and
/// time of the system clock in UTC. Nothing is claimed of the result, which
/// differs from call to call. The crate stops the program where the system
/// clock stands before the year 1970.
#[verifier::external_body]
pub(crate) fn current_time() -> (time: chrono::NaiveDateTime) {
    chrono::Utc::now().naive_utc()
}

/// One answer of a player, with the answer that was asked for.
pub struct Attempt<T, U> {
    pub correct_answer: U,
    pub attempt_answer: T,
    pub correct: bool,
    pub attempt_number: u64,
    pub time_since_last_attempt: Option<u64>,
    pub elapsed_time: u64,
    pub attempt_time: chrono::NaiveDateTime,
    pub game_number: u64,
}

impl<T: Ord, U: Ord> Attempt<T, U> {
    /// Records an attempt made now. The times are given in whole seconds.
    /// The attempt is not yet marked as correct.
    pub fn new(
        correct_answer: U,
        attempt_answer: T,
        attempt_number: u64,
        time_since_last_attempt: Option<u64>,
        elapsed_time: u64,
        game_number: u64,
    ) -> (attempt: Self)
        ensures
            attempt.correct_answer == correct_answer,
            attempt.attempt_answer == attempt_answer,
            !attempt.correct,
            attempt.attempt_number == attempt_number,
            attempt.time_since_last_attempt == time_since_last_attempt,
            attempt.elapsed_time == elapsed_time,
            attempt.game_number == game_number,
    {
        let attempt_time = current_time();
        Attempt::made_at(
            attempt_time,
            correct_answer,
            attempt_answer,
            attempt_number,
            time_since_last_attempt,
            elapsed_time,
            game_number,
        )
    }

    /// Records an attempt made at a given time. The times are given in
    /// whole seconds. The attempt is not yet marked as correct.
    pub fn made_at(
        attempt_time: chrono::NaiveDateTime,
        correct_answer: U,
        attempt_answer: T,
        attempt_number: u64,
        time_since_last_attempt: Option<u64>,
        elapsed_time: u64,
        game_number: u64,
    ) -> (attempt: Self)
        ensures
            attempt == (Attempt {
                correct_answer,
                attempt_answer,
                correct: false,
                attempt_number,
                time_since_last_attempt,
                elapsed_time,
                attempt_time,
                game_number,
            }),
    {
        match time_since_last_attempt {
            Some(time_since) => Attempt {
                correct_answer,
                attempt_answer,
                correct: false,
                attempt_number,
                time_since_last_attempt: Some(time_since),
                elapsed_time,
                attempt_time,
                game_number,
            },
            None => Attempt {
                correct_answer,
                attempt_answer,
                correct: false,
                attempt_number,
                time_since_last_attempt: None,
                elapsed_time,
                attempt_time,
                game_number,
            },
        }
    }

    /// The times of an attempt: the seconds since the attempt before it, if
    /// there was one, the seconds since the game began, and the time at
    /// which it was made.
    pub fn deserialize_time(&self) -> (times: (Option<u64>, u64, chrono::NaiveDateTime))
        ensures
            times.0 == self.time_since_last_attempt,
            times.1 == self.elapsed_time,
            times.2 == self.attempt_time,
    {
        match self.time_since_last_attempt {
            Some(time_since) => (Some(time_since), self.elapsed_time, self.attempt_time),
            None => (None, self.elapsed_time, self.attempt_time),
        }
    }
}

/// A game: the notes that may be asked for, and what the player has
/// answered so far.
pub struct Game<T, U> {
    pub game_number: u64,
    pub possible_notes: Vec<U>,
    pub attempted_notes: Vec<T>,
    pub attempts: Vec<Attempt<T, U>>,
    pub start_time: chrono::NaiveDateTime,
    pub end_time: Option<chrono::NaiveDateTime>,
}

impl<T, U> Game<T, U> {
    /// Begins a game now, with nothing attempted yet.
    pub fn new(possible_notes: Vec<U>, game_number: u64) -> (game: Self)
        ensures
            game.game_number == game_number,
            game.possible_notes == possible_notes,
            game.attempted_notes@.len() == 0,
            game.attempts@.len() == 0,
            game.end_time is None,
    {
        Game::begun_at(current_time(), possible_notes, game_number)
    }

    /// Begins a game at a given time, with nothing attempted yet.
    pub fn begun_at(start_time: chrono::NaiveDateTime, possible_notes: Vec<U>, game_number: u64) -> (game:
        Self)
        ensures
            game.game_number == game_number,
            game.possible_notes == possible_notes,
            game.attempted_notes@.len() == 0,
            game.attempts@.len() == 0,
            game.start_time == start_time,
            game.end_time is None,
    {
        Game {
            game_number,
            possible_notes,
            attempted_notes: Vec::new(),
            attempts: Vec::new(),
            start_time,
            end_time: None,
        }
    }
}

} // verus!
