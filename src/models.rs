//! The plain data that the session owns and hands to a renderer.
use vstd::prelude::*;

verus! {

/// Which view is active.
#[derive(Clone, Copy, Debug, PartialEq, Eq, Structural)]
pub enum CurrentScreen {
    Game,
    Menu,
    Leaderboard,
}

/// How key presses on the game screen are read.
#[derive(Clone, Copy, Debug, PartialEq, Eq, Structural)]
pub enum UserInputMode {
    InputNumber,
    InputName,
}

/// Moments are counted in milliseconds since the Unix epoch. Every moment
/// that the calendar can hold lies within this many milliseconds of it.
pub const MOMENT_LIMIT_MS: i64 = 10_000_000_000_000_000;

/// A millisecond count that stands for a calendar moment.
pub open spec fn valid_moment(t: i64) -> bool {
    -MOMENT_LIMIT_MS <= t <= MOMENT_LIMIT_MS
}

/// One submitted guess.
#[derive(Clone, Copy, Debug, PartialEq, Eq, Structural)]
pub struct GameMove {
    pub move_done_at: i64,
    pub user_value: i32,
}

/// The state of one round. `min_number` and `max_number` are the bounds
/// shown to the player; `range_min` and `range_max` are the bounds that the
/// round was started with.
#[derive(Clone, Debug)]
pub struct GameInfo {
    pub min_number: i32,
    pub max_number: i32,
    pub range_min: i32,
    pub range_max: i32,
    pub generated_number: i32,
    pub current_guess_response: String,
    pub is_game_over: bool,
    pub game_started_at: i64,
    pub game_completed_at: i64,
    pub is_hard_mode: bool,
}

/// One leaderboard entry: who won, in how many guesses, over which range,
/// when, how long it took and whether the round was in hard mode.
#[derive(Clone, Debug, PartialEq, Eq)]
pub struct Score {
    pub name: String,
    pub tries: usize,
    pub started_at: i64,
    pub completed_at: i64,
    pub completed_for_ms: i64,
    pub number_range: String,
    pub is_hard_mode: bool,
}

} // verus!
