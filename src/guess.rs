//! Judging a guess against the secret number.
use vstd::prelude::*;
use crate::decimal::{decimal, push_decimal};
use crate::models::GameInfo;

verus! {

/// The hint shown after `guess` when the secret is `secret`.
pub open spec fn guess_response(guess: int, secret: int) -> Seq<char> {
    if guess < secret {
        "Number is > than "@ + decimal(guess)
    } else if guess > secret {
        "Number is < than "@ + decimal(guess)
    } else {
        "YOU WON !!!"@
    }
}

/// `f` is `g` after judging `value` at time `now`: the hint is set; outside
/// hard mode a low guess above the lower bound becomes the lower bound and a
/// high guess below the upper bound becomes the upper bound; a correct guess
/// ends the round at `now`.
pub open spec fn guess_applied(g: GameInfo, f: GameInfo, value: i32, now: i64) -> bool {
    let won = value == g.generated_number;
    &&& f.current_guess_response@ == guess_response(value as int, g.generated_number as int)
    &&& f.min_number == (if !g.is_hard_mode && value < g.generated_number && value
        > g.min_number {
        value
    } else {
        g.min_number
    })
    &&& f.max_number == (if !g.is_hard_mode && value > g.generated_number && value
        < g.max_number {
        value
    } else {
        g.max_number
    })
    &&& f.is_game_over == (g.is_game_over || won)
    &&& f.game_completed_at == (if won { now } else { g.game_completed_at })
    &&& f.range_min == g.range_min
    &&& f.range_max == g.range_max
    &&& f.generated_number == g.generated_number
    &&& f.game_started_at == g.game_started_at
    &&& f.is_hard_mode == g.is_hard_mode
}

impl GameInfo {
    /// Judges `value` against the secret, updates the hint and the shown
    /// bounds, and ends the round when it is correct. Returns whether it was.
    pub fn check_entered_guess(&mut self, value: i32, now: i64) -> (won: bool)
        ensures
            won == (value == old(self).generated_number),
            guess_applied(*old(self), *final(self), value, now),
    {
        if value < self.generated_number {
            let mut s = "Number is > than ".to_owned();
            push_decimal(&mut s, value);
            self.current_guess_response = s;
            if !self.is_hard_mode && value > self.min_number {
                self.min_number = value;
            }
            false
        } else if value > self.generated_number {
            let mut s = "Number is < than ".to_owned();
            push_decimal(&mut s, value);
            self.current_guess_response = s;
            if !self.is_hard_mode && value < self.max_number {
                self.max_number = value;
            }
            false
        } else {
            self.current_guess_response = "YOU WON !!!".to_owned();
            self.is_game_over = true;
            self.game_completed_at = now;
            true
        }
    }
}

/// No guess ever widens the shown bounds; in hard mode they never move.
pub proof fn law_bounds_only_narrow(g: GameInfo, f: GameInfo, value: i32, now: i64)
    requires
        guess_applied(g, f, value, now),
    ensures
        g.is_hard_mode ==> f.min_number == g.min_number && f.max_number == g.max_number,
        f.min_number >= g.min_number,
        f.max_number <= g.max_number,
{
}

} // verus!
