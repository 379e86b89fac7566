//! Ranking of the leaderboard: fewest guesses first.
use vstd::prelude::*;
use vstd::multiset::Multiset;
use vstd::seq_lib::{to_multiset_build, to_multiset_insert};
use crate::decimal::{decimal, decimal_width, digit_count, digits_of};
use crate::models::Score;
use crate::utf8::utf8_len;

verus! {

broadcast use {vstd::multiset::group_multiset_axioms, vstd::seq_lib::group_to_multiset_ensures};

/// No entry ranks below one with more guesses.
pub open spec fn sorted_by_tries(s: Seq<Score>) -> bool {
    forall|i: int, j: int| #![trigger s[i], s[j]] 0 <= i < j < s.len() ==> s[i].tries <= s[j].tries
}

/// Adds `entry` to the leaderboard `scores` and ranks the whole collection
/// by ascending number of guesses. Entries with equal guesses may come in
/// any order.
pub fn add_score(scores: &mut Vec<Score>, entry: Score)
    ensures
        sorted_by_tries(final(scores)@),
        final(scores)@.to_multiset() == old(scores)@.push(entry).to_multiset(),
{
    scores.push(entry);
    let ghost all = scores@.to_multiset();
    let mut rest: Vec<Score> = Vec::new();
    std::mem::swap(scores, &mut rest);
    let mut ranked: Vec<Score> = Vec::new();
    assert(ranked@.to_multiset() =~= Multiset::<Score>::empty());
    assert(ranked@.to_multiset().add(rest@.to_multiset()) =~= all);
    while rest.len() > 0
        invariant
            sorted_by_tries(ranked@),
            ranked@.to_multiset().add(rest@.to_multiset()) == all,
        decreases rest.len(),
    {
        let ghost before = rest@;
        let x = rest.pop().unwrap();
        proof {
            assert(before == rest@.push(x));
            to_multiset_build(rest@, x);
        }
        let mut p: usize = 0;
        while p < ranked.len() && ranked[p].tries < x.tries
            invariant
                p <= ranked.len(),
                forall|i: int| 0 <= i < p ==> #[trigger] ranked@[i].tries < x.tries,
            decreases ranked.len() - p,
        {
            p = p + 1;
        }
        let ghost old_ranked = ranked@;
        proof {
            to_multiset_insert(old_ranked, p as int, x);
        }
        ranked.insert(p, x);
        proof {
            assert(ranked@.to_multiset().add(rest@.to_multiset()) =~= all);
            assert forall|i: int, j: int| 0 <= i < j < ranked@.len() implies
                #[trigger] ranked@[i].tries <= #[trigger] ranked@[j].tries by {
                if j < p {
                    assert(ranked@[i] == old_ranked[i] && ranked@[j] == old_ranked[j]);
                } else if j == p {
                    assert(ranked@[i] == old_ranked[i]);
                } else if i < p {
                    assert(ranked@[i] == old_ranked[i] && ranked@[j] == old_ranked[j - 1]);
                } else if i == p {
                    assert(ranked@[j] == old_ranked[j - 1]);
                    assert(old_ranked[p as int].tries <= old_ranked[j - 1].tries || j - 1 == p);
                } else {
                    assert(ranked@[i] == old_ranked[i - 1] && ranked@[j] == old_ranked[j - 1]);
                }
            }
        }
    }
    assert(rest@.to_multiset() =~= Multiset::<Score>::empty());
    assert(ranked@.to_multiset() =~= all);
    *scores = ranked;
}

/// Bytes of the name, as `str::len` gives them.
pub open spec fn name_width(s: Score) -> nat {
    (utf8_len(s.name@) as usize) as nat
}

/// Characters of the number of guesses in decimal.
pub open spec fn tries_width(s: Score) -> nat {
    digits_of(s.tries as nat).len()
}

/// Bytes of the range text, as `str::len` gives them.
pub open spec fn range_width(s: Score) -> nat {
    (utf8_len(s.number_range@) as usize) as nat
}

/// Characters of the game time in decimal.
pub open spec fn time_width(s: Score) -> nat {
    decimal(s.completed_for_ms as int).len()
}

/// Width of column `col` for `s`: name, guesses, range, game time.
pub open spec fn column_width(s: Score, col: int) -> nat {
    if col == 0 {
        name_width(s)
    } else if col == 1 {
        tries_width(s)
    } else if col == 2 {
        range_width(s)
    } else {
        time_width(s)
    }
}

/// The widest entry of column `col` over `s`; zero when `s` is empty.
pub open spec fn max_width(s: Seq<Score>, col: int) -> nat
    decreases s.len(),
{
    if s.len() == 0 {
        0
    } else {
        let m = max_width(s.drop_last(), col);
        let x = column_width(s.last(), col);
        if x > m {
            x
        } else {
            m
        }
    }
}

/// Widths of the leaderboard columns: the longest name, number of guesses,
/// range and game time over `score`, each cut to 16 bits, and one for the
/// mode column.
pub fn constraint_len_calculator(score: &[Score]) -> (r: (u16, u16, u16, u16, u16))
    ensures
        r == (
            max_width(score@, 0) as u16,
            max_width(score@, 1) as u16,
            max_width(score@, 2) as u16,
            1u16,
            max_width(score@, 3) as u16,
        ),
{
    let mut name_len: usize = 0;
    let mut tries_len: usize = 0;
    let mut range_len: usize = 0;
    let mut time_len: usize = 0;
    for i in 0..score.len()
        invariant
            name_len == max_width(score@.take(i as int), 0),
            tries_len == max_width(score@.take(i as int), 1),
            range_len == max_width(score@.take(i as int), 2),
            time_len == max_width(score@.take(i as int), 3),
    {
        let s = &score[i];
        proof {
            assert(score@.take(i + 1).drop_last() =~= score@.take(i as int));
            assert(score@.take(i + 1).last() == score@[i as int]);
        }
        let n = s.name.as_str().len();
        if n > name_len {
            name_len = n;
        }
        let t = digit_count(s.tries as u64);
        if t > tries_len {
            tries_len = t;
        }
        let g = s.number_range.as_str().len();
        if g > range_len {
            range_len = g;
        }
        let d = decimal_width(s.completed_for_ms);
        if d > time_len {
            time_len = d;
        }
    }
    assert(score@.take(score.len() as int) =~= score@);
    (
        #[verifier::truncate]
        (name_len as u16),
        #[verifier::truncate]
        (tries_len as u16),
        #[verifier::truncate]
        (range_len as u16),
        1,
        #[verifier::truncate]
        (time_len as u16),
    )
}

} // verus!
