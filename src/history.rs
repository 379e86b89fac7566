//! The guess history, kept with the most recent move first.
use vstd::prelude::*;
use crate::models::GameMove;

verus! {

/// No move comes before a later one.
pub open spec fn sorted_by_time_desc(h: Seq<GameMove>) -> bool {
    forall|i: int, j: int|
        #![trigger h[i], h[j]]
        0 <= i < j < h.len() ==> h[i].move_done_at >= h[j].move_done_at
}

/// Every move is strictly later than all the moves after it.
pub open spec fn strictly_by_time_desc(h: Seq<GameMove>) -> bool {
    forall|i: int, j: int|
        #![trigger h[i], h[j]]
        0 <= i < j < h.len() ==> h[i].move_done_at > h[j].move_done_at
}

/// `h` with `m` added, ordered as a stable sort by descending time orders
/// `h` followed by `m`: `m` goes after every move that is not earlier.
pub open spec fn insert_by_time(h: Seq<GameMove>, m: GameMove) -> Seq<GameMove>
    decreases h.len(),
{
    if h.len() == 0 {
        seq![m]
    } else if h[0].move_done_at < m.move_done_at {
        seq![m] + h
    } else {
        seq![h[0]] + insert_by_time(h.drop_first(), m)
    }
}

proof fn lemma_insert_at(h: Seq<GameMove>, m: GameMove, p: int)
    requires
        0 <= p <= h.len(),
        forall|i: int| 0 <= i < p ==> h[i].move_done_at >= m.move_done_at,
        p == h.len() || h[p].move_done_at < m.move_done_at,
    ensures
        h.insert(p, m) == insert_by_time(h, m),
    decreases p,
{
    if p == 0 {
        assert(h.insert(0, m) =~= seq![m] + h);
    } else {
        lemma_insert_at(h.drop_first(), m, p - 1);
        assert(h.insert(p, m) =~= seq![h[0]] + h.drop_first().insert(p - 1, m));
    }
}

/// Inserting a move keeps a history ordered, and what comes first is either
/// the new move or the previous first move.
pub proof fn lemma_insert_by_time_sorted(h: Seq<GameMove>, m: GameMove)
    requires
        sorted_by_time_desc(h),
    ensures
        sorted_by_time_desc(insert_by_time(h, m)),
        insert_by_time(h, m).len() == h.len() + 1,
        insert_by_time(h, m)[0] == (if h.len() == 0 || h[0].move_done_at < m.move_done_at {
            m
        } else {
            h[0]
        }),
    decreases h.len(),
{
    if h.len() > 0 && h[0].move_done_at >= m.move_done_at {
        let t = h.drop_first();
        lemma_insert_by_time_sorted(t, m);
        let r = insert_by_time(h, m);
        let rt = insert_by_time(t, m);
        assert(r == seq![h[0]] + rt);
        assert forall|i: int, j: int| 0 <= i < j < r.len() implies #[trigger] r[i].move_done_at
            >= #[trigger] r[j].move_done_at by {
            if i == 0 {
                assert(r[j] == rt[j - 1]);
                assert(rt[0].move_done_at >= rt[j - 1].move_done_at || j == 1);
            } else {
                assert(r[i] == rt[i - 1] && r[j] == rt[j - 1]);
            }
        }
    }
}

/// Adding a move that is strictly later than every recorded one to a
/// strictly ordered history puts it first and keeps the order strict.
pub proof fn law_latest_move_first(h: Seq<GameMove>, m: GameMove)
    requires
        strictly_by_time_desc(h),
        forall|i: int| 0 <= i < h.len() ==> #[trigger] h[i].move_done_at < m.move_done_at,
    ensures
        insert_by_time(h, m) == seq![m] + h,
        insert_by_time(h, m)[0] == m,
        strictly_by_time_desc(insert_by_time(h, m)),
{
    let r = seq![m] + h;
    assert forall|i: int, j: int| 0 <= i < j < r.len() implies #[trigger] r[i].move_done_at
        > #[trigger] r[j].move_done_at by {
        assert(r[j] == h[j - 1]);
        if i > 0 {
            assert(r[i] == h[i - 1]);
        }
    }
}

/// Adds `m` to a history and restores the most-recent-first order.
pub fn record_move(history: &mut Vec<GameMove>, m: GameMove)
    ensures
        final(history)@ == insert_by_time(old(history)@, m),
{
    let mut p: usize = 0;
    while p < history.len() && history[p].move_done_at >= m.move_done_at
        invariant
            p <= history.len(),
            forall|i: int| 0 <= i < p ==> history@[i].move_done_at >= m.move_done_at,
        decreases history.len() - p,
    {
        p = p + 1;
    }
    proof {
        lemma_insert_at(history@, m, p as int);
    }
    history.insert(p, m);
}

} // verus!
