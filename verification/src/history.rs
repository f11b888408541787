//! Bounded histories of durations and the maximum over their recent end.

use std::collections::VecDeque;
use vstd::prelude::*;

verus! {

/// How many samples a history keeps. When it is full, the oldest sample
/// leaves for each one that enters.
pub const HISTORY_CAPACITY: usize = 256;

/// How many of the most recent samples a forecast looks at.
pub const FORECAST_WINDOW: usize = 10;

/// The last `n` entries of `s`, or all of `s` where it holds no more than `n`.
pub open spec fn keep_last(s: Seq<u64>, n: nat) -> Seq<u64> {
    if s.len() <= n {
        s
    } else {
        s.subrange(s.len() - n, s.len() as int)
    }
}

/// A history after `sample` has entered it.
pub open spec fn push_bounded(s: Seq<u64>, sample: u64) -> Seq<u64> {
    keep_last(s.push(sample), HISTORY_CAPACITY as nat)
}

/// The largest entry of `s`, and zero for the empty sequence.
pub open spec fn largest(s: Seq<u64>) -> nat
    decreases s.len(),
{
    if s.len() == 0 {
        0
    } else {
        let before = largest(s.drop_last());
        if s.last() > before {
            s.last() as nat
        } else {
            before
        }
    }
}

/// The forecast that a history gives: the largest of its last
/// `FORECAST_WINDOW` samples.
pub open spec fn forecast_of(s: Seq<u64>) -> nat {
    largest(keep_last(s, FORECAST_WINDOW as nat))
}

/// `largest(s)` is an upper bound of `s`, is itself an entry of `s` unless
/// `s` is empty, and fits in a `u64`.
pub proof fn lemma_largest_is_maximum(s: Seq<u64>)
    ensures
        forall|i: int| 0 <= i < s.len() ==> s[i] <= largest(s),
        s.len() > 0 ==> exists|i: int| 0 <= i < s.len() && s[i] == largest(s),
        s.len() == 0 ==> largest(s) == 0,
        largest(s) <= u64::MAX,
    decreases s.len(),
{
    if s.len() > 0 {
        let front = s.drop_last();
        lemma_largest_is_maximum(front);
        assert forall|i: int| 0 <= i < s.len() implies s[i] <= largest(s) by {
            if i < s.len() - 1 {
                assert(front[i] == s[i]);
            }
        }
        if s.last() > largest(front) || front.len() == 0 {
            assert(s[s.len() - 1] == largest(s));
        } else {
            let i = choose|i: int| 0 <= i < front.len() && front[i] == largest(front);
            assert(s[i] == largest(s));
        }
    }
}

/// A bound on every entry of `s` bounds `largest(s)`.
pub proof fn lemma_largest_is_least_bound(s: Seq<u64>, bound: nat)
    requires
        forall|i: int| 0 <= i < s.len() ==> s[i] <= bound,
    ensures
        largest(s) <= bound,
{
    lemma_largest_is_maximum(s);
}

/// The largest of the last `n` entries is no more than the largest of all.
pub proof fn lemma_largest_of_tail(s: Seq<u64>, n: nat)
    ensures
        largest(keep_last(s, n)) <= largest(s),
{
    let tail = keep_last(s, n);
    lemma_largest_is_maximum(s);
    assert forall|i: int| 0 <= i < tail.len() implies tail[i] <= largest(s) by {
        if s.len() > n {
            assert(tail[i] == s[s.len() - n + i]);
        }
    }
    lemma_largest_is_least_bound(tail, largest(s));
}

/// Cutting a sequence to its last `m` entries and then to its last `n` is
/// cutting it to its last `n`, as long as `n` is no more than `m`.
pub proof fn lemma_keep_last_twice(s: Seq<u64>, m: nat, n: nat)
    requires
        n <= m,
    ensures
        keep_last(keep_last(s, m), n) == keep_last(s, n),
{
    assert(keep_last(keep_last(s, m), n) =~= keep_last(s, n));
}

/// A sequence that is cut to its last `n` entries before an entry is added
/// and after it ends as one that is cut only after it.
pub proof fn lemma_keep_last_push(s: Seq<u64>, n: nat, sample: u64)
    ensures
        keep_last(keep_last(s, n).push(sample), n) == keep_last(s.push(sample), n),
{
    assert(keep_last(keep_last(s, n).push(sample), n) =~= keep_last(s.push(sample), n));
}

/// No forecast is below zero or above the largest sample of its history, and
/// a history without samples gives a forecast of zero.
pub proof fn law_forecast_within_observed(history: Seq<u64>)
    ensures
        0 <= forecast_of(history) <= largest(history),
        history.len() == 0 ==> forecast_of(history) == 0,
{
    lemma_largest_of_tail(history, FORECAST_WINDOW as nat);
    lemma_largest_is_maximum(history);
}

/// Puts `sample` into `history`, after the oldest samples have left to make
/// room for it.
pub fn record_sample(history: &mut VecDeque<u64>, sample: u64)
    ensures
        final(history)@ == push_bounded(old(history)@, sample),
        final(history)@.len() <= HISTORY_CAPACITY,
{
    let ghost before = history@;
    while history.len() >= HISTORY_CAPACITY
        invariant
            history@.len() <= before.len(),
            history@.len() == before.len() || history@.len() >= HISTORY_CAPACITY - 1,
            history@ == before.subrange(before.len() - history@.len(), before.len() as int),
        decreases history@.len(),
    {
        let _ = history.pop_front();
    }
    history.push_back(sample);
    assert(history@ =~= push_bounded(before, sample));
}

/// The largest of the last `FORECAST_WINDOW` samples of `history`, and zero
/// where it holds none.
pub fn recent_maximum(history: &VecDeque<u64>) -> (peak: u64)
    ensures
        peak == forecast_of(history@),
{
    let count: usize = history.len();
    let first: usize = if count > FORECAST_WINDOW {
        count - FORECAST_WINDOW
    } else {
        0
    };
    let mut peak: u64 = 0;
    let mut at: usize = first;
    while at < count
        invariant
            count == history@.len(),
            first <= at <= count,
            peak == largest(history@.subrange(first as int, at as int)),
        decreases count - at,
    {
        let sample: u64 = history[at];
        proof {
            let grown = history@.subrange(first as int, at + 1);
            assert(grown.drop_last() =~= history@.subrange(first as int, at as int));
            assert(grown.last() == sample);
        }
        if sample > peak {
            peak = sample;
        }
        at = at + 1;
    }
    assert(history@.subrange(first as int, count as int) =~= keep_last(
        history@,
        FORECAST_WINDOW as nat,
    ));
    peak
}

} // verus!
