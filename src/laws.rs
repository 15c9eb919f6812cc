use vstd::prelude::*;

use crate::model::{
    in_flight, latest_payload, run, starts, step, times_nondecreasing, times_within, FetchModel,
    Observed,
};

verus! {

/// Single flight: whatever the polls, at most one fetch is in flight after
/// them, and exactly when the cache says one is pending. A poll starts a
/// fetch only when none is in flight.
pub proof fn lemma_single_flight<T>(s: FetchModel<T>, polls: Seq<(u64, Observed<T>)>)
    ensures
        in_flight(s, polls) == (if run(s, polls).pending { 1int } else { 0int }),
        0 <= in_flight(s, polls) <= 1,
        forall|now: u64, seen: Observed<T>|
            (#[trigger] step(s, now, seen)).1 is StartFetch ==> !s.pending && step(s, now, seen).0.pending,
    decreases polls.len(),
{
    if polls.len() > 0 {
        let next = step(s, polls[0].0, polls[0].1).0;
        lemma_single_flight(next, polls.drop_first());
    }
}

/// A failed fetch never touches the value: after polls that saw no payload,
/// the cached value is the one before them.
pub proof fn lemma_failures_keep_value<T>(s: FetchModel<T>, polls: Seq<(u64, Observed<T>)>)
    requires
        forall|i: int| 0 <= i < polls.len() ==> !((#[trigger] polls[i]).1 is Fetched),
    ensures
        run(s, polls).value == s.value,
    decreases polls.len(),
{
    if polls.len() > 0 {
        let next = step(s, polls[0].0, polls[0].1).0;
        assert forall|i: int| 0 <= i < polls.drop_first().len() implies !((
        #[trigger] polls.drop_first()[i]).1 is Fetched) by {
            assert(polls.drop_first()[i] == polls[i + 1]);
        }
        lemma_failures_keep_value(next, polls.drop_first());
    }
}

/// The cached value is always the payload of the last fetch taken in with
/// success, or the value from before the polls if none was: a payload, once
/// taken in, is only ever replaced by a later one.
pub proof fn lemma_latest_payload_wins<T>(s: FetchModel<T>, polls: Seq<(u64, Observed<T>)>)
    ensures
        run(s, polls).value == (match latest_payload(s, polls) {
            Some(v) => v,
            None => s.value,
        }),
    decreases polls.len(),
{
    if polls.len() > 0 {
        let next = step(s, polls[0].0, polls[0].1).0;
        lemma_latest_payload_wins(next, polls.drop_first());
    }
}

/// A fetch seen resolved is taken in by the poll that sees it: that poll
/// returns its payload, records the completion and leaves no fetch in flight,
/// so polls that each come after the fetch in flight has resolved keep the
/// value as fresh as the last fetch.
pub proof fn lemma_resolved_fetch_taken_in<T>(s: FetchModel<T>, now: u64, payload: T)
    requires
        s.pending,
    ensures
        step(s, now, Observed::Fetched(payload)).0.value == payload,
        step(s, now, Observed::Fetched(payload)).0.last_update == Some(now),
        !step(s, now, Observed::Fetched(payload)).0.pending,
        step(s, now, Observed::Fetched(payload)).1 is TookValue,
{
}

/// No fetch can start before time `b` plus the limit: one is in flight, or
/// the last one completed at `b` or later.
spec fn held_back<T>(s: FetchModel<T>, b: int) -> bool {
    s.pending || (s.last_update is Some && s.last_update.unwrap() >= b)
}

/// The first poll of a sequence comes no later than the rest, which are
/// still ordered and within the same span.
proof fn lemma_rest_of_polls<T>(polls: Seq<(u64, Observed<T>)>, lo: int, hi: int)
    requires
        polls.len() > 0,
        times_nondecreasing(polls),
        times_within(polls, lo, hi),
    ensures
        times_nondecreasing(polls.drop_first()),
        times_within(polls.drop_first(), polls[0].0 as int, hi),
        lo <= polls[0].0 <= hi,
{
    let rest = polls.drop_first();
    assert forall|i: int, j: int| 0 <= i <= j < rest.len() implies (#[trigger] rest[i]).0 <= (
    #[trigger] rest[j]).0 by {
        assert(rest[i] == polls[i + 1] && rest[j] == polls[j + 1]);
    }
    assert forall|i: int| 0 <= i < rest.len() implies polls[0].0 <= (#[trigger] rest[i]).0 <= hi by {
        assert(rest[i] == polls[i + 1]);
    }
}

/// From a state held back since `b`, the fetches started by polls up to `hi`
/// are each more than `d` later than the one before, the first more than `d`
/// after `b`.
proof fn lemma_held_back_starts<T>(s: FetchModel<T>, polls: Seq<(u64, Observed<T>)>, d: u64, b: int, hi: int)
    requires
        s.max_update_rate == Some(d),
        held_back(s, b),
        times_nondecreasing(polls),
        times_within(polls, b, hi),
    ensures
        starts(s, polls) > 0 ==> starts(s, polls) * d < hi - b,
    decreases polls.len(),
{
    if polls.len() > 0 {
        lemma_rest_of_polls(polls, b, hi);
        let t0 = polls[0].0 as int;
        let (next, effect) = step(s, polls[0].0, polls[0].1);
        let rest = polls.drop_first();
        if effect is StartFetch {
            lemma_held_back_starts(next, rest, d, t0, hi);
            let r = starts(next, rest);
            assert((1 + r) * d == d + r * d) by (nonlinear_arith);
        } else {
            lemma_held_back_starts(next, rest, d, b, hi);
        }
    }
}

/// Polls from `lo` to `hi` with a limit of `d` start fetches more than `d`
/// apart, so that all but the first fit strictly inside the span.
proof fn lemma_starts_spread<T>(s: FetchModel<T>, polls: Seq<(u64, Observed<T>)>, d: u64, lo: int, hi: int)
    requires
        s.max_update_rate == Some(d),
        times_nondecreasing(polls),
        times_within(polls, lo, hi),
    ensures
        starts(s, polls) > 1 ==> (starts(s, polls) - 1) * d < hi - lo,
    decreases polls.len(),
{
    if polls.len() > 0 {
        lemma_rest_of_polls(polls, lo, hi);
        let t0 = polls[0].0 as int;
        let (next, effect) = step(s, polls[0].0, polls[0].1);
        let rest = polls.drop_first();
        if effect is StartFetch {
            lemma_held_back_starts(next, rest, d, t0, hi);
        } else {
            lemma_starts_spread(next, rest, d, t0, hi);
        }
    }
}

/// Rate limiting: with a limit of `d`, polls at times that never go back and
/// that all fall within a span of `k * d` start at most `k + 1` fetches,
/// whatever the fetches return and however long they take.
pub proof fn lemma_rate_limited<T>(
    s: FetchModel<T>,
    polls: Seq<(u64, Observed<T>)>,
    d: u64,
    k: nat,
    t0: int,
)
    requires
        s.max_update_rate == Some(d),
        times_nondecreasing(polls),
        times_within(polls, t0, t0 + k * d),
    ensures
        starts(s, polls) <= k + 1,
{
    lemma_starts_spread(s, polls, d, t0, t0 + k * d);
    let n = starts(s, polls);
    if n > 1 {
        assert((n - 1) * d < k * d ==> n - 1 < k) by (nonlinear_arith);
    }
}

} // verus!
