use vstd::prelude::*;

verus! {

/// What the caller saw of the fetch in flight just before a poll.
pub enum Observed<T> {
    /// No fetch is in flight, or the one in flight has not resolved yet.
    NotReady,
    /// The fetch in flight resolved, and its payload decoded to this value.
    Fetched(T),
    /// The fetch in flight failed, in transport or in decoding.
    Failed(String),
}

/// What the caller must do once a poll has returned.
pub enum Effect {
    /// Nothing.
    Idle,
    /// Start exactly one fetch of the cache's address and keep its handle,
    /// to be looked at before each later poll.
    StartFetch,
    /// The fetch in flight was taken in: drop its handle.
    TookValue,
    /// The fetch in flight failed: drop its handle and report this error.
    ReportError(String),
}

/// The abstract state of a cache. Times are nanoseconds on a monotonic clock
/// whose origin the caller picks.
pub struct FetchModel<T> {
    /// The last value taken in, or the starting value.
    pub value: T,
    /// What is fetched.
    pub url: Seq<char>,
    /// The least time between the completion of one fetch and the start of
    /// the next; none means no limit.
    pub max_update_rate: Option<u64>,
    /// When the last fetch completed, with success or not.
    pub last_update: Option<u64>,
    /// Whether a fetch is in flight.
    pub pending: bool,
}

/// Time from `since` to `now`; zero when `now` is earlier.
pub open spec fn elapsed(now: u64, since: u64) -> int {
    if now >= since {
        now - since
    } else {
        0
    }
}

/// Whether the rate limit lets a fetch start at `now`: always without a
/// limit or before the first completion, else only once strictly more than
/// the limit has passed since the last completion.
pub open spec fn may_start(max_update_rate: Option<u64>, last_update: Option<u64>, now: u64) -> bool {
    match max_update_rate {
        None => true,
        Some(d) => match last_update {
            None => true,
            Some(l) => elapsed(now, l) > d,
        },
    }
}

/// One poll at time `now`, after the caller saw `seen` of the fetch in flight.
/// Without a fetch in flight, a fetch starts if the rate limit allows it and
/// `seen` is disregarded. With one, its outcome is taken in once resolved: a
/// payload replaces the value, and either outcome records the completion time.
pub open spec fn step<T>(s: FetchModel<T>, now: u64, seen: Observed<T>) -> (FetchModel<T>, Effect) {
    if !s.pending {
        if may_start(s.max_update_rate, s.last_update, now) {
            (FetchModel { pending: true, ..s }, Effect::StartFetch)
        } else {
            (s, Effect::Idle)
        }
    } else {
        match seen {
            Observed::NotReady => (s, Effect::Idle),
            Observed::Fetched(v) => (
                FetchModel { value: v, last_update: Some(now), pending: false, ..s },
                Effect::TookValue,
            ),
            Observed::Failed(e) => (
                FetchModel { last_update: Some(now), pending: false, ..s },
                Effect::ReportError(e),
            ),
        }
    }
}

/// The state after the polls `polls`, each a time and what was seen before it.
pub open spec fn run<T>(s: FetchModel<T>, polls: Seq<(u64, Observed<T>)>) -> FetchModel<T>
    decreases polls.len(),
{
    if polls.len() == 0 {
        s
    } else {
        run(step(s, polls[0].0, polls[0].1).0, polls.drop_first())
    }
}

/// How many of the polls `polls` start a fetch.
pub open spec fn starts<T>(s: FetchModel<T>, polls: Seq<(u64, Observed<T>)>) -> nat
    decreases polls.len(),
{
    if polls.len() == 0 {
        0
    } else {
        let (next, effect) = step(s, polls[0].0, polls[0].1);
        (if effect is StartFetch { 1nat } else { 0nat }) + starts(next, polls.drop_first())
    }
}

/// How many of the polls `polls` take in a completed fetch, success or not.
pub open spec fn completions<T>(s: FetchModel<T>, polls: Seq<(u64, Observed<T>)>) -> nat
    decreases polls.len(),
{
    if polls.len() == 0 {
        0
    } else {
        let (next, effect) = step(s, polls[0].0, polls[0].1);
        (if effect is TookValue || effect is ReportError { 1nat } else { 0nat })
            + completions(next, polls.drop_first())
    }
}

/// The fetches in flight after the polls `polls`: the one in flight before
/// them, if any, and those they started, less those they took in.
pub open spec fn in_flight<T>(s: FetchModel<T>, polls: Seq<(u64, Observed<T>)>) -> int {
    (if s.pending { 1int } else { 0int }) + starts(s, polls) - completions(s, polls)
}

/// The payload of the last fetch that the polls `polls` took in with
/// success; none if they took in none.
pub open spec fn latest_payload<T>(s: FetchModel<T>, polls: Seq<(u64, Observed<T>)>) -> Option<T>
    decreases polls.len(),
{
    if polls.len() == 0 {
        None
    } else {
        let (next, effect) = step(s, polls[0].0, polls[0].1);
        match latest_payload(next, polls.drop_first()) {
            Some(v) => Some(v),
            None => if effect is TookValue {
                Some(next.value)
            } else {
                None
            },
        }
    }
}

/// Whether the polls `polls` come at times that never go back.
pub open spec fn times_nondecreasing<T>(polls: Seq<(u64, Observed<T>)>) -> bool {
    forall|i: int, j: int| 0 <= i <= j < polls.len() ==> (#[trigger] polls[i]).0 <= (#[trigger] polls[j]).0
}

/// Whether every poll of `polls` comes at a time from `lo` to `hi`.
pub open spec fn times_within<T>(polls: Seq<(u64, Observed<T>)>, lo: int, hi: int) -> bool {
    forall|i: int| 0 <= i < polls.len() ==> lo <= (#[trigger] polls[i]).0 <= hi
}

} // verus!
