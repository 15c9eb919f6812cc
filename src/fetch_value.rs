use vstd::prelude::*;

use crate::model::{step, Effect, FetchModel, Observed};

verus! {

/// A value fetched from `url` and re-fetched at most once per
/// `max_update_rate`, one fetch at a time.
pub struct FetchValue<T> {
    value: T,
    url: String,
    max_update_rate: Option<u64>,
    last_update: Option<u64>,
    pending: bool,
}

impl<T> View for FetchValue<T> {
    type V = FetchModel<T>;

    closed spec fn view(&self) -> FetchModel<T> {
        FetchModel {
            value: self.value,
            url: self.url@,
            max_update_rate: self.max_update_rate,
            last_update: self.last_update,
            pending: self.pending,
        }
    }
}

/// Whether `v` is a value that `T::default` may return.
pub open spec fn is_default<T: Default>(v: T) -> bool {
    call_ensures(T::default, (), v)
}

impl<T: Default + Clone> FetchValue<T> {
    /// A cache of `url` that starts from `T`'s default value, with no rate
    /// limit, no fetch in flight and no completion yet.
    pub fn new(url: &str) -> (r: Self)
        ensures
            is_default(r@.value),
            r@.url == url@,
            r@.max_update_rate is None,
            r@.last_update is None,
            !r@.pending,
    {
        FetchValue {
            value: T::default(),
            url: url.to_owned(),
            max_update_rate: None,
            last_update: None,
            pending: false,
        }
    }

    /// A cache of `url` that starts from `T`'s default value and lets a new
    /// fetch start only once more than `max_rate` nanoseconds have passed
    /// since the last one completed.
    pub fn new_rate_limited(url: &str, max_rate: u64) -> (r: Self)
        ensures
            is_default(r@.value),
            r@.url == url@,
            r@.max_update_rate == Some(max_rate),
            r@.last_update is None,
            !r@.pending,
    {
        FetchValue {
            value: T::default(),
            url: url.to_owned(),
            max_update_rate: Some(max_rate),
            last_update: None,
            pending: false,
        }
    }

    /// Limits how often a new fetch may start: only once more than
    /// `max_rate` nanoseconds have passed since the last completion.
    pub fn max_rate(self, max_rate: u64) -> (r: Self)
        ensures
            r@ == (FetchModel { max_update_rate: Some(max_rate), ..self@ }),
    {
        FetchValue { max_update_rate: Some(max_rate), ..self }
    }

    /// Sets the value returned until a fetch succeeds.
    pub fn starting_value(self, value: T) -> (r: Self)
        ensures
            r@ == (FetchModel { value: value, ..self@ }),
    {
        FetchValue { value: value, ..self }
    }

    /// Polls once at time `now` and drops the value returned, so that the
    /// first fetch starts at once rather than at the caller's first poll.
    pub fn start_now(self, now: u64, seen: Observed<T>) -> (r: (Self, Effect))
        ensures
            (r.0@, r.1) == step(self@, now, seen),
    {
        let mut this = self;
        let (_, effect) = this.value(now, seen);
        (this, effect)
    }

    /// When the last fetch completed, with success or not; none before the
    /// first completion.
    pub fn last_update(&self) -> (r: Option<u64>)
        ensures
            r == self@.last_update,
    {
        self.last_update
    }

    /// The address that fetches are made to.
    pub fn url(&self) -> (r: &str)
        ensures
            r@ == self@.url,
    {
        self.url.as_str()
    }

    /// Polls the cache at time `now`, after the caller looked at the fetch in
    /// flight and saw `seen`. Never waits: it starts at most one fetch (when
    /// none is in flight and the rate limit allows it), or takes in the
    /// outcome of the one in flight, and returns a clone of the cached value
    /// with what the caller must do next.
    pub fn value(&mut self, now: u64, seen: Observed<T>) -> (r: (T, Effect))
        ensures
            (final(self)@, r.1) == step(old(self)@, now, seen),
            cloned(final(self)@.value, r.0),
    {
        let effect = if !self.pending {
            let update = match (self.last_update, self.max_update_rate) {
                (None, Some(_)) => true,
                (Some(last_update), Some(max_rate)) => {
                    let since = if now >= last_update {
                        now - last_update
                    } else {
                        0
                    };
                    since > max_rate
                },
                (_, None) => true,
            };
            if update {
                self.pending = true;
                Effect::StartFetch
            } else {
                Effect::Idle
            }
        } else {
            match seen {
                Observed::NotReady => Effect::Idle,
                Observed::Fetched(v) => {
                    self.value = v;
                    self.last_update = Some(now);
                    self.pending = false;
                    Effect::TookValue
                },
                Observed::Failed(e) => {
                    self.last_update = Some(now);
                    self.pending = false;
                    Effect::ReportError(e)
                },
            }
        };
        (self.value.clone(), effect)
    }
}

} // verus!
