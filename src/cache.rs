//! Refresh-on-demand memoization of one published resource.
//!
//! A [`RefreshCache`] holds the last computed value of a resource and the
//! time it was computed. Staleness is detected lazily: a read at time `now`
//! recomputes the value when the cache is empty, when caching is disabled
//! (a time-to-live of zero), or when at least one time-to-live has passed
//! since the last refresh. Callers that share a cache serialize their reads
//! on one lock around it, so reads of one resource form a sequence of calls
//! on a single value of this type.

use vstd::prelude::*;

verus! {

/// Whether a cache last refreshed at `last_update` (`None`: never) must be
/// recomputed for a read at `now`, with a time-to-live of `ttl` seconds.
pub open spec fn is_stale_at(last_update: Option<i64>, ttl: i64, now: i64) -> bool {
    ttl == 0 || match last_update {
        None => true,
        Some(t) => now - t >= ttl,
    }
}

/// The cache state after a read at `now` from a cache last refreshed at
/// `last_update`.
pub open spec fn last_update_after(last_update: Option<i64>, ttl: i64, now: i64) -> Option<i64> {
    if is_stale_at(last_update, ttl, now) {
        Some(now)
    } else {
        last_update
    }
}

/// Number of recomputations run by reads at `times`, in the order in which
/// they took the lock, starting from a cache last refreshed at `last_update`.
pub open spec fn recomputations(last_update: Option<i64>, ttl: i64, times: Seq<i64>) -> nat
    decreases times.len(),
{
    if times.len() == 0 {
        0
    } else {
        let rest = recomputations(
            last_update_after(last_update, ttl, times[0]),
            ttl,
            times.drop_first(),
        );
        if is_stale_at(last_update, ttl, times[0]) {
            rest + 1
        } else {
            rest
        }
    }
}

/// A memoized value with the time of its last refresh.
pub struct RefreshCache<T> {
    value: T,
    last_update: Option<i64>,
    ttl: i64,
}

impl<T> RefreshCache<T> {
    /// The value served by reads until the next refresh.
    pub closed spec fn cached(&self) -> T {
        self.value
    }

    /// When the value was last computed, in seconds since the Unix epoch;
    /// `None` while it still holds the initial placeholder.
    pub closed spec fn refreshed_at(&self) -> Option<i64> {
        self.last_update
    }

    /// The time-to-live in seconds; zero disables caching.
    pub closed spec fn time_to_live(&self) -> i64 {
        self.ttl
    }

    /// An empty cache whose reads see `initial` until the first refresh.
    pub fn new(initial: T, ttl: i64) -> (r: Self)
        ensures
            r.cached() == initial,
            r.refreshed_at() is None,
            r.time_to_live() == ttl,
    {
        RefreshCache { value: initial, last_update: None, ttl }
    }

    /// The time-to-live in seconds.
    pub fn ttl(&self) -> (r: i64)
        ensures
            r == self.time_to_live(),
    {
        self.ttl
    }

    /// Whether a read at `now` must recompute the value.
    pub fn is_stale(&self, now: i64) -> (r: bool)
        ensures
            r == is_stale_at(self.refreshed_at(), self.time_to_live(), now),
    {
        if self.ttl == 0 {
            true
        } else {
            match self.last_update {
                None => true,
                Some(t) => (now as i128) - (t as i128) >= (self.ttl as i128),
            }
        }
    }

    /// Records `value`, computed at `now`, as the new memoized value.
    ///
    /// A degraded or partial result is stored like any other: the next
    /// attempt waits for the time-to-live to pass again.
    pub fn store(&mut self, value: T, now: i64)
        ensures
            final(self).cached() == value,
            final(self).refreshed_at() == Some(now),
            final(self).time_to_live() == old(self).time_to_live(),
    {
        self.value = value;
        self.last_update = Some(now);
    }

    /// The memoized value.
    pub fn value(&self) -> (r: &T)
        ensures
            *r == self.cached(),
    {
        &self.value
    }

    /// A read at `now`: runs `compute` and stores its result when the cache
    /// is stale, and leaves the cache untouched otherwise. Returns whether
    /// `compute` ran.
    pub fn refresh_at<F: FnOnce() -> T>(&mut self, now: i64, compute: F) -> (recomputed: bool)
        requires
            compute.requires(()),
        ensures
            recomputed == is_stale_at(old(self).refreshed_at(), old(self).time_to_live(), now),
            final(self).refreshed_at() == last_update_after(
                old(self).refreshed_at(),
                old(self).time_to_live(),
                now,
            ),
            final(self).time_to_live() == old(self).time_to_live(),
            recomputed ==> compute.ensures((), final(self).cached()),
            !recomputed ==> final(self).cached() == old(self).cached(),
    {
        if self.is_stale(now) {
            let value = compute();
            self.store(value, now);
            true
        } else {
            false
        }
    }
    /// A read now: refreshes the value if it is stale, then returns it.
    pub fn get<F: FnOnce() -> T>(&mut self, compute: F) -> (r: &T)
        requires
            compute.requires(()),
        ensures
            *r == final(self).cached(),
            final(self).time_to_live() == old(self).time_to_live(),
            (final(self).cached() == old(self).cached() && final(self).refreshed_at()
                == old(self).refreshed_at()) || (final(self).refreshed_at() is Some
                && compute.ensures((), final(self).cached())),
            (old(self).refreshed_at() is None || old(self).time_to_live() == 0) ==> (final(
                self).refreshed_at() is Some && compute.ensures((), final(self).cached())),
    {
        let now = now_seconds();
        self.refresh_at(now, compute);
        self.value()
    }
}

/// Relies on chrono::Utc::now and DateTime::timestamp: the current time in
/// whole seconds since the Unix epoch. Nothing is promised of the value.
#[verifier::external_body]
fn now_seconds() -> (r: i64) {
    chrono::Utc::now().timestamp()
}

/// Once a read has refreshed the cache, reads that follow it in lock order
/// within one time-to-live of that refresh run no recomputation.
pub proof fn lemma_fresh_cache_serves_memo(refreshed: i64, ttl: i64, times: Seq<i64>)
    requires
        ttl > 0,
        forall|i: int| 0 <= i < times.len() ==> #[trigger] times[i] < refreshed + ttl,
    ensures
        recomputations(Some(refreshed), ttl, times) == 0,
    decreases times.len(),
{
    if times.len() > 0 {
        lemma_fresh_cache_serves_memo(refreshed, ttl, times.drop_first());
    }
}

/// Any number of reads of one cache within one time-to-live window, the
/// first of which finds it stale, run exactly one recomputation between
/// them: the first reader recomputes and every later one is served the memo.
pub proof fn lemma_single_recomputation_per_window(last_update: Option<i64>, ttl: i64, times: Seq<i64>)
    requires
        ttl > 0,
        times.len() > 0,
        is_stale_at(last_update, ttl, times[0]),
        forall|i: int| 0 <= i < times.len() ==> #[trigger] times[i] < times[0] + ttl,
    ensures
        recomputations(last_update, ttl, times) == 1,
{
    let rest = times.drop_first();
    assert forall|i: int| 0 <= i < rest.len() implies rest[i] < times[0] + ttl by {
        assert(rest[i] == times[i + 1]);
    }
    lemma_fresh_cache_serves_memo(times[0], ttl, rest);
}

/// With caching disabled, every read recomputes the value.
pub proof fn lemma_zero_ttl_recomputes_every_read(last_update: Option<i64>, times: Seq<i64>)
    ensures
        recomputations(last_update, 0, times) == times.len(),
    decreases times.len(),
{
    if times.len() > 0 {
        lemma_zero_ttl_recomputes_every_read(Some(times[0]), times.drop_first());
    }
}

} // verus!
