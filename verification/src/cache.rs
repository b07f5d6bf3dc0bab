//! A cache that holds one value for a limited time.

use vstd::prelude::*;

verus! {

/// A value with the time at which it was stored, and the file that backs it.
/// Times are seconds on the host's clock.
#[derive(Clone, Debug, PartialEq, Eq)]
pub struct TtlCache<T> {
    /// The file that holds the value between runs.
    pub path: String,
    /// For how long a stored value stays fresh.
    pub fresh_duration: u64,
    /// When the value was stored.
    pub stored_at: u64,
    /// The value, once one was stored.
    pub value: Option<T>,
}

/// The model of a [`TtlCache`].
pub struct CacheView<V> {
    pub path: Seq<char>,
    pub fresh_duration: u64,
    pub stored_at: u64,
    pub value: Option<V>,
}

impl<T: DeepView> DeepView for TtlCache<T> {
    type V = CacheView<T::V>;

    open spec fn deep_view(&self) -> CacheView<T::V> {
        CacheView {
            path: self.path@,
            fresh_duration: self.fresh_duration,
            stored_at: self.stored_at,
            value: self.value.deep_view(),
        }
    }
}

/// The time that has passed since `stored_at`. A clock that went back counts
/// as no time passed.
pub open spec fn elapsed(stored_at: u64, now: u64) -> int {
    if now >= stored_at {
        now - stored_at
    } else {
        0
    }
}

/// Whether `c` holds a value that was stored less than its freshness
/// duration before `now`.
pub open spec fn fresh_at<V>(c: CacheView<V>, now: u64) -> bool {
    c.value is Some && elapsed(c.stored_at, now) < c.fresh_duration
}

/// An empty cache.
pub open spec fn empty_cache<V>(path: Seq<char>, fresh_duration: u64) -> CacheView<V> {
    CacheView { path, fresh_duration, stored_at: 0, value: None }
}

/// The cache after `value` was stored at `now`: what it held is replaced as
/// a whole.
pub open spec fn stored<V>(c: CacheView<V>, value: V, now: u64) -> CacheView<V> {
    CacheView { stored_at: now, value: Some(value), ..c }
}

/// What a read at `now` yields: the value while it is fresh.
pub open spec fn read_at<V>(c: CacheView<V>, now: u64) -> Option<V> {
    if fresh_at(c, now) {
        c.value
    } else {
        None
    }
}

impl<T: DeepView> TtlCache<T> {
    /// An empty cache backed by the file `path`.
    pub fn new(path: String, fresh_duration: u64) -> (cache: Self)
        ensures
            cache.deep_view() == empty_cache::<T::V>(path@, fresh_duration),
    {
        TtlCache { path, fresh_duration, stored_at: 0, value: None }
    }

    /// A cache as the host found it in its file: `value` was stored at
    /// `stored_at`.
    pub fn restore(path: String, fresh_duration: u64, value: T, stored_at: u64) -> (cache: Self)
        ensures
            cache.deep_view() == stored(
                empty_cache::<T::V>(path@, fresh_duration),
                value.deep_view(),
                stored_at,
            ),
    {
        TtlCache { path, fresh_duration, stored_at, value: Some(value) }
    }

    /// Whether the held value may be used at `now`.
    pub fn fresh(&self, now: u64) -> (r: bool)
        ensures
            r == fresh_at(self.deep_view(), now),
    {
        match &self.value {
            None => false,
            Some(_) => {
                let age: u64 = if now >= self.stored_at {
                    now - self.stored_at
                } else {
                    0
                };
                age < self.fresh_duration
            },
        }
    }

    /// The held value if it is fresh at `now`.
    pub fn get(&self, now: u64) -> (r: Option<&T>)
        ensures
            r.deep_view() == read_at(self.deep_view(), now),
    {
        if self.fresh(now) {
            self.value.as_ref()
        } else {
            None
        }
    }

    /// Replaces the held value as a whole.
    pub fn put(&mut self, value: T, now: u64)
        ensures
            final(self).deep_view() == stored(old(self).deep_view(), value.deep_view(), now),
    {
        self.value = Some(value);
        self.stored_at = now;
    }
}

/// A stored value is read back, unchanged, at every time within the
/// freshness window that begins when it was stored.
pub proof fn lemma_stored_value_is_read_within_window<V>(
    c: CacheView<V>,
    value: V,
    stored_at: u64,
    now: u64,
)
    requires
        stored_at <= now < stored_at + c.fresh_duration,
    ensures
        read_at(stored(c, value, stored_at), now) == Some(value),
{
}

/// Once the window has passed, nothing is read.
pub proof fn lemma_stored_value_is_stale_after_window<V>(
    c: CacheView<V>,
    value: V,
    stored_at: u64,
    now: u64,
)
    requires
        now >= stored_at + c.fresh_duration,
    ensures
        read_at(stored(c, value, stored_at), now) is None,
{
}

/// Storing replaces the value and leaves the file and the duration alone.
pub proof fn lemma_store_replaces<V>(c: CacheView<V>, first: V, second: V, t1: u64, t2: u64)
    ensures
        stored(stored(c, first, t1), second, t2) == stored(c, second, t2),
{
}

} // verus!
