//! The cached poll façade: one short-lived, time-windowed cache entry
//! per metric class.
//!
//! A poll first consults the cache; within the window the stored value
//! is returned as is and no hardware call is made. On a miss the
//! application performs the blocking hardware query on a worker
//! context and stores the fresh value wholesale, stamping the new
//! time. Writers always replace the whole entry, never single fields,
//! so a reader sees an internally consistent snapshot. Time is carried
//! as milliseconds of a monotonic clock, supplied by the caller.
//!
//! Concurrent misses for the same metric class are not deduplicated:
//! two callers that both observe a stale entry may both query the
//! hardware; with the short window that is an accepted cost, not a
//! correctness bug.

use vstd::prelude::*;

use crate::gpu::GpuStats;
use crate::usage::CpuUsage;

verus! {

/// The cache window every metric class uses: half a second.
pub const CACHE_WINDOW_MS: u64 = 500;

/// One time-windowed cache entry: the time of the last refresh and the
/// last known value, if any was ever stored.
pub struct TimedCache<T> {
    pub window_ms: u64,
    pub last_update_ms: u64,
    pub value: Option<T>,
}

impl<T> TimedCache<T> {
    /// The entry answers a poll at `now_ms` from the cache alone: a
    /// value is stored and less than one window has passed since the
    /// last refresh.
    pub open spec fn is_fresh(self, now_ms: u64) -> bool {
        &&& self.value is Some
        &&& self.last_update_ms <= now_ms
        &&& now_ms - self.last_update_ms < self.window_ms
    }

    /// An empty entry with the given window; the first poll always
    /// misses.
    pub fn new(window_ms: u64) -> (r: Self)
        ensures
            r.window_ms == window_ms,
            r.value is None,
    {
        TimedCache { window_ms, last_update_ms: 0, value: None }
    }

    /// The poll's cache check: the stored value exactly when the entry
    /// is fresh at `now_ms`, and `None` (hardware must be queried)
    /// otherwise. Reading changes nothing.
    pub fn lookup(&self, now_ms: u64) -> (r: Option<&T>)
        ensures
            match r {
                Some(v) => self.is_fresh(now_ms) && self.value == Some(*v),
                None => !self.is_fresh(now_ms),
            },
    {
        match &self.value {
            Some(v) => {
                if self.last_update_ms <= now_ms && now_ms - self.last_update_ms
                    < self.window_ms {
                    Some(v)
                } else {
                    None
                }
            },
            None => None,
        }
    }

    /// Replaces the entry wholesale with a fresh value and stamps the
    /// refresh time.
    pub fn store(&mut self, now_ms: u64, value: T)
        ensures
            final(self).window_ms == old(self).window_ms,
            final(self).last_update_ms == now_ms,
            final(self).value == Some(value),
    {
        self.last_update_ms = now_ms;
        self.value = Some(value);
    }
}

/// A poll within the window after a store never needs a hardware call:
/// the entry is fresh, so `lookup` answers it from the cache.
pub proof fn lemma_hit_within_window<T>(c: TimedCache<T>, now_ms: u64)
    requires
        c.value is Some,
        c.last_update_ms <= now_ms,
        now_ms - c.last_update_ms < c.window_ms,
    ensures
        c.is_fresh(now_ms),
{
}

/// From one full window after the last refresh on, the entry is stale:
/// `lookup` returns `None` and the poll performs exactly one fresh
/// hardware call, whose result replaces the entry.
pub proof fn lemma_stale_after_window<T>(c: TimedCache<T>, now_ms: u64)
    requires
        now_ms >= c.last_update_ms + c.window_ms,
    ensures
        !c.is_fresh(now_ms),
{
}

/// The explicitly owned cache object of each metric class, constructed
/// once at start-up and passed by reference to every poll.
pub struct TelemetryCaches {
    pub cpu_usage: TimedCache<CpuUsage>,
    pub cpu_temp: TimedCache<i64>,
    pub fan_speeds: TimedCache<Vec<(usize, i64)>>,
    pub gpu_stats: TimedCache<GpuStats>,
}

impl TelemetryCaches {
    /// All four entries empty, each with the half-second window.
    pub fn new() -> (r: Self)
        ensures
            r.cpu_usage.window_ms == CACHE_WINDOW_MS && r.cpu_usage.value is None,
            r.cpu_temp.window_ms == CACHE_WINDOW_MS && r.cpu_temp.value is None,
            r.fan_speeds.window_ms == CACHE_WINDOW_MS && r.fan_speeds.value is None,
            r.gpu_stats.window_ms == CACHE_WINDOW_MS && r.gpu_stats.value is None,
    {
        TelemetryCaches {
            cpu_usage: TimedCache::new(CACHE_WINDOW_MS),
            cpu_temp: TimedCache::new(CACHE_WINDOW_MS),
            fan_speeds: TimedCache::new(CACHE_WINDOW_MS),
            gpu_stats: TimedCache::new(CACHE_WINDOW_MS),
        }
    }
}

} // verus!
