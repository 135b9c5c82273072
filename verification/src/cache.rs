//! The bounded store of decoded frames.
//!
//! The store is `mini_moka::sync::Cache`. It evicts by capacity and by idle
//! time on its own schedule, and other threads write to it, so what it holds
//! at a given moment is not a function of the calls that one thread made:
//! the operations below promise nothing of what comes back, and the code that
//! uses them is verified for every answer.
use vstd::prelude::*;
use std::sync::Arc;
use mini_moka::sync::Cache;
use crate::pixel::PixelBuffer;

verus! {

/// The cache type of the `mini_moka` crate.
#[verifier::external_type_specification]
#[verifier::external_body]
#[verifier::reject_recursive_types(K)]
#[verifier::reject_recursive_types(V)]
#[verifier::reject_recursive_types(S)]
pub struct ExCache<K, V, S>(Cache<K, V, S>);

/// How many frames the cache holds unless told otherwise.
pub const DEFAULT_CAPACITY: u64 = 100;

/// After how many seconds without a read a frame leaves the cache, unless
/// told otherwise.
pub const DEFAULT_IDLE_SECONDS: u64 = 60;

/// The longest idle time that a cache can be made with: a thousand years.
pub const MAX_IDLE_SECONDS: u64 = 31_536_000_000;

/// A store of decoded frames by frame number, bounded in size and in the
/// time that a frame may stay unread. It can be read and written from
/// several threads through a shared reference.
pub struct FrameCache {
    store: Cache<usize, Arc<PixelBuffer>>,
    capacity: u64,
    idle_seconds: u64,
}

/// Calls `Cache::builder()`, `max_capacity`, `time_to_idle` and `build` of
/// `mini_moka`. `build` panics on an idle time of more than a thousand
/// years, which `requires` leaves out. Nothing is claimed of the cache made.
#[verifier::external_body]
fn build_store(capacity: u64, idle_seconds: u64) -> (store: Cache<usize, Arc<PixelBuffer>>)
    requires
        idle_seconds <= MAX_IDLE_SECONDS,
{
    Cache::builder().max_capacity(capacity).time_to_idle(
        std::time::Duration::from_secs(idle_seconds),
    ).build()
}

impl FrameCache {
    /// The number of frames that the cache was made to hold.
    pub closed spec fn capacity_spec(&self) -> u64 {
        self.capacity
    }

    /// The idle time, in seconds, that the cache was made with.
    pub closed spec fn idle_seconds_spec(&self) -> u64 {
        self.idle_seconds
    }

    /// An empty cache for `capacity` frames that lets go of a frame not read
    /// for `idle_seconds`. There is none for an idle time above
    /// `MAX_IDLE_SECONDS`.
    pub fn new(capacity: u64, idle_seconds: u64) -> (cache: Option<FrameCache>)
        ensures
            cache is Some <==> idle_seconds <= MAX_IDLE_SECONDS,
            cache matches Some(c) ==> c.capacity_spec() == capacity && c.idle_seconds_spec()
                == idle_seconds,
    {
        if idle_seconds > MAX_IDLE_SECONDS {
            None
        } else {
            Some(FrameCache { store: build_store(capacity, idle_seconds), capacity, idle_seconds })
        }
    }

    /// An empty cache with the default capacity and idle time.
    pub fn with_defaults() -> (cache: FrameCache)
        ensures
            cache.capacity_spec() == DEFAULT_CAPACITY,
            cache.idle_seconds_spec() == DEFAULT_IDLE_SECONDS,
    {
        FrameCache {
            store: build_store(DEFAULT_CAPACITY, DEFAULT_IDLE_SECONDS),
            capacity: DEFAULT_CAPACITY,
            idle_seconds: DEFAULT_IDLE_SECONDS,
        }
    }

    /// The number of frames that the cache was made to hold.
    pub fn capacity(&self) -> (capacity: u64)
        ensures
            capacity == self.capacity_spec(),
    {
        self.capacity
    }

    /// The idle time, in seconds, that the cache was made with.
    pub fn idle_seconds(&self) -> (seconds: u64)
        ensures
            seconds == self.idle_seconds_spec(),
    {
        self.idle_seconds
    }

    /// Calls `Cache::get` of `mini_moka`, which hands out a shared handle to
    /// the frame stored under the number, if one is there, and counts as a
    /// read of it. Nothing is claimed of the answer.
    #[verifier::external_body]
    pub(crate) fn get(&self, frame: usize) -> (cached: Option<Arc<PixelBuffer>>) {
        self.store.get(&frame)
    }

    /// Calls `Cache::contains_key` of `mini_moka`, which tells whether a
    /// frame is stored under the number and does not count as a read.
    /// Nothing is claimed of the answer.
    #[verifier::external_body]
    pub(crate) fn contains(&self, frame: usize) -> (present: bool) {
        self.store.contains_key(&frame)
    }

    /// Calls `Cache::insert` of `mini_moka` with a second handle to the
    /// buffer, which stores it under the number in place of what was there.
    /// Nothing is claimed of what the cache holds afterwards.
    #[verifier::external_body]
    pub(crate) fn insert(&self, frame: usize, buffer: &Arc<PixelBuffer>) {
        self.store.insert(frame, buffer.clone())
    }
}

} // verus!
