//! The frames of one directory, served by number.
use vstd::prelude::*;
use std::sync::Arc;
use crate::cache::{FrameCache, DEFAULT_CAPACITY, DEFAULT_IDLE_SECONDS, MAX_IDLE_SECONDS};
use crate::decoder::{decode, decode_outcome, decoded_rgba};
use crate::index::{FrameIndex, FrameSource};
use crate::pixel::{pixels_complete, PixelBuffer};

verus! {

/// What asking for a frame gave.
pub enum FrameLookup {
    /// The number is not one of the sequence. Nothing was done.
    OutOfRange,
    /// The frame was in the cache.
    Hit(Arc<PixelBuffer>),
    /// The frame is not in the cache: its file has to be read and handed
    /// to `load_frame`.
    Miss,
}

impl FrameLookup {
    /// What a lookup of a frame of the sequence gives for an answer of the
    /// cache.
    pub fn of_cached(cached: Option<Arc<PixelBuffer>>) -> (lookup: FrameLookup)
        ensures
            cached matches Some(buffer) ==> lookup == FrameLookup::Hit(buffer) && pixels_complete(
                buffer@,
            ),
            cached is None ==> lookup == FrameLookup::Miss,
    {
        match cached {
            Some(buffer) => {
                proof {
                    use_type_invariant(&*buffer);
                }
                FrameLookup::Hit(buffer)
            },
            None => FrameLookup::Miss,
        }
    }
}

/// An ordered sequence of frames with a cache of those decoded last.
pub struct ImageDirectory {
    index: FrameIndex,
    cache: FrameCache,
}

impl ImageDirectory {
    /// The sources of the frames, in the order of their numbers.
    pub closed spec fn sources(&self) -> Seq<FrameSource> {
        self.index@
    }

    /// The number of frames that the cache was made to hold.
    pub closed spec fn cache_capacity(&self) -> u64 {
        self.cache.capacity_spec()
    }

    /// The idle time, in seconds, after which a frame leaves the cache.
    pub closed spec fn cache_idle_seconds(&self) -> u64 {
        self.cache.idle_seconds_spec()
    }

    /// The frames of `sources`, in that order, with a cache of the default
    /// capacity and idle time.
    pub fn new(sources: Vec<FrameSource>) -> (directory: ImageDirectory)
        ensures
            directory.sources() == sources@,
            directory.cache_capacity() == DEFAULT_CAPACITY,
            directory.cache_idle_seconds() == DEFAULT_IDLE_SECONDS,
    {
        ImageDirectory { index: FrameIndex::new(sources), cache: FrameCache::with_defaults() }
    }

    /// The frames of `sources`, in that order, with a cache for `capacity`
    /// frames and an idle time of `idle_seconds`. There is none for an idle
    /// time above `MAX_IDLE_SECONDS`.
    pub fn with_cache(sources: Vec<FrameSource>, capacity: u64, idle_seconds: u64) -> (directory:
        Option<ImageDirectory>)
        ensures
            directory is Some <==> idle_seconds <= MAX_IDLE_SECONDS,
            directory matches Some(d) ==> d.sources() == sources@ && d.cache_capacity() == capacity
                && d.cache_idle_seconds() == idle_seconds,
    {
        match FrameCache::new(capacity, idle_seconds) {
            Some(cache) => Some(ImageDirectory { index: FrameIndex::new(sources), cache }),
            None => None,
        }
    }

    /// The number of frames.
    pub fn frame_count(&self) -> (count: usize)
        ensures
            count == self.sources().len(),
    {
        self.index.len()
    }

    /// The source of a frame, if the number is one of the sequence.
    pub fn source(&self, frame: usize) -> (source: Option<&FrameSource>)
        ensures
            frame >= self.sources().len() ==> source is None,
            frame < self.sources().len() ==> source == Some(&self.sources()[frame as int]),
    {
        self.index.get(frame)
    }

    /// Looks a frame up. A number outside the sequence gives `OutOfRange`
    /// and the cache is not asked; for a frame of the sequence the answer
    /// is the cache's: `Hit` with the buffer it holds, or `Miss`.
    pub fn get_frame(&self, frame: usize) -> (lookup: FrameLookup)
        ensures
            lookup is OutOfRange <==> frame >= self.sources().len(),
            lookup matches FrameLookup::Hit(buffer) ==> pixels_complete(buffer@),
    {
        if frame >= self.index.len() {
            return FrameLookup::OutOfRange;
        }
        FrameLookup::of_cached(self.cache.get(frame))
    }

    /// Tells whether a frame is in the cache, without counting as a read of
    /// it. A number outside the sequence is never cached, and the cache is
    /// not asked for it.
    pub fn is_cached(&self, frame: usize) -> (cached: bool)
        ensures
            frame >= self.sources().len() ==> !cached,
    {
        let frame_count: usize = self.index.len();
        if frame >= frame_count {
            return false;
        }
        counts_as_cached(frame, frame_count, self.cache.contains(frame))
    }

    /// Decodes the bytes of a frame's file, puts the frame into the cache
    /// and hands it out. Where the bytes do not decode there is no frame,
    /// and the cache is left alone; so it is for a number outside the
    /// sequence.
    pub fn load_frame(&self, frame: usize, bytes: &[u8]) -> (loaded: Option<Arc<PixelBuffer>>)
        ensures
            frame >= self.sources().len() ==> loaded is None,
            frame < self.sources().len() ==> match decode_outcome(
                decoded_rgba(bytes@, self.sources()[frame as int].format),
            ) {
                Ok(image) => loaded is Some && loaded->Some_0@ == image,
                Err(_) => loaded is None,
            },
    {
        let source = match self.index.get(frame) {
            Some(source) => source,
            None => {
                return None;
            },
        };
        match decode(bytes, source.format) {
            Ok(buffer) => {
                let shared = Arc::new(buffer);
                self.cache.insert(frame, &shared);
                Some(shared)
            },
            Err(_) => None,
        }
    }
}

/// Whether a frame counts as cached, given what the cache answered for its
/// number: a frame of the sequence does where the cache holds it, and a
/// number outside the sequence never does.
pub fn counts_as_cached(frame: usize, frame_count: usize, present: bool) -> (cached: bool)
    ensures
        cached == (frame < frame_count && present),
{
    frame < frame_count && present
}

impl Default for ImageDirectory {
    /// A directory without frames.
    fn default() -> (directory: ImageDirectory)
        ensures
            directory.sources() == Seq::<FrameSource>::empty(),
            directory.cache_capacity() == DEFAULT_CAPACITY,
            directory.cache_idle_seconds() == DEFAULT_IDLE_SECONDS,
    {
        ImageDirectory::new(Vec::new())
    }
}

} // verus!
