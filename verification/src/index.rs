//! The ordered list of the frames' sources.
use vstd::prelude::*;
use crate::decoder::FrameFormat;

verus! {

/// Where the bytes of one frame are found, and how to read them.
#[derive(Debug)]
pub struct FrameSource {
    /// The path of the frame's file.
    pub locator: String,
    /// The format of the frame's file.
    pub format: FrameFormat,
}

/// The sources of the frames of a sequence, by frame number. It is built
/// once and never changed.
#[derive(Debug)]
pub struct FrameIndex {
    sources: Vec<FrameSource>,
}

impl View for FrameIndex {
    type V = Seq<FrameSource>;

    closed spec fn view(&self) -> Seq<FrameSource> {
        self.sources@
    }
}

impl FrameIndex {
    /// The index of `sources`, numbered from 0 in the order given.
    pub fn new(sources: Vec<FrameSource>) -> (index: FrameIndex)
        ensures
            index@ == sources@,
    {
        FrameIndex { sources }
    }

    /// The number of frames.
    pub fn len(&self) -> (count: usize)
        ensures
            count == self@.len(),
    {
        self.sources.len()
    }

    /// The source of a frame, if the number is one of the sequence.
    pub fn get(&self, frame: usize) -> (source: Option<&FrameSource>)
        ensures
            frame >= self@.len() ==> source is None,
            frame < self@.len() ==> source == Some(&self@[frame as int]),
    {
        if frame < self.sources.len() {
            Some(&self.sources[frame])
        } else {
            None
        }
    }
}

} // verus!
