//! The short window of recent requests and the direction it shows.
use vstd::prelude::*;

verus! {

/// How many requests the window holds.
pub const HISTORY_WINDOW: usize = 3;

/// The direction of travel through the sequence that a window of requests shows.
#[derive(Clone, Copy, Debug, PartialEq, Eq, Structural)]
pub enum Direction {
    /// Every move in the window went to a higher frame number.
    Forward,
    /// Every move in the window went to a lower frame number.
    Backward,
    /// The window is not full yet, or its moves disagree, or one of them stood still.
    Indeterminate,
}

/// The window after `frame` was asked for: `frame` in front, then the
/// requests before it, newest first, as far as the window has room.
pub open spec fn recorded(window: Seq<usize>, frame: usize) -> Seq<usize> {
    if window.len() < HISTORY_WINDOW {
        seq![frame] + window
    } else {
        seq![frame] + window.take(HISTORY_WINDOW - 1)
    }
}

/// Each request in the window is for a higher frame than the request before
/// it (the window is newest first, so the numbers fall along it).
pub open spec fn all_moves_up(window: Seq<usize>) -> bool {
    forall|i: int| 0 <= i < window.len() - 1 ==> #[trigger] window[i] > window[i + 1]
}

/// Each request in the window is for a lower frame than the request before it.
pub open spec fn all_moves_down(window: Seq<usize>) -> bool {
    forall|i: int| 0 <= i < window.len() - 1 ==> #[trigger] window[i] < window[i + 1]
}

/// The direction that a window shows. A direction is committed to only on a
/// full window whose moves all have the same strict sign.
pub open spec fn direction_of(window: Seq<usize>) -> Direction {
    if window.len() == HISTORY_WINDOW && all_moves_up(window) {
        Direction::Forward
    } else if window.len() == HISTORY_WINDOW && all_moves_down(window) {
        Direction::Backward
    } else {
        Direction::Indeterminate
    }
}

/// The last few frame numbers that were asked for, newest first.
pub struct RequestHistory {
    frames: Vec<usize>,
}

impl View for RequestHistory {
    type V = Seq<usize>;

    closed spec fn view(&self) -> Seq<usize> {
        self.frames@
    }
}

impl RequestHistory {
    /// What holds of every history: the window never holds more than
    /// `HISTORY_WINDOW` requests.
    #[verifier::type_invariant]
    pub open spec fn wf(&self) -> bool {
        self@.len() <= HISTORY_WINDOW
    }

    /// A window in which nothing was asked for yet.
    pub fn new() -> (history: RequestHistory)
        ensures
            history@ == Seq::<usize>::empty(),
    {
        RequestHistory { frames: Vec::new() }
    }

    /// How many requests the window holds.
    pub fn len(&self) -> (n: usize)
        ensures
            n == self@.len(),
            n <= HISTORY_WINDOW,
    {
        proof {
            use_type_invariant(self);
        }
        self.frames.len()
    }

    /// The newest request, if there is one.
    pub fn latest(&self) -> (frame: Option<usize>)
        ensures
            self@.len() == 0 ==> frame is None,
            self@.len() > 0 ==> frame == Some(self@[0]),
    {
        if self.frames.len() == 0 {
            None
        } else {
            Some(self.frames[0])
        }
    }

    /// The requests in the window, newest first.
    pub fn frames(&self) -> (frames: Vec<usize>)
        ensures
            frames@ == self@,
    {
        self.frames.clone()
    }

    /// The history with `frame` put in front of the window, without the
    /// oldest request where the window was full.
    pub fn with_request(&self, frame: usize) -> (next: RequestHistory)
        ensures
            next@ == recorded(self@, frame),
    {
        proof {
            use_type_invariant(self);
        }
        let kept: usize = if self.frames.len() < HISTORY_WINDOW {
            self.frames.len()
        } else {
            HISTORY_WINDOW - 1
        };
        let mut next: Vec<usize> = Vec::new();
        next.push(frame);
        let mut i: usize = 0;
        while i < kept
            invariant
                i <= kept <= self.frames@.len(),
                kept < HISTORY_WINDOW,
                next@ == seq![frame] + self.frames@.take(i as int),
            decreases kept - i,
        {
            next.push(self.frames[i]);
            assert(self.frames@.take(i as int).push(self.frames@[i as int])
                =~= self.frames@.take(i as int + 1));
            assert(next@ =~= seq![frame] + self.frames@.take(i as int + 1));
            i += 1;
        }
        assert(self.frames@.take(self.frames@.len() as int) =~= self.frames@);
        RequestHistory { frames: next }
    }

    /// Puts `frame` in front of the window and drops the oldest request where
    /// the window was full.
    pub fn record(&mut self, frame: usize)
        ensures
            final(self)@ == recorded(old(self)@, frame),
    {
        let next = self.with_request(frame);
        self.frames = next.frames;
    }

    /// The direction that the window shows.
    pub fn classify(&self) -> (direction: Direction)
        ensures
            direction == direction_of(self@),
    {
        if self.frames.len() != HISTORY_WINDOW {
            return Direction::Indeterminate;
        }
        let newest: usize = self.frames[0];
        let middle: usize = self.frames[1];
        let oldest: usize = self.frames[2];
        if newest > middle && middle > oldest {
            Direction::Forward
        } else if newest < middle && middle < oldest {
            assert(!(self@[0] > self@[1]));
            Direction::Backward
        } else {
            assert(!all_moves_up(self@)) by {
                if all_moves_up(self@) {
                    assert(self@[0] > self@[1]);
                    assert(self@[1] > self@[2]);
                }
            }
            assert(!all_moves_down(self@)) by {
                if all_moves_down(self@) {
                    assert(self@[0] < self@[1]);
                    assert(self@[1] < self@[2]);
                }
            }
            Direction::Indeterminate
        }
    }
}

} // verus!
