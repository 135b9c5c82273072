//! Moving the playhead through a sequence of frames.
use vstd::prelude::*;
use vstd::arithmetic::div_mod::{lemma_fundamental_div_mod, lemma_fundamental_div_mod_converse};

verus! {

/// The frame one step back, going round from the first frame to the last.
/// An empty sequence leaves the playhead where it is.
pub open spec fn wrapped_back(current: usize, frame_count: usize) -> int {
    if frame_count == 0 {
        current as int
    } else {
        (current - 1) % (frame_count as int)
    }
}

/// The frame one step on, going round from the last frame to the first.
/// An empty sequence leaves the playhead where it is.
pub open spec fn wrapped_forward(current: usize, frame_count: usize) -> int {
    if frame_count == 0 {
        current as int
    } else {
        (current + 1) % (frame_count as int)
    }
}

/// The frame one step back, stopping at the first frame.
pub open spec fn stepped_back(current: usize) -> int {
    if current == 0 {
        0
    } else {
        current - 1
    }
}

/// The frame one step on, stopping at the last frame. An empty sequence
/// leaves the playhead where it is.
pub open spec fn stepped_forward(current: usize, frame_count: usize) -> int {
    if frame_count == 0 {
        current as int
    } else if current + 1 > frame_count - 1 {
        frame_count - 1
    } else {
        current + 1
    }
}

/// Goes one frame back, round the ends of the sequence.
pub fn wrap_back(current: usize, frame_count: usize) -> (frame: usize)
    ensures
        frame == wrapped_back(current, frame_count),
        frame_count > 0 ==> frame < frame_count,
{
    if frame_count == 0 {
        return current;
    }
    let within: usize = current % frame_count;
    let ghost turns: int = current as int / frame_count as int;
    proof {
        lemma_fundamental_div_mod(current as int, frame_count as int);
        assert(frame_count as int * turns == turns * frame_count as int) by (nonlinear_arith);
    }
    if within == 0 {
        proof {
            assert((turns - 1) * frame_count as int == turns * frame_count as int
                - frame_count as int) by (nonlinear_arith);
            lemma_fundamental_div_mod_converse(
                current - 1,
                frame_count as int,
                turns - 1,
                frame_count - 1,
            );
        }
        frame_count - 1
    } else {
        proof {
            lemma_fundamental_div_mod_converse(
                current - 1,
                frame_count as int,
                turns,
                within - 1,
            );
        }
        within - 1
    }
}

/// Goes one frame on, round the ends of the sequence.
pub fn wrap_forward(current: usize, frame_count: usize) -> (frame: usize)
    ensures
        frame == wrapped_forward(current, frame_count),
        frame_count > 0 ==> frame < frame_count,
{
    if frame_count == 0 {
        return current;
    }
    let within: usize = current % frame_count;
    let ghost turns: int = current as int / frame_count as int;
    proof {
        lemma_fundamental_div_mod(current as int, frame_count as int);
        assert(frame_count as int * turns == turns * frame_count as int) by (nonlinear_arith);
    }
    if within == frame_count - 1 {
        proof {
            assert((turns + 1) * frame_count as int == turns * frame_count as int
                + frame_count as int) by (nonlinear_arith);
            lemma_fundamental_div_mod_converse(current + 1, frame_count as int, turns + 1, 0);
        }
        0
    } else {
        proof {
            lemma_fundamental_div_mod_converse(
                current + 1,
                frame_count as int,
                turns,
                within + 1,
            );
        }
        within + 1
    }
}

/// Goes one frame back and stops at the first frame.
pub fn step_back(current: usize) -> (frame: usize)
    ensures
        frame == stepped_back(current),
{
    if current == 0 {
        0
    } else {
        current - 1
    }
}

/// Goes one frame on and stops at the last frame.
pub fn step_forward(current: usize, frame_count: usize) -> (frame: usize)
    ensures
        frame == stepped_forward(current, frame_count),
{
    if frame_count == 0 {
        current
    } else if current >= frame_count - 1 {
        frame_count - 1
    } else {
        current + 1
    }
}

/// Whether playing goes on from `current`: it stops on the last frame, and
/// there is nothing to play in an empty sequence.
pub fn keeps_playing(current: usize, frame_count: usize) -> (plays: bool)
    ensures
        plays == (current + 1 < frame_count),
{
    frame_count > 0 && current < frame_count - 1
}

} // verus!
