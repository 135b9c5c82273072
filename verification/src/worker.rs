//! The prefetch worker, as a state machine.
//!
//! The worker owns no thread and no channel. Whoever runs it asks for the
//! next [`Action`], carries it out, and reports what happened through
//! [`PredictiveWorker::request`], [`PredictiveWorker::step`] or
//! [`PredictiveWorker::close`].
use vstd::prelude::*;
use crate::history::{direction_of, recorded, Direction, RequestHistory};

verus! {

/// How many frames one sweep looks ahead unless told otherwise.
pub const DEFAULT_SWEEP_LENGTH: usize = 25;

/// How many requests may wait for the worker. A request that finds this
/// many waiting is dropped rather than holding up the caller.
pub const REQUEST_CHANNEL_CAPACITY: usize = 1000;

/// What the worker is doing between two actions.
#[derive(Clone, Copy, Debug, PartialEq, Eq, Structural)]
pub enum Phase {
    /// No sweep is under way: the worker waits for the next request.
    Idle,
    /// A sweep from `origin` in `direction` is under way, and `taken` of its
    /// steps are done.
    Sweeping { direction: Direction, origin: usize, taken: usize },
    /// The request channel is closed: the worker is finished.
    Stopped,
}

/// What the worker wants done next.
#[derive(Clone, Copy, Debug, PartialEq, Eq, Structural)]
pub enum Action {
    /// Block until a request arrives or the channel closes, then report it
    /// with `request` or `close`.
    Await,
    /// Look, without blocking, whether a newer request is waiting. If one
    /// is, report it with `request`. If none is, make sure this frame is in
    /// the cache and report with `step`.
    Prefetch(usize),
    /// Leave the loop.
    Stop,
}

/// The highest frame number of a sequence of `frame_count` frames (0 for an
/// empty sequence).
pub open spec fn last_frame(frame_count: usize) -> int {
    if frame_count == 0 {
        0
    } else {
        frame_count - 1
    }
}

/// The frame that lies `step` frames from `origin` in `direction`, held
/// inside the sequence: no higher than its last frame, no lower than 0.
pub open spec fn sweep_target(
    direction: Direction,
    origin: usize,
    step: usize,
    frame_count: usize,
) -> int {
    match direction {
        Direction::Forward => if origin + step > last_frame(frame_count) {
            last_frame(frame_count)
        } else {
            origin + step
        },
        Direction::Backward => if step > origin {
            0
        } else {
            origin - step
        },
        Direction::Indeterminate => origin as int,
    }
}

/// Computes `sweep_target` without overflow.
pub fn sweep_target_at(direction: Direction, origin: usize, step: usize, frame_count: usize) -> (target:
    usize)
    ensures
        target == sweep_target(direction, origin, step, frame_count),
{
    let last: usize = if frame_count == 0 {
        0
    } else {
        frame_count - 1
    };
    match direction {
        Direction::Forward => {
            if origin > last {
                last
            } else if step > last - origin {
                last
            } else {
                origin + step
            }
        },
        Direction::Backward => {
            if step > origin {
                0
            } else {
                origin - step
            }
        },
        Direction::Indeterminate => origin,
    }
}

/// The worker as a plain value.
pub ghost struct WorkerView {
    /// The window of recent requests, newest first.
    pub history: Seq<usize>,
    /// What the worker is doing.
    pub phase: Phase,
    /// The number of frames in the sequence.
    pub frame_count: usize,
    /// The number of steps in one sweep.
    pub sweep_length: usize,
}

/// The phase in which a request for `frame` leaves the worker, `window`
/// being the history with that request in it: a sweep from `frame` where
/// the window shows a direction and a sweep has steps, idle otherwise.
pub open spec fn phase_on_request(window: Seq<usize>, frame: usize, sweep_length: usize) -> Phase {
    let direction = direction_of(window);
    if direction != Direction::Indeterminate && sweep_length > 0 {
        Phase::Sweeping { direction, origin: frame, taken: 0 }
    } else {
        Phase::Idle
    }
}

/// The worker after a request for `frame` was delivered. A stopped worker
/// and a frame outside the sequence change nothing. Otherwise the request
/// enters the history and alone decides the phase: a sweep that was under
/// way is given up.
pub open spec fn requested(worker: WorkerView, frame: usize) -> WorkerView {
    if worker.phase is Stopped || frame >= worker.frame_count {
        worker
    } else {
        let window = recorded(worker.history, frame);
        WorkerView {
            history: window,
            phase: phase_on_request(window, frame, worker.sweep_length),
            ..worker
        }
    }
}

/// The worker after one step of its sweep was carried out. The sweep goes
/// on while it has steps left and ends in `Idle`; outside a sweep nothing
/// changes.
pub open spec fn stepped(worker: WorkerView) -> WorkerView {
    match worker.phase {
        Phase::Sweeping { direction, origin, taken } => {
            if taken + 1 < worker.sweep_length {
                WorkerView {
                    phase: Phase::Sweeping { direction, origin, taken: (taken + 1) as usize },
                    ..worker
                }
            } else {
                WorkerView { phase: Phase::Idle, ..worker }
            }
        },
        _ => worker,
    }
}

/// The worker after `count` steps in a row.
pub open spec fn stepped_times(worker: WorkerView, count: nat) -> WorkerView
    decreases count,
{
    if count == 0 {
        worker
    } else {
        stepped_times(stepped(worker), (count - 1) as nat)
    }
}

/// The worker after it learned that the request channel is closed.
pub open spec fn shut_down(worker: WorkerView) -> WorkerView {
    WorkerView { phase: Phase::Stopped, ..worker }
}

/// What the worker wants done next.
pub open spec fn action_of(worker: WorkerView) -> Action {
    match worker.phase {
        Phase::Idle => Action::Await,
        Phase::Sweeping { direction, origin, taken } => Action::Prefetch(
            sweep_target(direction, origin, (taken + 1) as usize, worker.frame_count) as usize,
        ),
        Phase::Stopped => Action::Stop,
    }
}

/// What holds of every worker: the history fits its window, and a sweep has
/// a direction, an origin inside the sequence and a step still to take.
pub open spec fn worker_wf(worker: WorkerView) -> bool {
    &&& worker.history.len() <= crate::history::HISTORY_WINDOW
    &&& match worker.phase {
        Phase::Sweeping { direction, origin, taken } => {
            &&& direction != Direction::Indeterminate
            &&& origin < worker.frame_count
            &&& taken < worker.sweep_length
        },
        _ => true,
    }
}

/// Watches the frames that are asked for and names the frames to decode
/// ahead of the direction of travel.
pub struct PredictiveWorker {
    history: RequestHistory,
    phase: Phase,
    frame_count: usize,
    sweep_length: usize,
}

impl View for PredictiveWorker {
    type V = WorkerView;

    closed spec fn view(&self) -> WorkerView {
        WorkerView {
            history: self.history@,
            phase: self.phase,
            frame_count: self.frame_count,
            sweep_length: self.sweep_length,
        }
    }
}

impl PredictiveWorker {
    /// What holds of every worker, over its view.
    #[verifier::type_invariant]
    pub open spec fn wf(&self) -> bool {
        worker_wf(self@)
    }

    /// An idle worker with an empty history, for a sequence of `frame_count`
    /// frames and sweeps of `sweep_length` steps.
    pub fn new(frame_count: usize, sweep_length: usize) -> (worker: PredictiveWorker)
        ensures
            worker@ == (WorkerView {
                history: Seq::<usize>::empty(),
                phase: Phase::Idle,
                frame_count,
                sweep_length,
            }),
    {
        PredictiveWorker { history: RequestHistory::new(), phase: Phase::Idle, frame_count, sweep_length }
    }

    /// The number of frames in the sequence.
    pub fn frame_count(&self) -> (n: usize)
        ensures
            n == self@.frame_count,
    {
        self.frame_count
    }

    /// The number of steps in one sweep.
    pub fn sweep_length(&self) -> (n: usize)
        ensures
            n == self@.sweep_length,
    {
        self.sweep_length
    }

    /// What the worker is doing.
    pub fn phase(&self) -> (phase: Phase)
        ensures
            phase == self@.phase,
    {
        self.phase
    }

    /// The recent requests, newest first.
    pub fn history(&self) -> (frames: Vec<usize>)
        ensures
            frames@ == self@.history,
    {
        self.history.frames()
    }

    /// The direction that the recent requests show.
    pub fn direction(&self) -> (direction: Direction)
        ensures
            direction == direction_of(self@.history),
    {
        self.history.classify()
    }

    /// Takes in a request for `frame`: records it, classifies the history
    /// anew and starts a sweep from `frame` where a direction shows.
    pub fn request(&mut self, frame: usize)
        ensures
            final(self)@ == requested(old(self)@, frame),
    {
        proof {
            use_type_invariant(&*self);
        }
        match self.phase {
            Phase::Stopped => {
                return ;
            },
            _ => {},
        }
        if frame >= self.frame_count {
            return ;
        }
        self.history = self.history.with_request(frame);
        let direction = self.history.classify();
        let sweeps: bool = match direction {
            Direction::Indeterminate => false,
            _ => self.sweep_length > 0,
        };
        if sweeps {
            self.phase = Phase::Sweeping { direction, origin: frame, taken: 0 };
        } else {
            self.phase = Phase::Idle;
        }
    }

    /// Takes in that the step named by the last `Prefetch` was carried out.
    pub fn step(&mut self)
        ensures
            final(self)@ == stepped(old(self)@),
    {
        proof {
            use_type_invariant(&*self);
        }
        match self.phase {
            Phase::Sweeping { direction, origin, taken } => {
                if taken + 1 < self.sweep_length {
                    self.phase = Phase::Sweeping { direction, origin, taken: taken + 1 };
                } else {
                    self.phase = Phase::Idle;
                }
            },
            _ => {},
        }
    }

    /// Takes in that the request channel is closed.
    pub fn close(&mut self)
        ensures
            final(self)@ == shut_down(old(self)@),
    {
        proof {
            use_type_invariant(&*self);
        }
        self.phase = Phase::Stopped;
    }

    /// What to do next.
    pub fn action(&self) -> (action: Action)
        ensures
            action == action_of(self@),
            action matches Action::Prefetch(target) ==> target < self@.frame_count,
    {
        proof {
            use_type_invariant(self);
            lemma_prefetch_in_sequence(self@);
        }
        match self.phase {
            Phase::Idle => Action::Await,
            Phase::Sweeping { direction, origin, taken } => Action::Prefetch(
                sweep_target_at(direction, origin, taken + 1, self.frame_count),
            ),
            Phase::Stopped => Action::Stop,
        }
    }
}

/// Every transition keeps the worker's invariant.
pub proof fn lemma_transitions_keep_wf(worker: WorkerView, frame: usize)
    requires
        worker_wf(worker),
    ensures
        worker_wf(requested(worker, frame)),
        worker_wf(stepped(worker)),
        worker_wf(shut_down(worker)),
{
}

/// A worker never asks for a frame outside the sequence.
pub proof fn lemma_prefetch_in_sequence(worker: WorkerView)
    requires
        worker_wf(worker),
    ensures
        action_of(worker) matches Action::Prefetch(target) ==> target < worker.frame_count,
{
    if let Phase::Sweeping { direction, origin, taken } = worker.phase {
        lemma_sweep_target_clamped(direction, origin, (taken + 1) as usize, worker.frame_count);
    }
}

/// Clamping: a sweep target always lies inside the sequence. A forward
/// target that would pass the last frame is the last frame, a backward
/// target that would pass frame 0 is frame 0, and every other target lies
/// exactly `step` frames from the origin.
pub proof fn lemma_sweep_target_clamped(
    direction: Direction,
    origin: usize,
    step: usize,
    frame_count: usize,
)
    requires
        origin < frame_count,
    ensures
        0 <= sweep_target(direction, origin, step, frame_count) <= frame_count - 1,
        direction == Direction::Forward && origin + step > frame_count - 1 ==> sweep_target(
            direction,
            origin,
            step,
            frame_count,
        ) == frame_count - 1,
        direction == Direction::Forward && origin + step <= frame_count - 1 ==> sweep_target(
            direction,
            origin,
            step,
            frame_count,
        ) == origin + step,
        direction == Direction::Backward && step > origin ==> sweep_target(
            direction,
            origin,
            step,
            frame_count,
        ) == 0,
        direction == Direction::Backward && step <= origin ==> sweep_target(
            direction,
            origin,
            step,
            frame_count,
        ) == origin - step,
{
}

/// Preemption: a request that arrives during a sweep ends that sweep.
/// The request becomes the newest entry of the history, and the worker goes
/// on exactly as an idle worker with the same history would: nothing of the
/// old sweep's direction, origin or progress is left.
pub proof fn lemma_request_preempts_sweep(worker: WorkerView, frame: usize)
    requires
        worker_wf(worker),
        worker.phase is Sweeping,
        frame < worker.frame_count,
    ensures
        requested(worker, frame).history == recorded(worker.history, frame),
        requested(worker, frame).history[0] == frame,
        requested(worker, frame).phase == phase_on_request(
            recorded(worker.history, frame),
            frame,
            worker.sweep_length,
        ),
        requested(worker, frame) == requested(WorkerView { phase: Phase::Idle, ..worker }, frame),
{
}

/// Three requests in a row for rising frames start a forward sweep from the
/// last of them, whatever the worker was doing before.
pub proof fn lemma_rising_requests_sweep_forward(
    worker: WorkerView,
    first: usize,
    second: usize,
    third: usize,
)
    requires
        worker_wf(worker),
        !(worker.phase is Stopped),
        worker.sweep_length > 0,
        first < second < third < worker.frame_count,
    ensures
        requested(requested(requested(worker, first), second), third).phase == (Phase::Sweeping {
            direction: Direction::Forward,
            origin: third,
            taken: 0,
        }),
{
    let one = requested(worker, first);
    let two = requested(one, second);
    let three = requested(two, third);
    assert(three.history =~= seq![third, second, first]);
    assert(crate::history::all_moves_up(three.history));
}

/// Three requests in a row for falling frames start a backward sweep from
/// the last of them, whatever the worker was doing before.
pub proof fn lemma_falling_requests_sweep_backward(
    worker: WorkerView,
    first: usize,
    second: usize,
    third: usize,
)
    requires
        worker_wf(worker),
        !(worker.phase is Stopped),
        worker.sweep_length > 0,
        third < second < first < worker.frame_count,
    ensures
        requested(requested(requested(worker, first), second), third).phase == (Phase::Sweeping {
            direction: Direction::Backward,
            origin: third,
            taken: 0,
        }),
{
    let one = requested(worker, first);
    let two = requested(one, second);
    let three = requested(two, third);
    assert(three.history =~= seq![third, second, first]);
    assert(crate::history::all_moves_down(three.history));
    assert(!crate::history::all_moves_up(three.history)) by {
        assert(three.history[0] < three.history[1]);
    }
}

/// A sweep that is not interrupted visits its targets in order: after
/// `count` further steps it is still the same sweep, `count` steps further
/// on, and asks for the frame one step beyond those taken (clamped).
pub proof fn lemma_sweep_visits(worker: WorkerView, count: nat)
    requires
        worker_wf(worker),
        worker.phase is Sweeping,
        worker.phase->taken + count < worker.sweep_length,
    ensures
        stepped_times(worker, count).phase == (Phase::Sweeping {
            direction: worker.phase->direction,
            origin: worker.phase->origin,
            taken: (worker.phase->taken + count) as usize,
        }),
        action_of(stepped_times(worker, count)) == Action::Prefetch(
            sweep_target(
                worker.phase->direction,
                worker.phase->origin,
                (worker.phase->taken + count + 1) as usize,
                worker.frame_count,
            ) as usize,
        ),
        stepped_times(worker, count).history == worker.history,
        stepped_times(worker, count).frame_count == worker.frame_count,
        stepped_times(worker, count).sweep_length == worker.sweep_length,
    decreases count,
{
    if count > 0 {
        lemma_sweep_visits(stepped(worker), (count - 1) as nat);
    }
}

/// A sweep that is not interrupted ends: once the steps that were left are
/// taken, the worker is idle and waits for the next request.
pub proof fn lemma_sweep_ends(worker: WorkerView)
    requires
        worker_wf(worker),
        worker.phase is Sweeping,
    ensures
        stepped_times(worker, (worker.sweep_length - worker.phase->taken) as nat).phase
            == Phase::Idle,
        action_of(stepped_times(worker, (worker.sweep_length - worker.phase->taken) as nat))
            == Action::Await,
    decreases worker.sweep_length - worker.phase->taken,
{
    let left = (worker.sweep_length - worker.phase->taken) as nat;
    if left > 1 {
        lemma_sweep_ends(stepped(worker));
    } else {
        assert(stepped_times(stepped(worker), 0) == stepped(worker));
    }
}

/// Once the channel is closed the worker stops, and no request or step
/// brings it back.
pub proof fn lemma_stopped_stays_stopped(worker: WorkerView, frame: usize)
    ensures
        action_of(shut_down(worker)) == Action::Stop,
        requested(shut_down(worker), frame) == shut_down(worker),
        stepped(shut_down(worker)) == shut_down(worker),
{
}

} // verus!
