use labelo::history::{Direction, RequestHistory, HISTORY_WINDOW};
use labelo::worker::{sweep_target_at, Action, Phase, PredictiveWorker, DEFAULT_SWEEP_LENGTH};

fn history_of(frames: &[usize]) -> RequestHistory {
    let mut history = RequestHistory::new();
    for frame in frames {
        history.record(*frame);
    }
    history
}

fn worker_after(frame_count: usize, sweep_length: usize, frames: &[usize]) -> PredictiveWorker {
    let mut worker = PredictiveWorker::new(frame_count, sweep_length);
    for frame in frames {
        worker.request(*frame);
    }
    worker
}

/// Runs the sweep to its end with no request arriving and collects its targets.
fn run_sweep(worker: &mut PredictiveWorker) -> Vec<usize> {
    let mut targets = Vec::new();
    for _ in 0..1000 {
        match worker.action() {
            Action::Prefetch(target) => {
                targets.push(target);
                worker.step();
            }
            _ => return targets,
        }
    }
    panic!("the sweep did not end");
}

#[test]
fn constants_have_their_documented_values() {
    assert_eq!(HISTORY_WINDOW, 3);
    assert_eq!(DEFAULT_SWEEP_LENGTH, 25);
}

#[test]
fn new_history_is_empty() {
    let history = RequestHistory::new();
    assert_eq!(history.len(), 0);
    assert_eq!(history.latest(), None);
    assert_eq!(history.frames(), Vec::<usize>::new());
    assert_eq!(history.classify(), Direction::Indeterminate);
}

#[test]
fn history_is_newest_first() {
    let history = history_of(&[5, 6]);
    assert_eq!(history.frames(), vec![6, 5]);
    assert_eq!(history.latest(), Some(6));
    assert_eq!(history.len(), 2);
}

#[test]
fn history_drops_the_oldest_when_full() {
    let history = history_of(&[1, 2, 3, 4]);
    assert_eq!(history.frames(), vec![4, 3, 2]);
    let history = history_of(&[1, 2, 3, 4, 9, 0]);
    assert_eq!(history.frames(), vec![0, 9, 4]);
    assert_eq!(history.len(), 3);
}

#[test]
fn rising_requests_classify_forward() {
    assert_eq!(history_of(&[5, 6, 7]).classify(), Direction::Forward);
    assert_eq!(history_of(&[0, 10, 1000]).classify(), Direction::Forward);
}

#[test]
fn falling_requests_classify_backward() {
    assert_eq!(history_of(&[7, 6, 5]).classify(), Direction::Backward);
}

#[test]
fn mixed_requests_classify_indeterminate() {
    assert_eq!(history_of(&[5, 7, 6]).classify(), Direction::Indeterminate);
    assert_eq!(history_of(&[7, 5, 6]).classify(), Direction::Indeterminate);
}

#[test]
fn a_repeated_frame_is_no_move() {
    assert_eq!(history_of(&[5, 5, 6]).classify(), Direction::Indeterminate);
    assert_eq!(history_of(&[5, 6, 6]).classify(), Direction::Indeterminate);
    assert_eq!(history_of(&[6, 5, 5]).classify(), Direction::Indeterminate);
    assert_eq!(history_of(&[5, 5, 5]).classify(), Direction::Indeterminate);
}

#[test]
fn a_window_that_is_not_full_is_indeterminate() {
    assert_eq!(history_of(&[5]).classify(), Direction::Indeterminate);
    assert_eq!(history_of(&[5, 6]).classify(), Direction::Indeterminate);
    assert_eq!(history_of(&[6, 5]).classify(), Direction::Indeterminate);
}

#[test]
fn only_the_last_three_requests_count() {
    assert_eq!(history_of(&[9, 1, 5, 6, 7]).classify(), Direction::Forward);
    assert_eq!(history_of(&[5, 6, 7, 3]).classify(), Direction::Indeterminate);
}

#[test]
fn worker_classifies_the_documented_sequences() {
    let forward = worker_after(100, 25, &[5, 6, 7]);
    assert_eq!(forward.direction(), Direction::Forward);
    assert_eq!(forward.phase(), Phase::Sweeping { direction: Direction::Forward, origin: 7, taken: 0 });

    let backward = worker_after(100, 25, &[7, 6, 5]);
    assert_eq!(backward.direction(), Direction::Backward);
    assert_eq!(backward.phase(), Phase::Sweeping { direction: Direction::Backward, origin: 5, taken: 0 });

    let jitter = worker_after(100, 25, &[5, 7, 6]);
    assert_eq!(jitter.direction(), Direction::Indeterminate);
    assert_eq!(jitter.phase(), Phase::Idle);
    assert_eq!(jitter.action(), Action::Await);
}

#[test]
fn new_worker_waits() {
    let worker = PredictiveWorker::new(16, 3);
    assert_eq!(worker.frame_count(), 16);
    assert_eq!(worker.sweep_length(), 3);
    assert_eq!(worker.phase(), Phase::Idle);
    assert_eq!(worker.action(), Action::Await);
    assert_eq!(worker.history(), Vec::<usize>::new());
}

#[test]
fn sweep_names_the_frames_ahead() {
    let mut worker = worker_after(16, 3, &[10, 11, 12]);
    assert_eq!(worker.action(), Action::Prefetch(13));
    worker.step();
    assert_eq!(worker.phase(), Phase::Sweeping { direction: Direction::Forward, origin: 12, taken: 1 });
    assert_eq!(worker.action(), Action::Prefetch(14));
    worker.step();
    assert_eq!(worker.action(), Action::Prefetch(15));
    worker.step();
    assert_eq!(worker.phase(), Phase::Idle);
    assert_eq!(worker.action(), Action::Await);
}

#[test]
fn backward_sweep_names_the_frames_behind() {
    let mut worker = worker_after(100, 4, &[50, 40, 30]);
    assert_eq!(run_sweep(&mut worker), vec![29, 28, 27, 26]);
    assert_eq!(worker.action(), Action::Await);
}

#[test]
fn default_sweep_takes_twenty_five_steps() {
    let mut worker = worker_after(1000, DEFAULT_SWEEP_LENGTH, &[1, 2, 3]);
    let targets = run_sweep(&mut worker);
    assert_eq!(targets.len(), 25);
    assert_eq!(targets[0], 4);
    assert_eq!(targets[24], 28);
}

#[test]
fn forward_sweep_clamps_to_the_last_frame() {
    let mut worker = worker_after(15, 4, &[11, 12, 13]);
    assert_eq!(run_sweep(&mut worker), vec![14, 14, 14, 14]);
    let mut worker = worker_after(16, 4, &[11, 12, 13]);
    assert_eq!(run_sweep(&mut worker), vec![14, 15, 15, 15]);
}

#[test]
fn backward_sweep_clamps_to_frame_zero() {
    let mut worker = worker_after(16, 4, &[4, 3, 2]);
    assert_eq!(run_sweep(&mut worker), vec![1, 0, 0, 0]);
    let mut worker = worker_after(16, 3, &[2, 1, 0]);
    assert_eq!(run_sweep(&mut worker), vec![0, 0, 0]);
}

#[test]
fn sweep_target_values() {
    assert_eq!(sweep_target_at(Direction::Forward, 12, 3, 16), 15);
    assert_eq!(sweep_target_at(Direction::Forward, 12, 4, 16), 15);
    assert_eq!(sweep_target_at(Direction::Forward, 12, usize::MAX, 16), 15);
    assert_eq!(sweep_target_at(Direction::Forward, usize::MAX - 1, 5, usize::MAX), usize::MAX - 1);
    assert_eq!(sweep_target_at(Direction::Backward, 12, 3, 16), 9);
    assert_eq!(sweep_target_at(Direction::Backward, 2, 3, 16), 0);
    assert_eq!(sweep_target_at(Direction::Backward, 2, 2, 16), 0);
    assert_eq!(sweep_target_at(Direction::Indeterminate, 7, 3, 16), 7);
    assert_eq!(sweep_target_at(Direction::Forward, 0, 1, 0), 0);
}

#[test]
fn a_request_during_a_sweep_preempts_it() {
    let mut worker = worker_after(100, 25, &[10, 11, 12]);
    assert_eq!(worker.action(), Action::Prefetch(13));
    worker.step();
    assert_eq!(worker.action(), Action::Prefetch(14));
    // The user turns round: history is now 12, 11 behind 5, which shows no direction.
    worker.request(5);
    assert_eq!(worker.history(), vec![5, 12, 11]);
    assert_eq!(worker.phase(), Phase::Idle);
    assert_eq!(worker.action(), Action::Await);
}

#[test]
fn a_request_during_a_sweep_restarts_from_the_new_frame() {
    let mut worker = worker_after(100, 25, &[10, 11, 12]);
    worker.step();
    worker.step();
    worker.request(20);
    assert_eq!(worker.history(), vec![20, 12, 11]);
    assert_eq!(worker.phase(), Phase::Sweeping { direction: Direction::Forward, origin: 20, taken: 0 });
    assert_eq!(worker.action(), Action::Prefetch(21));
    worker.request(19);
    assert_eq!(worker.phase(), Phase::Idle);
    worker.request(18);
    assert_eq!(worker.phase(), Phase::Sweeping { direction: Direction::Backward, origin: 18, taken: 0 });
    assert_eq!(worker.action(), Action::Prefetch(17));
}

#[test]
fn a_request_outside_the_sequence_changes_nothing() {
    let mut worker = worker_after(16, 3, &[10, 11, 12]);
    worker.step();
    worker.request(16);
    worker.request(usize::MAX);
    assert_eq!(worker.history(), vec![12, 11, 10]);
    assert_eq!(worker.phase(), Phase::Sweeping { direction: Direction::Forward, origin: 12, taken: 1 });

    let mut empty = PredictiveWorker::new(0, 3);
    empty.request(0);
    assert_eq!(empty.history(), Vec::<usize>::new());
    assert_eq!(empty.action(), Action::Await);
}

#[test]
fn a_sweep_of_no_steps_never_starts() {
    let worker = worker_after(16, 0, &[10, 11, 12]);
    assert_eq!(worker.direction(), Direction::Forward);
    assert_eq!(worker.phase(), Phase::Idle);
}

#[test]
fn closing_stops_the_worker() {
    let mut worker = worker_after(16, 3, &[1, 2]);
    worker.close();
    assert_eq!(worker.phase(), Phase::Stopped);
    assert_eq!(worker.action(), Action::Stop);
    worker.request(3);
    worker.step();
    assert_eq!(worker.action(), Action::Stop);
    assert_eq!(worker.history(), vec![2, 1]);
}

#[test]
fn closing_during_a_sweep_stops_the_worker() {
    let mut worker = worker_after(16, 3, &[1, 2, 3]);
    assert_eq!(worker.action(), Action::Prefetch(4));
    worker.close();
    assert_eq!(worker.action(), Action::Stop);
}

#[test]
fn a_step_outside_a_sweep_changes_nothing() {
    let mut worker = worker_after(16, 3, &[1, 2]);
    worker.step();
    assert_eq!(worker.phase(), Phase::Idle);
    assert_eq!(worker.history(), vec![2, 1]);
}

#[test]
fn with_request_leaves_the_history_as_it_was() {
    let history = history_of(&[1, 2, 3]);
    let next = history.with_request(4);
    assert_eq!(history.frames(), vec![3, 2, 1]);
    assert_eq!(next.frames(), vec![4, 3, 2]);
    assert_eq!(next.classify(), Direction::Forward);
    assert_eq!(RequestHistory::new().with_request(9).frames(), vec![9]);
}
