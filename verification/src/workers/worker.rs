//! When a background worker runs.
use vstd::prelude::*;

verus! {

/// Seconds between refreshes of the current directory.
pub const UPDATE_CURRENT_DIR_INTERVAL_SECS: u64 = 30;

/// When a worker last started, and whether its last run is still under way.
#[derive(Debug, Clone, Copy, PartialEq, Eq, Structural)]
pub struct WorkerState {
    pub previous_update_time: u64,
    pub blocked: bool,
}

/// A worker runs when its last run has finished and more than `interval` seconds have
/// passed since it started.
pub open spec fn due(s: WorkerState, now: u64, interval: u64) -> bool {
    !s.blocked && now - s.previous_update_time > interval
}

impl WorkerState {
    /// A worker created at `now`: not running, counting from `now`.
    pub fn new(now: u64) -> (r: Self)
        ensures
            r == (WorkerState { previous_update_time: now, blocked: false }),
    {
        WorkerState { previous_update_time: now, blocked: false }
    }

    /// Whether the worker runs at `now` (see `due`). A clock that went back before the last
    /// start is left out: the elapsed time would be negative.
    pub fn is_due(&self, now: u64, interval: u64) -> (r: bool)
        requires
            self.previous_update_time <= now,
        ensures
            r == due(*self, now, interval),
    {
        !self.blocked && now - self.previous_update_time > interval
    }

    /// The state of a worker started at `now`: running until its result is handled.
    pub fn started(&self, now: u64) -> (r: Self)
        ensures
            r == (WorkerState { previous_update_time: now, blocked: true }),
    {
        WorkerState { previous_update_time: now, blocked: true }
    }

    /// The state once the result of a run has been handled: free to run again, still
    /// counting from its last start.
    pub fn finished(&self) -> (r: Self)
        ensures
            r == (WorkerState { previous_update_time: self.previous_update_time, blocked: false }),
    {
        WorkerState { previous_update_time: self.previous_update_time, blocked: false }
    }
}

/// A worker that has started is not started again before its result is handled, whatever
/// the time; once handled, it runs when more than the interval has passed since it started.
pub proof fn lemma_one_run_at_a_time(start: u64, now: u64, interval: u64)
    requires
        start <= now,
    ensures
        !due(WorkerState { previous_update_time: start, blocked: true }, now, interval),
        due(WorkerState { previous_update_time: start, blocked: false }, now, interval) <==> now
            - start > interval,
{
}

}
