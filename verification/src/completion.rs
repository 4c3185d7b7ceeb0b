//! Completion synchronization and the wrapper's exit path: the result of a
//! run may only be produced after the child has reported its exit status
//! and every launched drainer has finished, and the wrapper's own exit
//! code is a fixed function of how the run ended.

use vstd::prelude::*;

verus! {

/// Exit code of the wrapper when the child was terminated by a signal and
/// so has no exit code of its own. A reserved, unambiguous non-zero code;
/// never substituted by 0 or 1 silently.
pub const SIGNAL_TERMINATION_EXIT_CODE: i32 = 125;

/// Exit code of the wrapper when the child could not be spawned at all.
pub const SPAWN_FAILURE_EXIT_CODE: i32 = 127;

/// Exit code of the wrapper when a captured stream held bytes that are not
/// valid UTF-8. Losing output silently is not acceptable, so this is fatal.
pub const DRAIN_FAILURE_EXIT_CODE: i32 = 1;

/// How the child process ended: normally with an exit code, or terminated
/// by a signal, in which case no exit code exists.
#[derive(Clone, Copy, Debug, PartialEq, Eq, Structural)]
pub enum ChildStatus {
    Exited(i32),
    Signaled,
}

/// The one result of a run, produced only after the child and all drainers
/// have completed. Durations are in milliseconds: `wall_duration_ms` spans
/// the whole wrapper invocation from before gate evaluation,
/// `process_duration_ms` the child alone from immediately before spawn.
/// Both are reported whatever the child's status.
#[derive(Clone, Copy, Debug, PartialEq, Eq, Structural)]
pub struct ExecutionResult {
    pub status: ChildStatus,
    pub wall_duration_ms: u128,
    pub process_duration_ms: u128,
}

/// How the whole run ended, as the wrapper's exit path sees it.
#[derive(Clone, Copy, Debug, PartialEq, Eq, Structural)]
pub enum RunOutcome {
    /// A gate ended the run before the child was spawned: a deliberate
    /// no-op, not an error.
    GateStop,
    /// The child executable could not be found or started.
    SpawnFailed,
    /// A captured stream could not be decoded; the run is fatal even if
    /// the child itself exited cleanly.
    DrainFailed,
    /// The child ran to completion with the given status.
    ChildDone(ChildStatus),
}

/// The wrapper's exit code for each way a run can end: 0 for a gate stop,
/// the child's exit code verbatim when it exited normally, and a distinct
/// non-zero sentinel when the child died by signal or could not be
/// spawned.
pub open spec fn wrapper_exit_code_spec(outcome: RunOutcome) -> int {
    match outcome {
        RunOutcome::GateStop => 0,
        RunOutcome::SpawnFailed => SPAWN_FAILURE_EXIT_CODE as int,
        RunOutcome::DrainFailed => DRAIN_FAILURE_EXIT_CODE as int,
        RunOutcome::ChildDone(status) => match status {
            ChildStatus::Exited(code) => code as int,
            ChildStatus::Signaled => SIGNAL_TERMINATION_EXIT_CODE as int,
        },
    }
}

/// Computes the wrapper's final exit code. A normal child exit propagates
/// its code verbatim; signal death and spawn failure map to their
/// sentinels; a gate stop exits 0.
pub fn wrapper_exit_code(outcome: &RunOutcome) -> (code: i32)
    ensures
        code as int == wrapper_exit_code_spec(*outcome),
{
    match outcome {
        RunOutcome::GateStop => 0,
        RunOutcome::SpawnFailed => SPAWN_FAILURE_EXIT_CODE,
        RunOutcome::DrainFailed => DRAIN_FAILURE_EXIT_CODE,
        RunOutcome::ChildDone(status) => match status {
            ChildStatus::Exited(code) => *code,
            ChildStatus::Signaled => SIGNAL_TERMINATION_EXIT_CODE,
        },
    }
}

/// Tracks what the main thread still has to wait for: the child's exit
/// status, and one acknowledgement per launched drainer. A result can be
/// produced only from a synchronizer that has seen all of them.
pub struct Synchronizer {
    drains_pending: usize,
    child_status: Option<ChildStatus>,
}

impl Synchronizer {
    /// How many launched drainers have not yet been seen to finish.
    pub closed spec fn spec_drains_pending(&self) -> usize {
        self.drains_pending
    }

    /// The child's exit status, once observed.
    pub closed spec fn spec_child_status(&self) -> Option<ChildStatus> {
        self.child_status
    }

    /// The barrier is down: the child has exited and every launched
    /// drainer has finished. Only then may a result be reported.
    pub open spec fn all_complete(&self) -> bool {
        self.spec_drains_pending() == 0 && self.spec_child_status() is Some
    }

    /// A synchronizer waiting on the given number of drainers (at most
    /// two are ever launched: one per piped stream) and on the child.
    pub fn new(drain_count: usize) -> (s: Self)
        ensures
            s.spec_drains_pending() == drain_count,
            s.spec_child_status() is None,
    {
        Synchronizer { drains_pending: drain_count, child_status: None }
    }

    /// Records that one drainer has been joined: it reached end-of-file
    /// and emitted its last line. Exactly one wait is discharged.
    pub fn note_drain_done(&mut self)
        requires
            old(self).spec_drains_pending() > 0,
        ensures
            final(self).spec_drains_pending() == old(self).spec_drains_pending() - 1,
            final(self).spec_child_status() == old(self).spec_child_status(),
    {
        self.drains_pending = self.drains_pending - 1;
    }

    /// Records the child's exit status, observed exactly once. Waiting on
    /// the drainers is unaffected: reaping the child alone never lowers
    /// the barrier.
    pub fn note_child_exit(&mut self, status: ChildStatus)
        requires
            old(self).spec_child_status() is None,
        ensures
            final(self).spec_child_status() == Some(status),
            final(self).spec_drains_pending() == old(self).spec_drains_pending(),
    {
        self.child_status = Some(status);
    }

    /// Whether everything has been waited for.
    pub fn is_complete(&self) -> (b: bool)
        ensures
            b == self.all_complete(),
    {
        self.drains_pending == 0 && self.child_status.is_some()
    }

    /// How many drainers are still outstanding.
    pub fn drains_pending(&self) -> (n: usize)
        ensures
            n == self.spec_drains_pending(),
    {
        self.drains_pending
    }

    /// Whether the child's exit status has been observed.
    pub fn child_exited(&self) -> (b: bool)
        ensures
            b == (self.spec_child_status() is Some),
    {
        self.child_status.is_some()
    }

    /// Produces the one result of the run. Demands a completed
    /// synchronizer: no result exists before the child has exited and all
    /// drainer work has unconditionally finished.
    pub fn into_result(self, wall_duration_ms: u128, process_duration_ms: u128) -> (r:
        ExecutionResult)
        requires
            self.all_complete(),
        ensures
            Some(r.status) == self.spec_child_status(),
            r.wall_duration_ms == wall_duration_ms,
            r.process_duration_ms == process_duration_ms,
    {
        ExecutionResult {
            status: self.child_status.unwrap(),
            wall_duration_ms,
            process_duration_ms,
        }
    }
}

/// No-premature-completion law: a synchronizer still waiting on any
/// drainer, or on the child's exit status, is not complete, so no result
/// can be produced from it; the first-finished signal is never taken as
/// done.
pub proof fn lemma_no_premature_completion(s: Synchronizer)
    ensures
        s.spec_drains_pending() > 0 ==> !s.all_complete(),
        s.spec_child_status() is None ==> !s.all_complete(),
{
}

} // verus!
