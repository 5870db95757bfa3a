//! Lifecycle bookkeeping for the companion backend process.
//!
//! The supervisor records whether a child process handle is being tracked;
//! spawning and killing the real process is the host shell's work.  `stop`
//! decides from the record alone whether a termination must be attempted.

use vstd::prelude::*;

verus! {

/// What the host shell must do after a `stop_backend` decision.
pub enum StopPlan {
    /// No child process is tracked: report `status_not_running`.
    NotRunning,
    /// A child process was tracked and is now untracked: terminate it and
    /// report `status_stopped`, or surface the termination error.
    Terminate,
}

/// Supervisor for at most one tracked child process.
pub struct ProcessSupervisor {
    pub child_tracked: bool,
}

impl ProcessSupervisor {
    /// A fresh supervisor tracks no child.
    pub fn new() -> (r: ProcessSupervisor)
        ensures
            !r.child_tracked,
    {
        ProcessSupervisor { child_tracked: false }
    }

    /// Record that the host shell spawned a child process.
    pub fn record_child(&mut self)
        ensures
            final(self).child_tracked,
    {
        self.child_tracked = true;
    }

    /// Starting the backend is a stub: nothing is launched and nothing is
    /// tracked, but the started status is reported.
    pub fn start_backend(&mut self) -> (r: String)
        ensures
            *final(self) == *old(self),
            r@ == "Backend started"@,
    {
        "Backend started".to_owned()
    }

    /// Decide how to stop the backend: if a child is tracked, it is taken
    /// out of the record (whether or not the termination that the shell
    /// then attempts succeeds) and must be terminated; otherwise nothing
    /// is to be done.
    pub fn stop_backend(&mut self) -> (r: StopPlan)
        ensures
            !final(self).child_tracked,
            r == (if old(self).child_tracked {
                StopPlan::Terminate
            } else {
                StopPlan::NotRunning
            }),
    {
        if self.child_tracked {
            self.child_tracked = false;
            StopPlan::Terminate
        } else {
            StopPlan::NotRunning
        }
    }
}

/// Status reported when a tracked child was terminated.
pub fn status_stopped() -> (r: String)
    ensures
        r@ == "Backend stopped"@,
{
    "Backend stopped".to_owned()
}

/// Status reported when no child was tracked.
pub fn status_not_running() -> (r: String)
    ensures
        r@ == "Backend was not running"@,
{
    "Backend was not running".to_owned()
}

} // verus!
