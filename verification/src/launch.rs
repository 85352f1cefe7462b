//! The process singleton guard: only one instance of the application runs per
//! user session, and later launch attempts are redirected into it.

use vstd::prelude::*;

verus! {

/// What a launch attempt carried: the command-line arguments of the new
/// invocation and its working directory. A duplicate launch forwards exactly
/// this value to the running instance.
#[derive(Clone, Debug, PartialEq, Eq)]
pub struct LaunchInvocation {
    pub args: Vec<String>,
    pub cwd: String,
}

/// Outcome of trying to take the exclusive OS-level lock that identifies the
/// application at startup.
#[derive(Clone, Copy, Debug, PartialEq, Eq, Structural)]
pub enum LockOutcome {
    /// The lock was taken: this is the first (and only) instance.
    Acquired,
    /// Another instance already holds the lock.
    HeldByOther,
    /// The IPC primitive itself could not be set up.
    PrimitiveFailed,
}

/// What the starting process must do, given the lock outcome.
#[derive(Clone, Debug, PartialEq, Eq)]
pub enum LaunchDecision {
    /// First instance: create the main window and the tray icon, then run.
    Proceed,
    /// An instance is already running: forward the invocation to it and exit
    /// with code 0, creating no window.
    ForwardAndExit(LaunchInvocation),
    /// The singleton primitive failed: fatal, no instance starts.
    AbortFatal,
}

/// How many main windows the starting process creates under a decision: only
/// a first instance that proceeds ever creates one.
pub open spec fn windows_created(d: LaunchDecision) -> nat {
    match d {
        LaunchDecision::Proceed => 1,
        LaunchDecision::ForwardAndExit(_) => 0,
        LaunchDecision::AbortFatal => 0,
    }
}

/// The guard's decision rule: proceed on a fresh lock, forward the invocation
/// unchanged when another instance holds it, abort when the primitive failed.
pub open spec fn spec_decide(outcome: LockOutcome, invocation: LaunchInvocation) -> LaunchDecision {
    match outcome {
        LockOutcome::Acquired => LaunchDecision::Proceed,
        LockOutcome::HeldByOther => LaunchDecision::ForwardAndExit(invocation),
        LockOutcome::PrimitiveFailed => LaunchDecision::AbortFatal,
    }
}

/// The guard's decision at process start. Exactly one instance proceeds; a
/// launch attempt while the lock is held forwards its own arguments and
/// working directory, unchanged, to the running instance and exits.
pub fn decide_launch(outcome: LockOutcome, invocation: LaunchInvocation) -> (d: LaunchDecision)
    ensures
        d == spec_decide(outcome, invocation),
{
    match outcome {
        LockOutcome::Acquired => LaunchDecision::Proceed,
        LockOutcome::HeldByOther => LaunchDecision::ForwardAndExit(invocation),
        LockOutcome::PrimitiveFailed => LaunchDecision::AbortFatal,
    }
}

/// Every launch attempt after the first successful one creates no second
/// window, and the invocation it forwards to the running instance carries the
/// attempt's exact arguments and working directory.
pub proof fn lemma_no_second_window(invocation: LaunchInvocation)
    ensures
        windows_created(spec_decide(LockOutcome::HeldByOther, invocation)) == 0,
        spec_decide(LockOutcome::HeldByOther, invocation)
            matches LaunchDecision::ForwardAndExit(fwd)
            && fwd.args == invocation.args
            && fwd.cwd == invocation.cwd,
{
}

} // verus!
