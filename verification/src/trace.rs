//! Plain values for the process-tracing primitives: what a wait reported and
//! what is asked of the kernel in answer.

use vstd::prelude::*;
use crate::error::OsStep;

verus! {

/// Exit code reported when the debuggee was ended by a signal.
pub const EXIT_CODE_SIGNALED: i32 = 130;

/// A signal, as far as the launcher tells signals apart.
#[derive(Debug, Clone, Copy, PartialEq, Eq, Structural)]
pub enum Signal {
    /// The trace trap that stops a traced process after `exec`.
    Trap,
    /// The stop signal.
    Stop,
    /// The interrupt signal of the terminal.
    Interrupt,
    /// The kill signal.
    Kill,
    /// Any other signal, by number.
    Other(i32),
}

/// How a traced process made a new one.
#[derive(Debug, Clone, Copy, PartialEq, Eq, Structural)]
pub enum ForkKind {
    Fork,
    VFork,
    Clone,
}

/// What one wait reported.
#[derive(Debug, Clone, Copy, PartialEq, Eq, Structural)]
pub enum WaitEvent {
    /// The process ended by itself.
    Exited { pid: i32, code: i32 },
    /// The process was ended by a signal.
    Signaled { pid: i32, signal: Signal },
    /// The process was stopped by a signal.
    Stopped { pid: i32, signal: Signal },
    /// A traced process forked and is stopped at the event.
    Forked { pid: i32, kind: ForkKind },
    /// Any other report, with the process it is about if it names one.
    Other { pid: Option<i32> },
    /// There is no child left to wait for.
    NoChildren,
    /// The process waited for does not exist.
    NoSuchProcess,
    /// The wait failed in another way.
    Failed,
}

/// One request to the kernel about a traced process.
#[derive(Debug, Clone, Copy, PartialEq, Eq, Structural)]
pub enum TraceOp {
    /// Let the process run on, delivering the signal if there is one.
    Continue { pid: i32, signal: Option<Signal> },
    /// Stop tracing the process, delivering the signal if there is one.
    Detach { pid: i32, signal: Option<Signal> },
    /// Have forks, vforks and clones of the process traced too.
    TraceDescendants { pid: i32 },
}

/// A request together with what its failure means.
#[derive(Debug, Clone, Copy, PartialEq, Eq, Structural)]
pub struct TraceRequest {
    pub op: TraceOp,
    /// The failure to report when the request fails; `None` when a failure is
    /// only logged, as for a process that may have ended meanwhile.
    pub on_failure: Option<OsStep>,
}

/// The exit code that ends the wait for the debuggee, if the event ends it:
/// the debuggee's own code, 130 after a signal, 0 when it is no child any more.
pub open spec fn exit_code_of(event: WaitEvent) -> Option<i32> {
    match event {
        WaitEvent::Exited { pid, code } => Some(code),
        WaitEvent::Signaled { pid, signal } => Some(EXIT_CODE_SIGNALED),
        WaitEvent::NoChildren => Some(0i32),
        _ => None,
    }
}

/// Decides after one wait on the debuggee whether the launcher is done, and
/// with which exit code. `None` means: wait again.
pub fn wait_pid_exit(event: &WaitEvent) -> (code: Option<i32>)
    ensures
        code == exit_code_of(*event),
{
    match event {
        WaitEvent::Exited { pid: _, code } => Some(*code),
        WaitEvent::Signaled { pid: _, signal: _ } => Some(EXIT_CODE_SIGNALED),
        WaitEvent::NoChildren => Some(0),
        _ => None,
    }
}

} // verus!
