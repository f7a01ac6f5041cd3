//! Controlled start: bring a fresh process to a stop at its entry and
//! release it from tracing, so that a debugger can attach to it.
//!
//! The caller performs each action and reports its outcome; the functions
//! here decide the next action.

use vstd::prelude::*;
use crate::error::{DbgeeError, OsStep};
use crate::file_helper::{
    get_valid_executable_path, is_executable_stat, is_not_executable, is_path_not_found, FileStat,
    PathLookup,
};
use crate::trace::{Signal, WaitEvent};

verus! {

/// Where the handshake stands: the action in progress.
#[derive(Debug, Clone, Copy, PartialEq, Eq, Structural)]
pub enum StartState {
    /// The interrupt signal is being set to be ignored.
    Shielding,
    /// The child is being forked; it marks itself traceable and execs.
    Forking,
    /// The parent waits for the child's stop at the trap after `exec`.
    AwaitingTrap { pid: i32 },
    /// A stop signal is being sent to the child.
    Stopping { pid: i32 },
    /// The child is being released from tracing.
    Detaching { pid: i32 },
    /// The interrupt signal is being redirected to kill the child.
    Arming { pid: i32 },
    /// The child is stopped and released.
    Started { pid: i32 },
    /// The handshake failed.
    Failed,
}

/// The outcome of the action in progress.
#[derive(Debug, Clone, Copy, PartialEq, Eq, Structural)]
pub enum StartEvent {
    /// The action succeeded.
    Done,
    /// The fork succeeded and made this child.
    Forked { pid: i32 },
    /// The wait returned.
    Waited { event: WaitEvent },
    /// The action failed.
    Refused,
}

/// What the caller does next.
#[derive(Debug, Clone, PartialEq, Eq)]
pub enum StartAction {
    /// Ignore the interrupt signal, so that an interrupt from the terminal
    /// does not end the parent while the child is still its own.
    IgnoreInterrupt,
    /// Fork; in the child, mark it traceable and exec the debuggee.
    ForkAndExec,
    /// Wait for the child.
    Wait { pid: i32 },
    /// Send the stop signal to the child. `unexpected_stop` asks for a
    /// warning: the child was not stopped by the trap.
    SendStop { pid: i32, unexpected_stop: bool },
    /// Release the child from tracing, delivering no signal.
    Detach { pid: i32 },
    /// Have an interrupt kill the child: a stopped process does not react
    /// to a polite signal.
    KillOnInterrupt { pid: i32 },
    /// The handshake is complete; the child is the debuggee.
    Return { pid: i32 },
    /// Give up with this failure.
    Abort { error: DbgeeError },
}

/// The first state and action of the handshake.
pub open spec fn start_of() -> (StartState, StartAction) {
    (StartState::Shielding, StartAction::IgnoreInterrupt)
}

/// What a wait for the trap leads to.
pub open spec fn after_wait(pid: i32, event: WaitEvent) -> (StartState, StartAction) {
    match event {
        WaitEvent::Stopped { pid: stopped, signal } => (
            StartState::Stopping { pid },
            StartAction::SendStop { pid, unexpected_stop: signal != Signal::Trap },
        ),
        WaitEvent::Forked { pid: stopped, kind } => (
            StartState::Stopping { pid },
            StartAction::SendStop { pid, unexpected_stop: true },
        ),
        WaitEvent::Other { pid: stopped } => (
            StartState::Stopping { pid },
            StartAction::SendStop { pid, unexpected_stop: true },
        ),
        WaitEvent::Exited { pid: gone, code } => (
            StartState::Failed,
            StartAction::Abort { error: DbgeeError::DebuggeeGone },
        ),
        WaitEvent::Signaled { pid: gone, signal } => (
            StartState::Failed,
            StartAction::Abort { error: DbgeeError::DebuggeeGone },
        ),
        _ => (
            StartState::Failed,
            StartAction::Abort { error: DbgeeError::Os { step: OsStep::WaitForTrap } },
        ),
    }
}

/// The abort for a failure at `step`.
pub open spec fn abort_at(step: OsStep) -> (StartState, StartAction) {
    (StartState::Failed, StartAction::Abort { error: DbgeeError::Os { step } })
}

/// The abort for an outcome that the action in progress cannot have.
pub open spec fn abort_out_of_turn() -> (StartState, StartAction) {
    (StartState::Failed, StartAction::Abort { error: DbgeeError::UnexpectedEvent })
}

/// The next state and action, from the state and the outcome of its action.
pub open spec fn next_of(state: StartState, event: StartEvent) -> (StartState, StartAction) {
    match state {
        StartState::Shielding => match event {
            StartEvent::Done => (StartState::Forking, StartAction::ForkAndExec),
            StartEvent::Refused => abort_at(OsStep::IgnoreInterrupt),
            _ => abort_out_of_turn(),
        },
        StartState::Forking => match event {
            StartEvent::Forked { pid } => (
                StartState::AwaitingTrap { pid },
                StartAction::Wait { pid },
            ),
            StartEvent::Refused => abort_at(OsStep::Fork),
            _ => abort_out_of_turn(),
        },
        StartState::AwaitingTrap { pid } => match event {
            StartEvent::Waited { event } => after_wait(pid, event),
            StartEvent::Refused => abort_at(OsStep::WaitForTrap),
            _ => abort_out_of_turn(),
        },
        StartState::Stopping { pid } => match event {
            StartEvent::Done => (StartState::Detaching { pid }, StartAction::Detach { pid }),
            StartEvent::Refused => abort_at(OsStep::SendStop),
            _ => abort_out_of_turn(),
        },
        StartState::Detaching { pid } => match event {
            StartEvent::Done => (StartState::Arming { pid }, StartAction::KillOnInterrupt { pid }),
            StartEvent::Refused => abort_at(OsStep::Detach),
            _ => abort_out_of_turn(),
        },
        StartState::Arming { pid } => match event {
            StartEvent::Done => (StartState::Started { pid }, StartAction::Return { pid }),
            StartEvent::Refused => abort_at(OsStep::InstallInterruptHandler),
            _ => abort_out_of_turn(),
        },
        StartState::Started { pid } => abort_out_of_turn(),
        StartState::Failed => abort_out_of_turn(),
    }
}

/// Begins the handshake.
pub fn run_and_stop_dbgee() -> (first: (StartState, StartAction))
    ensures
        first == start_of(),
{
    (StartState::Shielding, StartAction::IgnoreInterrupt)
}

/// Begins the controlled start of a program, if it is one: a program that
/// does not exist or is no executable file ends the start before anything
/// is done, so that no process is forked and no signal is sent.
pub fn begin_controlled_start(program: &PathLookup, stat: Option<FileStat>) -> (first: Result<
    (StartState, StartAction),
    DbgeeError,
>)
    ensures
        match program.canonical {
            Some(c) => if is_executable_stat(stat) {
                first == Ok::<(StartState, StartAction), DbgeeError>(start_of())
            } else {
                first matches Err(e) && is_not_executable(e, "the debuggee"@, c@)
            },
            None => first matches Err(e) && is_path_not_found(
                e,
                "the debuggee"@,
                program.given@,
            ),
        },
{
    let _ = get_valid_executable_path(program, "the debuggee", stat)?;
    Ok(run_and_stop_dbgee())
}

fn abort(step: OsStep) -> (out: (StartState, StartAction))
    ensures
        out == abort_at(step),
{
    (StartState::Failed, StartAction::Abort { error: DbgeeError::Os { step } })
}

fn out_of_turn() -> (out: (StartState, StartAction))
    ensures
        out == abort_out_of_turn(),
{
    (StartState::Failed, StartAction::Abort { error: DbgeeError::UnexpectedEvent })
}

/// One step of the handshake: fork with tracing, wait for the trap, send a
/// stop signal, detach, and redirect the interrupt to kill the child. An
/// unexpected stop is a warning; a child that has ended, and any failed
/// action, ends the handshake.
pub fn fork_exec_stop(state: StartState, event: &StartEvent) -> (next: (StartState, StartAction))
    ensures
        next == next_of(state, *event),
{
    match state {
        StartState::Shielding => match event {
            StartEvent::Done => (StartState::Forking, StartAction::ForkAndExec),
            StartEvent::Refused => abort(OsStep::IgnoreInterrupt),
            _ => out_of_turn(),
        },
        StartState::Forking => match event {
            StartEvent::Forked { pid } => (
                StartState::AwaitingTrap { pid: *pid },
                StartAction::Wait { pid: *pid },
            ),
            StartEvent::Refused => abort(OsStep::Fork),
            _ => out_of_turn(),
        },
        StartState::AwaitingTrap { pid } => match event {
            StartEvent::Waited { event } => match event {
                WaitEvent::Stopped { pid: _, signal } => {
                    let unexpected_stop = match signal {
                        Signal::Trap => false,
                        _ => true,
                    };
                    (StartState::Stopping { pid }, StartAction::SendStop { pid, unexpected_stop })
                },
                WaitEvent::Forked { .. } => (
                    StartState::Stopping { pid },
                    StartAction::SendStop { pid, unexpected_stop: true },
                ),
                WaitEvent::Other { .. } => (
                    StartState::Stopping { pid },
                    StartAction::SendStop { pid, unexpected_stop: true },
                ),
                WaitEvent::Exited { .. } => (
                    StartState::Failed,
                    StartAction::Abort { error: DbgeeError::DebuggeeGone },
                ),
                WaitEvent::Signaled { .. } => (
                    StartState::Failed,
                    StartAction::Abort { error: DbgeeError::DebuggeeGone },
                ),
                _ => abort(OsStep::WaitForTrap),
            },
            StartEvent::Refused => abort(OsStep::WaitForTrap),
            _ => out_of_turn(),
        },
        StartState::Stopping { pid } => match event {
            StartEvent::Done => (StartState::Detaching { pid }, StartAction::Detach { pid }),
            StartEvent::Refused => abort(OsStep::SendStop),
            _ => out_of_turn(),
        },
        StartState::Detaching { pid } => match event {
            StartEvent::Done => (StartState::Arming { pid }, StartAction::KillOnInterrupt { pid }),
            StartEvent::Refused => abort(OsStep::Detach),
            _ => out_of_turn(),
        },
        StartState::Arming { pid } => match event {
            StartEvent::Done => (StartState::Started { pid }, StartAction::Return { pid }),
            StartEvent::Refused => abort(OsStep::InstallInterruptHandler),
            _ => out_of_turn(),
        },
        StartState::Started { .. } => out_of_turn(),
        StartState::Failed => out_of_turn(),
    }
}

/// The state after the outcomes `events`, reported one after the other from
/// the beginning of the handshake.
pub open spec fn state_after(events: Seq<StartEvent>) -> StartState
    decreases events.len(),
{
    if events.len() == 0 {
        start_of().0
    } else {
        next_of(state_after(events.drop_last()), events.last()).0
    }
}

/// The actions that the caller was given up to and including the answer to
/// the last of `events`.
pub open spec fn actions_after(events: Seq<StartEvent>) -> Seq<StartAction>
    decreases events.len(),
{
    if events.len() == 0 {
        seq![start_of().1]
    } else {
        actions_after(events.drop_last()).push(
            next_of(state_after(events.drop_last()), events.last()).1,
        )
    }
}

/// How many actions have succeeded when the handshake is in `state`.
pub open spec fn progress(state: StartState) -> int {
    match state {
        StartState::Shielding => 0,
        StartState::Forking => 1,
        StartState::AwaitingTrap { pid } => 2,
        StartState::Stopping { pid } => 3,
        StartState::Detaching { pid } => 4,
        StartState::Arming { pid } => 5,
        StartState::Started { pid } => 6,
        StartState::Failed => -1,
    }
}

/// Every outcome either advances the handshake by one action or fails it,
/// and a failed handshake stays failed.
pub proof fn lemma_progress(events: Seq<StartEvent>)
    ensures
        state_after(events) is Failed || progress(state_after(events)) == events.len(),
    decreases events.len(),
{
    if events.len() > 0 {
        lemma_progress(events.drop_last());
    }
}

/// Whoever is handed a process by the controlled start gets one that was
/// waited for, then sent a stop signal, then released from tracing, in this
/// order and each with success: the handshake reaches `Started` only by the
/// one run of six outcomes, and the actions of that run are the seven below.
pub proof fn lemma_started_was_stopped_then_released(events: Seq<StartEvent>, pid: i32)
    requires
        state_after(events) == (StartState::Started { pid }),
    ensures
        events.len() == 6,
        events[0] == StartEvent::Done,
        events[1] == (StartEvent::Forked { pid }),
        events[2] is Waited,
        events[3] == StartEvent::Done,
        events[4] == StartEvent::Done,
        events[5] == StartEvent::Done,
        actions_after(events).len() == 7,
        actions_after(events)[0] == StartAction::IgnoreInterrupt,
        actions_after(events)[1] == StartAction::ForkAndExec,
        actions_after(events)[2] == (StartAction::Wait { pid }),
        actions_after(events)[3] is SendStop,
        actions_after(events)[3]->SendStop_pid == pid,
        actions_after(events)[4] == (StartAction::Detach { pid }),
        actions_after(events)[5] == (StartAction::KillOnInterrupt { pid }),
        actions_after(events)[6] == (StartAction::Return { pid }),
{
    lemma_progress(events);
    let e5 = events.drop_last();
    let e4 = e5.drop_last();
    let e3 = e4.drop_last();
    let e2 = e3.drop_last();
    let e1 = e2.drop_last();
    let e0 = e1.drop_last();
    lemma_progress(e5);
    lemma_progress(e4);
    lemma_progress(e3);
    lemma_progress(e2);
    lemma_progress(e1);
    lemma_progress(e0);
    assert(e0 =~= Seq::<StartEvent>::empty());
    assert(state_after(e0) == StartState::Shielding);
    assert(actions_after(e0) =~= seq![StartAction::IgnoreInterrupt]);
    assert(e1.last() == events[0]);
    assert(e2.last() == events[1]);
    assert(e3.last() == events[2]);
    assert(e4.last() == events[3]);
    assert(e5.last() == events[4]);
    assert(events.last() == events[5]);
    assert(actions_after(e1).len() == 2);
    assert(actions_after(e2).len() == 3);
    assert(actions_after(e3).len() == 4);
    assert(actions_after(e4).len() == 5);
    assert(actions_after(e5).len() == 6);
    assert(actions_after(events).len() == 7);
}

} // verus!
