//! Hook mode: trace a command and its descendants until one of them meets a
//! condition, then hand that one to the debugger.
//!
//! The caller waits and issues the requests; the functions here decide, for
//! each thing a wait reports, what is asked of the kernel next.

use vstd::prelude::*;
use vstd::string::*;
use crate::dwarf::{any_in_dwarf_decl_file, any_unit_matches, CompilationUnit, SourceFilter};
use crate::error::{DbgeeError, OsStep};
use crate::file_helper::PathLookup;
use crate::path::{is_same_path, same_path};
use crate::text::texts;
use crate::trace::{ForkKind, Signal, TraceOp, TraceRequest, WaitEvent};

verus! {

/// The hook conditions as the user gave them.
#[derive(Debug, Clone, PartialEq, Eq)]
pub struct HookOpts {
    /// Attach to a descendant whose executable is this file.
    pub hook_executable: Option<String>,
    /// Attach to a descendant built from any of these source files.
    pub hook_source: Option<Vec<String>>,
    /// Attach to a descendant built from any file under this directory.
    pub hook_source_dir: Option<String>,
}

/// Whether the user gave any hook condition.
pub fn is_any_hook_condition_set(hook_opts: &HookOpts) -> (set: bool)
    ensures
        set == (hook_opts.hook_executable.is_some() || hook_opts.hook_source.is_some()
            || hook_opts.hook_source_dir.is_some()),
{
    hook_opts.hook_executable.is_some() || hook_opts.hook_source.is_some()
        || hook_opts.hook_source_dir.is_some()
}

/// A predicate on a descendant process.
#[derive(Debug, Clone, PartialEq, Eq)]
pub enum HookCondition {
    /// The descendant's executable is this file.
    Executable { path: String },
    /// The descendant's debug information names a source file that the
    /// filter accepts.
    Source { wanted: SourceFilter },
}

impl HookCondition {
    /// Whether the condition holds of a process with the given executable
    /// and debug information.
    pub open spec fn holds_of(self, exe_path: Seq<char>, units: Seq<CompilationUnit>) -> bool {
        match self {
            HookCondition::Executable { path } => is_same_path(path@, exe_path),
            HookCondition::Source { wanted } => any_unit_matches(units, wanted),
        }
    }

    /// Whether the condition can only be decided from debug information.
    pub fn needs_debug_info(&self) -> (needs: bool)
        ensures
            needs == (self is Source),
    {
        match self {
            HookCondition::Executable { .. } => false,
            HookCondition::Source { .. } => true,
        }
    }

    /// Tests the condition against a stopped descendant.
    pub fn hooks(&self, exe_path: &str, units: &Vec<CompilationUnit>) -> (hooked: bool)
        ensures
            hooked == self.holds_of(exe_path@, units@),
    {
        match self {
            HookCondition::Executable { path } => same_path(path.as_str(), exe_path),
            HookCondition::Source { wanted } => any_in_dwarf_decl_file(units, wanted),
        }
    }
}

/// Some condition holds of the process.
pub open spec fn any_condition_holds(
    conditions: Seq<HookCondition>,
    exe_path: Seq<char>,
    units: Seq<CompilationUnit>,
) -> bool {
    exists|i: int|
        0 <= i < conditions.len() && (#[trigger] conditions[i]).holds_of(exe_path, units)
}

/// Whether any of the conditions holds of a stopped descendant.
pub fn any_condition_hooks(
    conditions: &Vec<HookCondition>,
    exe_path: &str,
    units: &Vec<CompilationUnit>,
) -> (hooked: bool)
    ensures
        hooked == any_condition_holds(conditions@, exe_path@, units@),
{
    let mut i: usize = 0;
    while i < conditions.len()
        invariant
            i <= conditions.len(),
            forall|k: int| 0 <= k < i ==> !(#[trigger] conditions[k]).holds_of(exe_path@, units@),
        decreases conditions.len() - i,
    {
        if conditions[i].hooks(exe_path, units) {
            return true;
        }
        i = i + 1;
    }
    false
}

/// The failure for a hook path that does not exist.
pub open spec fn hook_path_missing(name: Seq<char>, given: Seq<char>, e: DbgeeError) -> bool {
    e matches DbgeeError::PathNotFound { name: n, path: p } && n@ == name && p@ == given
}

/// The condition on the executable, from the path the user gave.
pub fn build_hook_executable_condition(path: &PathLookup) -> (built: Result<
    HookCondition,
    DbgeeError,
>)
    ensures
        match path.canonical {
            Some(c) => built matches Ok(HookCondition::Executable { path: p }) && p@ == c@,
            None => built matches Err(e) && hook_path_missing("hook_executable"@, path.given@, e),
        },
{
    match &path.canonical {
        Some(c) => Ok(HookCondition::Executable { path: c.clone() }),
        None => Err(
            DbgeeError::PathNotFound {
                name: String::from_str("hook_executable"),
                path: path.given.clone(),
            },
        ),
    }
}

/// The condition on a source directory, from the path the user gave.
pub fn build_hook_source_dir_condition(source_dir: &PathLookup) -> (built: Result<
    HookCondition,
    DbgeeError,
>)
    ensures
        match source_dir.canonical {
            Some(c) => built matches Ok(HookCondition::Source { wanted: SourceFilter::Under(d) })
                && d@ == c@,
            None => built matches Err(e) && hook_path_missing(
                "hook_source_dir"@,
                source_dir.given@,
                e,
            ),
        },
{
    match &source_dir.canonical {
        Some(c) => Ok(HookCondition::Source { wanted: SourceFilter::Under(c.clone()) }),
        None => Err(
            DbgeeError::PathNotFound {
                name: String::from_str("hook_source_dir"),
                path: source_dir.given.clone(),
            },
        ),
    }
}

/// Index of the first path without a canonical form, or the number of paths.
pub open spec fn first_missing(paths: Seq<PathLookup>) -> int
    decreases paths.len(),
{
    if paths.len() == 0 {
        0
    } else if paths[0].canonical.is_none() {
        0
    } else {
        1 + first_missing(paths.skip(1))
    }
}

/// The canonical forms of the paths, where all have one.
pub open spec fn canonical_texts(paths: Seq<PathLookup>) -> Seq<Seq<char>> {
    Seq::new(paths.len(), |i: int| paths[i].canonical->Some_0@)
}

/// `first_missing` is the least index without a canonical form.
pub proof fn lemma_first_missing(paths: Seq<PathLookup>)
    ensures
        0 <= first_missing(paths) <= paths.len(),
        forall|i: int| 0 <= i < first_missing(paths) ==> (#[trigger] paths[i]).canonical.is_some(),
        first_missing(paths) < paths.len() ==> paths[first_missing(paths)].canonical.is_none(),
    decreases paths.len(),
{
    if paths.len() > 0 && paths[0].canonical.is_some() {
        let rest = paths.skip(1);
        lemma_first_missing(rest);
        assert forall|i: int| 0 <= i < first_missing(paths) implies (#[trigger] paths[i])
            .canonical.is_some() by {
            if i > 0 {
                assert(paths[i] == rest[i - 1]);
            }
        }
        if first_missing(paths) < paths.len() {
            assert(paths[first_missing(paths)] == rest[first_missing(rest)]);
        }
    }
}

/// The condition on source files, from the paths the user gave. Fails on the
/// first path that does not exist.
pub fn build_hook_source_condition(source_paths: &Vec<PathLookup>) -> (built: Result<
    HookCondition,
    DbgeeError,
>)
    ensures
        first_missing(source_paths@) == source_paths.len() ==> (built matches Ok(
            HookCondition::Source { wanted: SourceFilter::AnyOf(paths) },
        ) && texts(paths@) == canonical_texts(source_paths@)),
        first_missing(source_paths@) < source_paths.len() ==> (built matches Err(e)
            && hook_path_missing(
            "hook_source"@,
            source_paths[first_missing(source_paths@)].given@,
            e,
        )),
{
    proof {
        lemma_first_missing(source_paths@);
    }
    let mut paths: Vec<String> = Vec::new();
    let mut i: usize = 0;
    while i < source_paths.len()
        invariant
            i <= source_paths.len(),
            i <= first_missing(source_paths@),
            0 <= first_missing(source_paths@) <= source_paths.len(),
            forall|k: int|
                0 <= k < first_missing(source_paths@) ==> (#[trigger] source_paths[k])
                    .canonical.is_some(),
            first_missing(source_paths@) < source_paths.len() ==> source_paths[first_missing(
                source_paths@,
            )].canonical.is_none(),
            paths.len() == i,
            forall|k: int| 0 <= k < i ==> (#[trigger] paths[k])@ == source_paths[k].canonical->Some_0@,
        decreases source_paths.len() - i,
    {
        match &source_paths[i].canonical {
            Some(c) => {
                paths.push(c.clone());
            },
            None => {
                return Err(
                    DbgeeError::PathNotFound {
                        name: String::from_str("hook_source"),
                        path: source_paths[i].given.clone(),
                    },
                );
            },
        }
        i = i + 1;
    }
    assert(texts(paths@) =~= canonical_texts(source_paths@));
    Ok(HookCondition::Source { wanted: SourceFilter::AnyOf(paths) })
}

/// 1 for a condition that was given, 0 for one that was not.
pub open spec fn given<T>(value: Option<T>) -> int {
    if value.is_some() {
        1
    } else {
        0
    }
}

/// The first hook path that does not exist, in the order executable,
/// source files, source directory: the name of its option and the path as
/// the user gave it.
pub open spec fn first_missing_hook_path(
    hook_executable: Option<PathLookup>,
    hook_source: Option<Vec<PathLookup>>,
    hook_source_dir: Option<PathLookup>,
) -> Option<(Seq<char>, Seq<char>)> {
    if hook_executable.is_some() && hook_executable->Some_0.canonical.is_none() {
        Some(("hook_executable"@, hook_executable->Some_0.given@))
    } else if hook_source.is_some() && first_missing(hook_source->Some_0@)
        < hook_source->Some_0@.len() {
        Some(
            (
                "hook_source"@,
                hook_source->Some_0@[first_missing(hook_source->Some_0@)].given@,
            ),
        )
    } else if hook_source_dir.is_some() && hook_source_dir->Some_0.canonical.is_none() {
        Some(("hook_source_dir"@, hook_source_dir->Some_0.given@))
    } else {
        None
    }
}

/// The conditions are those that were given, in the order executable,
/// source files, source directory, each over the canonical paths.
pub open spec fn conditions_are(
    conditions: Seq<HookCondition>,
    hook_executable: Option<PathLookup>,
    hook_source: Option<Vec<PathLookup>>,
    hook_source_dir: Option<PathLookup>,
) -> bool {
    &&& conditions.len() == given(hook_executable) + given(hook_source) + given(hook_source_dir)
    &&& hook_executable.is_some() ==> (conditions[0] matches HookCondition::Executable { path }
        && Some(path@) == crate::attach::optional_text(hook_executable->Some_0.canonical))
    &&& hook_source.is_some() ==> (conditions[given(hook_executable)] matches HookCondition::Source {
        wanted: SourceFilter::AnyOf(paths),
    } && texts(paths@) == canonical_texts(hook_source->Some_0@))
    &&& hook_source_dir.is_some() ==> (conditions[given(hook_executable) + given(hook_source)] matches HookCondition::Source {
        wanted: SourceFilter::Under(dir),
    } && Some(dir@) == crate::attach::optional_text(hook_source_dir->Some_0.canonical))
}

/// Builds the hook conditions from what the user gave. Fails on the first
/// path that does not exist.
pub fn build_hook_conditions(
    hook_executable: &Option<PathLookup>,
    hook_source: &Option<Vec<PathLookup>>,
    hook_source_dir: &Option<PathLookup>,
) -> (built: Result<Vec<HookCondition>, DbgeeError>)
    ensures
        match first_missing_hook_path(*hook_executable, *hook_source, *hook_source_dir) {
            Some((name, path)) => built matches Err(e) && hook_path_missing(name, path, e),
            None => built matches Ok(conditions) && conditions_are(
                conditions@,
                *hook_executable,
                *hook_source,
                *hook_source_dir,
            ),
        },
{
    let mut conditions: Vec<HookCondition> = Vec::new();
    if let Some(path) = hook_executable {
        let condition = build_hook_executable_condition(path)?;
        conditions.push(condition);
    }
    if let Some(source_paths) = hook_source {
        proof {
            lemma_first_missing(source_paths@);
        }
        let condition = build_hook_source_condition(source_paths)?;
        conditions.push(condition);
    }
    if let Some(source_dir) = hook_source_dir {
        let condition = build_hook_source_dir_condition(source_dir)?;
        conditions.push(condition);
    }
    Ok(conditions)
}

/// What hook mode starts with: the command to trace and the conditions
/// that pick the descendant for the debugger.
#[derive(Debug, Clone, PartialEq, Eq)]
pub struct HookPlan {
    /// The command to start with tracing on, and its arguments.
    pub argv: Vec<String>,
    pub conditions: Vec<HookCondition>,
}

/// Prepares hook mode for a command. The caller starts the command traced
/// and asks [`trace_step`] about every wait; a hooked process is detached
/// with a stop signal and handed to the debugger, after which
/// [`wait_pid_exit_and_detach_other`] decides about every wait until the
/// command has ended.
pub fn run_hook(
    command: &str,
    command_args: &Vec<String>,
    hook_executable: &Option<PathLookup>,
    hook_source: &Option<Vec<PathLookup>>,
    hook_source_dir: &Option<PathLookup>,
) -> (plan: Result<HookPlan, DbgeeError>)
    ensures
        match first_missing_hook_path(*hook_executable, *hook_source, *hook_source_dir) {
            Some((name, path)) => plan matches Err(e) && hook_path_missing(name, path, e),
            None => plan matches Ok(p) && texts(p.argv@) == seq![command@] + texts(command_args@)
                && conditions_are(p.conditions@, *hook_executable, *hook_source, *hook_source_dir),
        },
{
    let conditions = build_hook_conditions(hook_executable, hook_source, hook_source_dir)?;
    let mut argv: Vec<String> = Vec::new();
    crate::text::push_text(&mut argv, command);
    crate::text::extend_texts(&mut argv, command_args);
    assert(texts(argv@) =~= seq![command@] + texts(command_args@));
    Ok(HookPlan { argv, conditions })
}

/// What the trace loop does about one wait.
#[derive(Debug, Clone, PartialEq, Eq)]
pub enum TraceStep {
    /// A process is stopped at its entry and is to be tested against the
    /// conditions; its descendants must be traced first where it is the root.
    Candidate { pid: i32, trace_descendants: bool },
    /// A traced process forked: read the new process from the event and let
    /// both run on.
    Forked { parent: i32 },
    /// Issue the request, if there is one, and wait again.
    Resume { request: Option<TraceRequest> },
    /// No child is left and none met a condition.
    AllExited,
    /// The wait failed.
    Failed { error: DbgeeError },
}

/// The trace loop's answer to each report of a wait.
pub open spec fn trace_step_of(root: i32, event: WaitEvent) -> TraceStep {
    match event {
        WaitEvent::NoChildren => TraceStep::AllExited,
        WaitEvent::NoSuchProcess => TraceStep::Failed {
            error: DbgeeError::Os { step: OsStep::WaitForTrap },
        },
        WaitEvent::Failed => TraceStep::Failed {
            error: DbgeeError::Os { step: OsStep::WaitForTrap },
        },
        WaitEvent::Stopped { pid, signal } => if signal == Signal::Trap {
            TraceStep::Candidate { pid, trace_descendants: pid == root }
        } else {
            TraceStep::Resume {
                request: Some(
                    TraceRequest {
                        op: TraceOp::Continue { pid, signal: Some(signal) },
                        on_failure: None,
                    },
                ),
            }
        },
        WaitEvent::Forked { pid, kind } => TraceStep::Forked { parent: pid },
        WaitEvent::Exited { pid, code } => TraceStep::Resume { request: None },
        WaitEvent::Signaled { pid, signal } => TraceStep::Resume { request: None },
        WaitEvent::Other { pid } => match pid {
            Some(p) => TraceStep::Resume {
                request: Some(
                    TraceRequest {
                        op: TraceOp::Continue { pid: p, signal: None },
                        on_failure: None,
                    },
                ),
            },
            None => TraceStep::Resume { request: None },
        },
    }
}

/// Decides what the trace loop does about one wait: a trap after `exec`
/// makes a candidate, a fork is followed, any other stop is passed on with
/// its signal, an exit is noted, and the loop ends when no child is left.
pub fn trace_step(root: i32, event: &WaitEvent) -> (step: TraceStep)
    ensures
        step == trace_step_of(root, *event),
{
    match event {
        WaitEvent::NoChildren => TraceStep::AllExited,
        WaitEvent::NoSuchProcess => TraceStep::Failed {
            error: DbgeeError::Os { step: OsStep::WaitForTrap },
        },
        WaitEvent::Failed => TraceStep::Failed {
            error: DbgeeError::Os { step: OsStep::WaitForTrap },
        },
        WaitEvent::Stopped { pid, signal } => {
            match signal {
                Signal::Trap => TraceStep::Candidate { pid: *pid, trace_descendants: *pid == root },
                _ => TraceStep::Resume {
                    request: Some(
                        TraceRequest {
                            op: TraceOp::Continue { pid: *pid, signal: Some(*signal) },
                            on_failure: None,
                        },
                    ),
                },
            }
        },
        WaitEvent::Forked { pid, kind: _ } => TraceStep::Forked { parent: *pid },
        WaitEvent::Exited { .. } => TraceStep::Resume { request: None },
        WaitEvent::Signaled { .. } => TraceStep::Resume { request: None },
        WaitEvent::Other { pid } => match pid {
            Some(p) => TraceStep::Resume {
                request: Some(
                    TraceRequest {
                        op: TraceOp::Continue { pid: *p, signal: None },
                        on_failure: None,
                    },
                ),
            },
            None => TraceStep::Resume { request: None },
        },
    }
}

/// The request that makes the descendants of the root traced as well.
pub open spec fn trace_descendants_request(pid: i32) -> TraceRequest {
    TraceRequest { op: TraceOp::TraceDescendants { pid }, on_failure: Some(OsStep::SetTraceOptions) }
}

/// The request that is made of the root command before it is tested, so
/// that every process it makes is stopped at its entry as well.
pub fn descendants_request(pid: i32) -> (request: TraceRequest)
    ensures
        request == trace_descendants_request(pid),
{
    TraceRequest { op: TraceOp::TraceDescendants { pid }, on_failure: Some(OsStep::SetTraceOptions) }
}

/// What is asked about a candidate once the conditions are decided: a hooked
/// one is detached with a stop signal, so that it stays stopped for the
/// debugger; any other runs on.
pub open spec fn candidate_request_of(pid: i32, hooked: bool) -> TraceRequest {
    if hooked {
        TraceRequest {
            op: TraceOp::Detach { pid, signal: Some(Signal::Stop) },
            on_failure: Some(OsStep::Detach),
        }
    } else {
        TraceRequest {
            op: TraceOp::Continue { pid, signal: None },
            on_failure: Some(OsStep::Continue),
        }
    }
}

/// The request that follows the test of a candidate.
pub fn candidate_request(pid: i32, hooked: bool) -> (request: TraceRequest)
    ensures
        request == candidate_request_of(pid, hooked),
{
    if hooked {
        TraceRequest {
            op: TraceOp::Detach { pid, signal: Some(Signal::Stop) },
            on_failure: Some(OsStep::Detach),
        }
    } else {
        TraceRequest {
            op: TraceOp::Continue { pid, signal: None },
            on_failure: Some(OsStep::Continue),
        }
    }
}

/// The process number that a fork event reports, cut to the width of a
/// process number.
pub open spec fn forked_pid(raw: i64) -> i32 {
    raw as i32
}

/// The two requests after a fork, for the parent and then the new process:
/// both run on while the trace loop looks for a candidate, both are let go
/// once a process was handed over.
pub open spec fn fork_requests_of(parent: i32, raw_child: i64, detach: bool) -> Seq<TraceRequest> {
    if detach {
        seq![
            TraceRequest { op: TraceOp::Detach { pid: parent, signal: None }, on_failure: None },
            TraceRequest {
                op: TraceOp::Detach { pid: forked_pid(raw_child), signal: None },
                on_failure: None,
            },
        ]
    } else {
        seq![
            TraceRequest { op: TraceOp::Continue { pid: parent, signal: None }, on_failure: None },
            TraceRequest {
                op: TraceOp::Continue { pid: forked_pid(raw_child), signal: None },
                on_failure: None,
            },
        ]
    }
}

/// The requests after a fork. `raw_child` is what the fork event holds, or
/// `None` if it could not be read, which is a failure.
pub fn fork_requests(parent: i32, raw_child: Option<i64>, detach: bool) -> (requests: Result<
    Vec<TraceRequest>,
    DbgeeError,
>)
    ensures
        match raw_child {
            Some(raw) => requests matches Ok(v) && v@ == fork_requests_of(parent, raw, detach),
            None => requests == Err::<Vec<TraceRequest>, DbgeeError>(
                DbgeeError::Os { step: OsStep::ReadForkEvent },
            ),
        },
{
    let raw = match raw_child {
        Some(raw) => raw,
        None => {
            return Err(DbgeeError::Os { step: OsStep::ReadForkEvent });
        },
    };
    let child: i32 = #[verifier::truncate]
    (raw as i32);
    let mut requests: Vec<TraceRequest> = Vec::new();
    if detach {
        requests.push(
            TraceRequest { op: TraceOp::Detach { pid: parent, signal: None }, on_failure: None },
        );
        requests.push(
            TraceRequest { op: TraceOp::Detach { pid: child, signal: None }, on_failure: None },
        );
    } else {
        requests.push(
            TraceRequest { op: TraceOp::Continue { pid: parent, signal: None }, on_failure: None },
        );
        requests.push(
            TraceRequest { op: TraceOp::Continue { pid: child, signal: None }, on_failure: None },
        );
    }
    assert(requests@ =~= fork_requests_of(parent, raw, detach));
    Ok(requests)
}

/// One thing that is done about a hooked process, or after it.
#[derive(Debug, Clone, PartialEq, Eq)]
pub enum HookAction {
    /// Make this request of the kernel.
    Release { request: TraceRequest },
    /// Build the adapter for the executable of the process and attach it
    /// to the process; the adapter's `run` is not called, since the
    /// process runs already.
    Attach { pid: i32, debuggee: String },
    /// Hand the process over as the adapter's `handoff` says.
    HandOver { pid: i32 },
    /// Wait until the root command has ended, letting go of every other
    /// process that is met.
    Reap { root: i32 },
}

/// What is done about a process that met a hook condition, in order.
pub open spec fn is_hooked_plan(
    actions: Seq<HookAction>,
    root: i32,
    pid: i32,
    exe_path: Seq<char>,
) -> bool {
    &&& actions.len() == 4
    &&& actions[0] == (HookAction::Release { request: candidate_request_of(pid, true) })
    &&& actions[1] matches HookAction::Attach { pid: attached, debuggee } && attached == pid
        && debuggee@ == exe_path
    &&& actions[2] == (HookAction::HandOver { pid })
    &&& actions[3] == (HookAction::Reap { root })
}

/// What is done about a process that met a hook condition: it is detached
/// with a stop signal, so that it stays stopped and is traced no more; the
/// adapter for its executable is built and attached to it; it is handed
/// over; and the root command is reaped, processes that stop later being
/// let go without a test against the conditions.
pub fn hooked_actions(root: i32, pid: i32, exe_path: &str) -> (actions: Vec<HookAction>)
    ensures
        is_hooked_plan(actions@, root, pid, exe_path@),
{
    let mut actions: Vec<HookAction> = Vec::new();
    actions.push(HookAction::Release { request: candidate_request(pid, true) });
    actions.push(HookAction::Attach { pid, debuggee: String::from_str(exe_path) });
    actions.push(HookAction::HandOver { pid });
    actions.push(HookAction::Reap { root });
    actions
}

/// What the second loop does about one wait, after a process was handed to
/// the debugger.
#[derive(Debug, Clone, PartialEq, Eq)]
pub enum ReapStep {
    /// The root command has ended.
    Done,
    /// A traced process forked: read the new process from the event and let
    /// both go.
    Forked { parent: i32 },
    /// Issue the request, if there is one, and wait again.
    Release { request: Option<TraceRequest> },
    /// The wait failed.
    Failed { error: DbgeeError },
}

/// The second loop's answer to each report of a wait.
pub open spec fn reap_step_of(root: i32, event: WaitEvent) -> ReapStep {
    match event {
        WaitEvent::NoChildren => ReapStep::Done,
        WaitEvent::NoSuchProcess => ReapStep::Done,
        WaitEvent::Failed => ReapStep::Failed {
            error: DbgeeError::Os { step: OsStep::WaitForTrap },
        },
        WaitEvent::Exited { pid, code } => if pid == root {
            ReapStep::Done
        } else {
            ReapStep::Release { request: None }
        },
        WaitEvent::Forked { pid, kind } => if kind == ForkKind::VFork {
            ReapStep::Release {
                request: Some(
                    TraceRequest { op: TraceOp::Detach { pid, signal: None }, on_failure: None },
                ),
            }
        } else {
            ReapStep::Forked { parent: pid }
        },
        WaitEvent::Stopped { pid, signal } => ReapStep::Release {
            request: Some(
                TraceRequest {
                    op: TraceOp::Detach { pid, signal: Some(signal) },
                    on_failure: None,
                },
            ),
        },
        WaitEvent::Signaled { pid, signal } => ReapStep::Release {
            request: Some(
                TraceRequest { op: TraceOp::Detach { pid, signal: None }, on_failure: None },
            ),
        },
        WaitEvent::Other { pid } => match pid {
            Some(p) => ReapStep::Release {
                request: Some(
                    TraceRequest {
                        op: TraceOp::Detach { pid: p, signal: None },
                        on_failure: None,
                    },
                ),
            },
            None => ReapStep::Release { request: None },
        },
    }
}

/// Decides what the second loop does about one wait: it ends when the root
/// command has exited or no child is left, and lets go of every other
/// process it meets, passing on the signal that stopped it.
pub fn wait_pid_exit_and_detach_other(pid_to_wait: i32, event: &WaitEvent) -> (step: ReapStep)
    ensures
        step == reap_step_of(pid_to_wait, *event),
{
    match event {
        WaitEvent::NoChildren => ReapStep::Done,
        WaitEvent::NoSuchProcess => ReapStep::Done,
        WaitEvent::Failed => ReapStep::Failed {
            error: DbgeeError::Os { step: OsStep::WaitForTrap },
        },
        WaitEvent::Exited { pid, code: _ } => {
            if *pid == pid_to_wait {
                ReapStep::Done
            } else {
                ReapStep::Release { request: None }
            }
        },
        WaitEvent::Forked { pid, kind } => {
            match kind {
                ForkKind::VFork => ReapStep::Release {
                    request: Some(
                        TraceRequest {
                            op: TraceOp::Detach { pid: *pid, signal: None },
                            on_failure: None,
                        },
                    ),
                },
                _ => ReapStep::Forked { parent: *pid },
            }
        },
        WaitEvent::Stopped { pid, signal } => ReapStep::Release {
            request: Some(
                TraceRequest {
                    op: TraceOp::Detach { pid: *pid, signal: Some(*signal) },
                    on_failure: None,
                },
            ),
        },
        WaitEvent::Signaled { pid, signal: _ } => ReapStep::Release {
            request: Some(
                TraceRequest { op: TraceOp::Detach { pid: *pid, signal: None }, on_failure: None },
            ),
        },
        WaitEvent::Other { pid } => match pid {
            Some(p) => ReapStep::Release {
                request: Some(
                    TraceRequest {
                        op: TraceOp::Detach { pid: *p, signal: None },
                        on_failure: None,
                    },
                ),
            },
            None => ReapStep::Release { request: None },
        },
    }
}

} // verus!
