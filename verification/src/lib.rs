//! Zero-configuration debuggee launcher: the decision logic.
//!
//! Everything here works on plain values. The surrounding program performs
//! the system calls and hands their outcomes to these functions, which say
//! what is done next: which debugger and terminal are used, how the debuggee
//! is brought to a stop, what is asked of the kernel while a command tree is
//! traced, and how an executable is replaced by a shim and restored.

pub mod attach;
pub mod attach_action;
pub mod debugger;
pub mod debugger_terminal;
pub mod dwarf;
pub mod error;
pub mod file_helper;
pub mod hook;
pub mod logging;
pub mod options;
pub mod path;
pub mod process;
pub mod run_command;
pub mod shim;
pub mod start;
pub mod text;
pub mod trace;

use vstd::prelude::*;

pub use crate::debugger::{Backends, Debugger};
pub use crate::debugger_terminal::{DebuggerTerminal, Tmux, TmuxLayout, VsCode};
pub use crate::error::{DbgeeError, ErrorKind};
pub use crate::file_helper::{
    bail_if_not_executable, is_debuggee_not_executable, is_executable_stat, FileProbe, FileStat,
};
pub use crate::hook::{is_any_hook_condition_set, run_hook, HookOpts};
pub use crate::logging::LogLevel;
pub use crate::options::{
    AttachOpts, DebuggerOptValues, Opts, RunOpts, SetOpts, Subcommand, TerminalOptValues,
    UnsetOpts,
};
pub use crate::trace::wait_pid_exit;
use crate::debugger::{
    DelveDebugger, GdbDebugger, GdbStyle, LldbDebugger, PythonDebugger, StopAndWritePidDebugger,
};
use crate::debugger_terminal::{request_fifo_path, FIFO_PATH_PREFIX, PROTOCOL_VERSION};

verus! {

/// The systems on which the launcher runs.
#[derive(Debug, Clone, Copy, PartialEq, Eq, Structural)]
pub enum Platform {
    Linux,
    MacOs,
}

/// What the launcher has found out about its surroundings.
#[derive(Debug, Clone, PartialEq, Eq)]
pub struct Host {
    pub platform: Platform,
    /// Which debugger backends are installed.
    pub backends: Backends,
    /// Kind and permission bits of the debuggee, if it could be examined.
    pub debuggee_stat: Option<FileStat>,
    /// The probes of the debuggee and, as long as each is a shim, of its
    /// backup.
    pub probes: Vec<FileProbe>,
    /// Whether the launcher runs in a terminal of the IDE.
    pub in_vscode_term: bool,
    /// The socket that names the window of the IDE, from the environment.
    pub git_ipc_handle: Option<String>,
}

/// Whether the backend of a debugger is installed.
pub open spec fn is_available(kind: DebuggerOptValues, backends: Backends) -> bool {
    match kind {
        DebuggerOptValues::Gdb => backends.gdb,
        DebuggerOptValues::Lldb => backends.lldb,
        DebuggerOptValues::Dlv => backends.dlv,
        DebuggerOptValues::StopAndWritePid => true,
        DebuggerOptValues::Debugpy => (backends.python3 || backends.python) && backends.debugpy,
    }
}

/// The adapter is the one for `kind`, and has launched nothing yet.
pub open spec fn is_fresh(d: Debugger, kind: DebuggerOptValues, backends: Backends) -> bool {
    match kind {
        DebuggerOptValues::Gdb => d matches Debugger::GdbCompatible(g) && g.debugger_name@
            == "gdb"@ && g.style == GdbStyle::Gdb && g.debuggee_pid.is_none()
            && g.debuggee_path.is_none(),
        DebuggerOptValues::Lldb => d matches Debugger::GdbCompatible(g) && g.debugger_name@
            == "lldb"@ && g.style == GdbStyle::Lldb && g.debuggee_pid.is_none()
            && g.debuggee_path.is_none(),
        DebuggerOptValues::Dlv => d matches Debugger::Delve(v) && v.port.is_none(),
        DebuggerOptValues::StopAndWritePid => d is StopAndWritePid,
        DebuggerOptValues::Debugpy => d matches Debugger::Python(p) && p.port.is_none() && Some(
            p.python_command@,
        ) == PythonDebugger::interpreter(backends),
    }
}

/// Whether the adapter for `kind` is sure of a debuggee with these probes.
pub open spec fn kind_supports(kind: DebuggerOptValues, chain: Seq<FileProbe>) -> bool {
    match kind {
        DebuggerOptValues::Gdb => debugger::GdbCompatibleDebugger::supports(chain),
        DebuggerOptValues::Lldb => debugger::GdbCompatibleDebugger::supports(chain),
        DebuggerOptValues::Dlv => DelveDebugger::supports(chain),
        DebuggerOptValues::StopAndWritePid => true,
        DebuggerOptValues::Debugpy => chain.len() > 0 && chain[0].python(),
    }
}

/// The debuggers that are tried in turn where the user named none: Delve,
/// the native debugger of the platform, debugpy, and the last resort.
pub open spec fn candidates_of(platform: Platform) -> Seq<DebuggerOptValues> {
    seq![
        DebuggerOptValues::Dlv,
        match platform {
            Platform::Linux => DebuggerOptValues::Gdb,
            Platform::MacOs => DebuggerOptValues::Lldb,
        },
        DebuggerOptValues::Debugpy,
        DebuggerOptValues::StopAndWritePid,
    ]
}

/// The first of the candidates that is installed and sure of the debuggee.
pub open spec fn first_match(
    candidates: Seq<DebuggerOptValues>,
    backends: Backends,
    chain: Seq<FileProbe>,
) -> Option<DebuggerOptValues>
    decreases candidates.len(),
{
    if candidates.len() == 0 {
        None
    } else if is_available(candidates[0], backends) && kind_supports(candidates[0], chain) {
        Some(candidates[0])
    } else {
        first_match(candidates.skip(1), backends, chain)
    }
}

/// The debugger that is used: the one the user named, else the first
/// candidate that is installed and sure of the debuggee.
pub open spec fn selected(choice: Option<DebuggerOptValues>, host: Host) -> Option<
    DebuggerOptValues,
> {
    match choice {
        Some(kind) => if is_available(kind, host.backends) {
            Some(kind)
        } else {
            None
        },
        None => first_match(candidates_of(host.platform), host.backends, host.probes@),
    }
}

/// Detection always ends with a debugger: the last resort takes any
/// debuggee.
pub proof fn lemma_detection_succeeds(host: Host)
    ensures
        selected(None, host).is_some(),
{
    let c = candidates_of(host.platform);
    let c1 = c.skip(1);
    let c2 = c1.skip(1);
    let c3 = c2.skip(1);
    assert(c1[0] == c[1]);
    assert(c2[0] == c[2]);
    assert(c3[0] == c[3]);
    assert(first_match(c3, host.backends, host.probes@).is_some());
    assert(first_match(c2, host.backends, host.probes@).is_some());
    assert(first_match(c1, host.backends, host.probes@).is_some());
}

/// The failure for a debugger whose backend is not installed.
pub open spec fn is_backend_missing(e: DbgeeError, kind: DebuggerOptValues, backends: Backends) -> bool {
    match kind {
        DebuggerOptValues::Gdb => debugger::is_command_missing(e, "gdb"@, "gdb"@),
        DebuggerOptValues::Lldb => debugger::is_command_missing(e, "lldb"@, "lldb"@),
        DebuggerOptValues::Dlv => debugger::is_command_missing(e, "dlv"@, "delve"@),
        DebuggerOptValues::StopAndWritePid => false,
        DebuggerOptValues::Debugpy => if backends.python3 || backends.python {
            e matches DbgeeError::DebugpyMissing
        } else {
            e matches DbgeeError::PythonMissing
        },
    }
}

/// The adapter for a debugger, if its backend is installed.
pub fn build_named_debugger(kind: DebuggerOptValues, backends: &Backends) -> (built: Result<
    Debugger,
    DbgeeError,
>)
    ensures
        is_available(kind, *backends) ==> (built matches Ok(d) && is_fresh(d, kind, *backends)),
        !is_available(kind, *backends) ==> (built matches Err(e) && is_backend_missing(
            e,
            kind,
            *backends,
        ) && e.kind_of() == ErrorKind::BackendMissing),
{
    match kind {
        DebuggerOptValues::Gdb => Ok(Debugger::GdbCompatible(GdbDebugger::build(backends)?)),
        DebuggerOptValues::Lldb => Ok(Debugger::GdbCompatible(LldbDebugger::build(backends)?)),
        DebuggerOptValues::Dlv => Ok(Debugger::Delve(DelveDebugger::new(backends)?)),
        DebuggerOptValues::StopAndWritePid => Ok(
            Debugger::StopAndWritePid(StopAndWritePidDebugger::new()),
        ),
        DebuggerOptValues::Debugpy => Ok(Debugger::Python(PythonDebugger::new(backends)?)),
    }
}

/// The candidates for detection, in the order in which they are tried.
pub fn detection_candidates(platform: Platform) -> (candidates: Vec<DebuggerOptValues>)
    ensures
        candidates@ == candidates_of(platform),
{
    let mut candidates: Vec<DebuggerOptValues> = Vec::new();
    candidates.push(DebuggerOptValues::Dlv);
    match platform {
        Platform::Linux => {
            candidates.push(DebuggerOptValues::Gdb);
        },
        Platform::MacOs => {
            candidates.push(DebuggerOptValues::Lldb);
        },
    }
    candidates.push(DebuggerOptValues::Debugpy);
    candidates.push(DebuggerOptValues::StopAndWritePid);
    assert(candidates@ =~= candidates_of(platform));
    candidates
}

/// Picks the debugger for a debuggee: the first candidate that is installed
/// and sure of the debuggee.
pub fn detect_debugger(host: &Host) -> (found: Result<Debugger, DbgeeError>)
    ensures
        match selected(None, *host) {
            Some(kind) => found matches Ok(d) && is_fresh(d, kind, host.backends),
            None => found matches Err(DbgeeError::NoDebuggerDetected),
        },
{
    let candidates = detection_candidates(host.platform);
    let mut i: usize = 0;
    assert(candidates@.skip(0) =~= candidates@);
    while i < candidates.len()
        invariant
            i <= candidates.len(),
            candidates@ == candidates_of(host.platform),
            selected(None, *host) == first_match(
                candidates@.skip(i as int),
                host.backends,
                host.probes@,
            ),
        decreases candidates.len() - i,
    {
        let ghost rest = candidates@.skip(i as int);
        assert(rest[0] == candidates@[i as int]);
        assert(rest.skip(1) =~= candidates@.skip(i + 1));
        let kind = candidates[i];
        match build_named_debugger(kind, &host.backends) {
            Ok(candidate) => {
                if candidate.is_debuggee_surely_supported(&host.probes) {
                    return Ok(candidate);
                }
            },
            Err(_) => {},
        }
        i = i + 1;
    }
    Err(DbgeeError::NoDebuggerDetected)
}

/// The adapter is the one that is used for the choice of the user, or the
/// failure says why there is none.
pub open spec fn is_built_debugger(
    built: Result<Debugger, DbgeeError>,
    choice: Option<DebuggerOptValues>,
    host: Host,
) -> bool {
    match selected(choice, host) {
        Some(kind) => built matches Ok(d) && is_fresh(d, kind, host.backends),
        None => built matches Err(e) && e.kind_of() == ErrorKind::BackendMissing && (
        choice matches Some(kind) && is_backend_missing(e, kind, host.backends)),
    }
}

/// The adapter for the debugger that the user named, or that is detected
/// where the user named none.
pub fn build_debugger(choice: &Option<DebuggerOptValues>, host: &Host) -> (built: Result<
    Debugger,
    DbgeeError,
>)
    ensures
        is_built_debugger(built, *choice, *host),
{
    proof {
        lemma_detection_succeeds(*host);
    }
    match choice {
        None => detect_debugger(host),
        Some(kind) => build_named_debugger(*kind, &host.backends),
    }
}

/// The adapter for a process that met a hook condition: the adapter that
/// is used for the executable of the process, attached to the process and
/// never asked to run it. `host` holds what was found out about that
/// executable. Where a plan comes with the adapter, its server is started
/// before the process is handed over.
pub fn attach_hooked(
    choice: &Option<DebuggerOptValues>,
    host: &Host,
    pid: i32,
    exe_path: &str,
) -> (attached: Result<(Debugger, Option<debugger::LaunchPlan>), DbgeeError>)
    ensures
        match selected(*choice, *host) {
            Some(kind) => attached matches Ok((d, plan)) && d.launched() && (exists|
                fresh: Debugger,
            |
                is_fresh(fresh, kind, host.backends) && d.is_attached(fresh, pid, exe_path@)
                    && Debugger::is_attach_plan(fresh, pid, plan)),
            None => attached matches Err(e) && e.kind_of() == ErrorKind::BackendMissing && (
            *choice matches Some(kind) && is_backend_missing(e, kind, host.backends)),
        },
{
    let mut debugger = build_debugger(choice, host)?;
    let ghost fresh = debugger;
    let plan = debugger.attach(pid, exe_path);
    Ok((debugger, plan))
}

/// The terminal that is used where the user named none: the IDE in a
/// terminal of the IDE, else a pane of the multiplexer.
pub fn detect_debugger_terminal(in_vscode_term: bool) -> (terminal: TerminalOptValues)
    ensures
        terminal == if in_vscode_term {
            TerminalOptValues::Vscode
        } else {
            TerminalOptValues::Tmuxp
        },
{
    if in_vscode_term {
        TerminalOptValues::Vscode
    } else {
        TerminalOptValues::Tmuxp
    }
}

/// The terminal is the one for `kind`.
pub open spec fn is_terminal(
    terminal: DebuggerTerminal,
    kind: TerminalOptValues,
    fifo_prefix: Seq<char>,
    git_ipc_handle: Option<Seq<char>>,
) -> bool {
    match kind {
        TerminalOptValues::Tmuxw => terminal == DebuggerTerminal::Tmux(
            Tmux { layout: TmuxLayout::NewWindow },
        ),
        TerminalOptValues::Tmuxp => terminal == DebuggerTerminal::Tmux(
            Tmux { layout: TmuxLayout::NewPane },
        ),
        TerminalOptValues::Vscode => terminal matches DebuggerTerminal::VsCode(v)
            && v.attach_information_fifo_path@ == fifo_prefix + "s"@ && attach::optional_text(
            v.attach_request_fifo_path,
        ) == request_fifo_path(fifo_prefix, git_ipc_handle) && v.protocol_version@
            == PROTOCOL_VERSION@,
    }
}

/// The terminal that is used for the choice of the user.
pub open spec fn chosen_terminal(choice: Option<TerminalOptValues>, in_vscode_term: bool) -> TerminalOptValues {
    match choice {
        Some(kind) => kind,
        None => if in_vscode_term {
            TerminalOptValues::Vscode
        } else {
            TerminalOptValues::Tmuxp
        },
    }
}

/// The prefix of the paths of the pipes: the usual one unless another was
/// given.
pub open spec fn fifo_prefix_of(given: Option<String>) -> Seq<char> {
    match given {
        Some(prefix) => prefix@,
        None => FIFO_PATH_PREFIX@,
    }
}

/// The terminal that the user named, or that is detected where the user
/// named none.
pub fn build_debugger_terminal(
    choice: &Option<TerminalOptValues>,
    host: &Host,
    fifo_prefix: &Option<String>,
) -> (terminal: DebuggerTerminal)
    ensures
        is_terminal(
            terminal,
            chosen_terminal(*choice, host.in_vscode_term),
            fifo_prefix_of(*fifo_prefix),
            attach::optional_text(host.git_ipc_handle),
        ),
{
    let kind = match choice {
        Some(kind) => *kind,
        None => detect_debugger_terminal(host.in_vscode_term),
    };
    match kind {
        TerminalOptValues::Tmuxw => DebuggerTerminal::Tmux(Tmux::new(TmuxLayout::NewWindow)),
        TerminalOptValues::Tmuxp => DebuggerTerminal::Tmux(Tmux::new(TmuxLayout::NewPane)),
        TerminalOptValues::Vscode => {
            let handle: Option<&str> = match &host.git_ipc_handle {
                Some(h) => Some(h.as_str()),
                None => None,
            };
            let prefix: &str = match fifo_prefix {
                Some(p) => p.as_str(),
                None => FIFO_PATH_PREFIX,
            };
            DebuggerTerminal::VsCode(VsCode::with_fifo_path_prefix(prefix, handle))
        },
    }
}

/// What a subcommand comes to.
#[derive(Debug, Clone, PartialEq, Eq)]
pub enum Dispatch {
    /// `run` with hook conditions: trace the command until a descendant
    /// meets a condition. The exit code is 0.
    Hook { terminal: DebuggerTerminal },
    /// `run`: launch the debuggee with the adapter, hand it to the terminal
    /// and wait for it; its exit code is the launcher's.
    Run { debugger: Debugger, terminal: DebuggerTerminal },
    /// `set`: install the shim. The exit code is 0.
    Install { debugger: Debugger, terminal: DebuggerTerminal },
    /// `unset`: remove the shim. The exit code is 0.
    Uninstall { debugger: Debugger },
}

/// The debuggee that a command line names.
pub open spec fn debuggee_of(command: Subcommand) -> Seq<char> {
    match command {
        Subcommand::Run(o) => o.command@,
        Subcommand::SetDebuggee(o) => o.debuggee@,
        Subcommand::Unset(o) => o.debuggee@,
    }
}

/// The debugger that a command line asks for.
pub open spec fn debugger_choice(command: Subcommand) -> Option<DebuggerOptValues> {
    match command {
        Subcommand::Run(o) => o.attach_opts.debugger,
        Subcommand::SetDebuggee(o) => o.attach_opts.debugger,
        Subcommand::Unset(o) => o.debugger,
    }
}

/// The terminal that a command line asks for.
pub open spec fn terminal_choice(command: Subcommand) -> Option<TerminalOptValues> {
    match command {
        Subcommand::Run(o) => o.attach_opts.terminal,
        Subcommand::SetDebuggee(o) => o.attach_opts.terminal,
        Subcommand::Unset(o) => None,
    }
}

/// Whether the platform can trace a whole tree of processes, which hook
/// mode needs.
pub open spec fn has_hook_mode(platform: Platform) -> bool {
    platform == Platform::Linux
}

/// Whether hook mode exists on the platform.
pub fn supports_hook_mode(platform: Platform) -> (supported: bool)
    ensures
        supported == has_hook_mode(platform),
{
    match platform {
        Platform::Linux => true,
        Platform::MacOs => false,
    }
}

/// `run` with at least one hook condition, on a platform with hook mode.
/// Elsewhere hook conditions do not exist and are passed over.
pub open spec fn is_hooked_run(command: Subcommand, platform: Platform) -> bool {
    has_hook_mode(platform) && (command matches Subcommand::Run(o) && (
    o.hook_opts.hook_executable.is_some() || o.hook_opts.hook_source.is_some()
        || o.hook_opts.hook_source_dir.is_some()))
}

/// `set` or `unset` with the debugpy adapter, which cannot wrap.
pub open spec fn is_refused_wrapping(command: Subcommand, host: Host) -> bool {
    !(command is Run) && selected(debugger_choice(command), host) == Some(
        DebuggerOptValues::Debugpy,
    )
}

/// What `run` answers for a command line on a host.
pub open spec fn is_dispatch(out: Result<Dispatch, DbgeeError>, opts: Opts, host: Host) -> bool {
    let command = opts.command;
    let terminal_kind = chosen_terminal(terminal_choice(command), host.in_vscode_term);
    let prefix = fifo_prefix_of(opts.vscode_fifo_prefix);
    let handle = attach::optional_text(host.git_ipc_handle);
    if !is_executable_stat(host.debuggee_stat) {
        out matches Err(e) && is_debuggee_not_executable(e, debuggee_of(command))
    } else if is_hooked_run(command, host.platform) {
        out matches Ok(Dispatch::Hook { terminal }) && is_terminal(
            terminal,
            terminal_kind,
            prefix,
            handle,
        )
    } else {
        match selected(debugger_choice(command), host) {
            None => out matches Err(e) && e.kind_of() == ErrorKind::BackendMissing && (
            debugger_choice(command) matches Some(kind) && is_backend_missing(
                e,
                kind,
                host.backends,
            )),
            Some(kind) => if is_refused_wrapping(command, host) {
                out matches Err(DbgeeError::WrappingUnsupported { debugger }) && debugger@
                    == "Python"@
            } else {
                match command {
                    Subcommand::Run(o) => out matches Ok(Dispatch::Run { debugger, terminal })
                        && is_fresh(debugger, kind, host.backends) && is_terminal(
                        terminal,
                        terminal_kind,
                        prefix,
                        handle,
                    ),
                    Subcommand::SetDebuggee(o) => out matches Ok(Dispatch::Install { debugger, terminal })
                        && is_fresh(debugger, kind, host.backends) && is_terminal(
                        terminal,
                        terminal_kind,
                        prefix,
                        handle,
                    ),
                    Subcommand::Unset(o) => out matches Ok(Dispatch::Uninstall { debugger })
                        && is_fresh(debugger, kind, host.backends),
                }
            },
        }
    }
}

/// Decides what a command line comes to on a host: refuses a debuggee that
/// is no executable file, turns to hook mode where a hook condition was
/// given, and else picks the debugger and the terminal.
pub fn run(opts: &Opts, host: &Host) -> (out: Result<Dispatch, DbgeeError>)
    ensures
        is_dispatch(out, *opts, *host),
{
    match &opts.command {
        Subcommand::Run(run_opts) => {
            bail_if_not_executable(run_opts.command.as_str(), host.debuggee_stat)?;
            if supports_hook_mode(host.platform) && is_any_hook_condition_set(
                &run_opts.hook_opts,
            ) {
                let terminal = build_debugger_terminal(
                    &run_opts.attach_opts.terminal,
                    host,
                    &opts.vscode_fifo_prefix,
                );
                return Ok(Dispatch::Hook { terminal });
            }
            let debugger = build_debugger(&run_opts.attach_opts.debugger, host)?;
            let terminal = build_debugger_terminal(
                &run_opts.attach_opts.terminal,
                host,
                &opts.vscode_fifo_prefix,
            );
            Ok(Dispatch::Run { debugger, terminal })
        },
        Subcommand::SetDebuggee(set_opts) => {
            bail_if_not_executable(set_opts.debuggee.as_str(), host.debuggee_stat)?;
            let debugger = build_debugger(&set_opts.attach_opts.debugger, host)?;
            let terminal = build_debugger_terminal(
                &set_opts.attach_opts.terminal,
                host,
                &opts.vscode_fifo_prefix,
            );
            debugger.check_wrapping()?;
            Ok(Dispatch::Install { debugger, terminal })
        },
        Subcommand::Unset(unset_opts) => {
            bail_if_not_executable(unset_opts.debuggee.as_str(), host.debuggee_stat)?;
            let debugger = build_debugger(&unset_opts.debugger, host)?;
            debugger.check_wrapping()?;
            Ok(Dispatch::Uninstall { debugger })
        },
    }
}

/// `unset` after `set` restores the program: where a shim was installed at
/// `path` and `unset` is then asked for with a debugger other than debugpy,
/// `run` answers with the removal, the removal is not refused for what is
/// found at the path, and it leaves the program as it was, byte for byte and
/// with its permission bits.
pub proof fn lemma_unset_after_set_restores(
    disk: shim::Disk,
    path: Seq<char>,
    run_command: Seq<char>,
    fresh_mode: u32,
    found: shim::Target,
    opts: Opts,
    host: Host,
    out: Result<Dispatch, DbgeeError>,
)
    requires
        disk.contains_key(path),
        is_executable_stat(Some(FileStat { is_file: true, mode: disk[path].mode })),
        shim::found_at(shim::installed(disk, path, run_command, fresh_mode), path, found),
        opts.command is Unset,
        host.debuggee_stat == found.stat,
        selected(debugger_choice(opts.command), host) matches Some(kind) && kind
            != DebuggerOptValues::Debugpy,
        is_dispatch(out, opts, host),
    ensures
        out matches Ok(Dispatch::Uninstall { debugger }),
        shim::uninstall_refusal(found).is_none(),
        shim::uninstalled(
            shim::installed(disk, path, run_command, fresh_mode),
            path,
            fresh_mode,
        )[path] == disk[path],
        !disk.contains_key(shim::backup_name(path)) ==> shim::uninstalled(
            shim::installed(disk, path, run_command, fresh_mode),
            path,
            fresh_mode,
        ) == disk,
{
    shim::lemma_installed(disk, path, run_command, fresh_mode);
    shim::lemma_double_install_refused(disk, path, run_command, fresh_mode, found);
    shim::lemma_install_then_uninstall_restores(disk, path, run_command, fresh_mode);
}

} // verus!
