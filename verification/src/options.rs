//! The command line, parsed: three subcommands with their options.

use vstd::prelude::*;
use crate::hook::HookOpts;
use crate::logging::LogLevel;
use crate::text::same_text;

verus! {

/// The terminals that the user can name.
#[derive(Debug, Clone, Copy, PartialEq, Eq, Structural)]
pub enum TerminalOptValues {
    /// A new window of the terminal multiplexer.
    Tmuxw,
    /// A new pane of the terminal multiplexer.
    Tmuxp,
    /// The IDE.
    Vscode,
}

impl TerminalOptValues {
    /// The value as the user writes it.
    pub open spec fn name_text(self) -> Seq<char> {
        match self {
            TerminalOptValues::Tmuxw => "tmuxw"@,
            TerminalOptValues::Tmuxp => "tmuxp"@,
            TerminalOptValues::Vscode => "vscode"@,
        }
    }

    /// The value as the user writes it.
    pub fn name(&self) -> (name: &'static str)
        ensures
            name@ == self.name_text(),
    {
        match self {
            TerminalOptValues::Tmuxw => "tmuxw",
            TerminalOptValues::Tmuxp => "tmuxp",
            TerminalOptValues::Vscode => "vscode",
        }
    }

    /// The terminal that the user wrote, if it is one.
    pub fn from_name(name: &str) -> (value: Option<TerminalOptValues>)
        ensures
            match value {
                Some(v) => v.name_text() == name@,
                None => forall|v: TerminalOptValues| v.name_text() != name@,
            },
    {
        if same_text(name, "tmuxw") {
            Some(TerminalOptValues::Tmuxw)
        } else if same_text(name, "tmuxp") {
            Some(TerminalOptValues::Tmuxp)
        } else if same_text(name, "vscode") {
            Some(TerminalOptValues::Vscode)
        } else {
            None
        }
    }
}

/// The debuggers that the user can name.
#[derive(Debug, Clone, Copy, PartialEq, Eq, Structural)]
pub enum DebuggerOptValues {
    Gdb,
    Lldb,
    Dlv,
    StopAndWritePid,
    Debugpy,
}

impl DebuggerOptValues {
    /// The value as the user writes it.
    pub open spec fn name_text(self) -> Seq<char> {
        match self {
            DebuggerOptValues::Gdb => "gdb"@,
            DebuggerOptValues::Lldb => "lldb"@,
            DebuggerOptValues::Dlv => "dlv"@,
            DebuggerOptValues::StopAndWritePid => "stop-and-write-pid"@,
            DebuggerOptValues::Debugpy => "debugpy"@,
        }
    }

    /// The value as the user writes it.
    pub fn name(&self) -> (name: &'static str)
        ensures
            name@ == self.name_text(),
    {
        match self {
            DebuggerOptValues::Gdb => "gdb",
            DebuggerOptValues::Lldb => "lldb",
            DebuggerOptValues::Dlv => "dlv",
            DebuggerOptValues::StopAndWritePid => "stop-and-write-pid",
            DebuggerOptValues::Debugpy => "debugpy",
        }
    }

    /// The debugger that the user wrote, if it is one.
    pub fn from_name(name: &str) -> (value: Option<DebuggerOptValues>)
        ensures
            match value {
                Some(v) => v.name_text() == name@,
                None => forall|v: DebuggerOptValues| v.name_text() != name@,
            },
    {
        if same_text(name, "gdb") {
            Some(DebuggerOptValues::Gdb)
        } else if same_text(name, "lldb") {
            Some(DebuggerOptValues::Lldb)
        } else if same_text(name, "dlv") {
            Some(DebuggerOptValues::Dlv)
        } else if same_text(name, "stop-and-write-pid") {
            Some(DebuggerOptValues::StopAndWritePid)
        } else if same_text(name, "debugpy") {
            Some(DebuggerOptValues::Debugpy)
        } else {
            None
        }
    }
}

/// Which debugger attaches, and in which terminal. Each is detected where
/// the user names none.
#[derive(Debug, Clone, Copy, PartialEq, Eq, Structural)]
pub struct AttachOpts {
    pub debugger: Option<DebuggerOptValues>,
    pub terminal: Option<TerminalOptValues>,
}

/// `run`: launch the command and attach a debugger to it, or to the
/// descendant that meets a hook condition.
#[derive(Debug, Clone, PartialEq, Eq)]
pub struct RunOpts {
    pub command: String,
    pub command_args: Vec<String>,
    pub attach_opts: AttachOpts,
    pub hook_opts: HookOpts,
}

/// `set`: replace the debuggee by a shim, so that a debugger attaches
/// whenever it is launched. With a start command, run it and unset after.
#[derive(Debug, Clone, PartialEq, Eq)]
pub struct SetOpts {
    pub debuggee: String,
    pub start_cmd: Vec<String>,
    pub attach_opts: AttachOpts,
}

/// `unset`: remove the shim and restore the debuggee.
#[derive(Debug, Clone, PartialEq, Eq)]
pub struct UnsetOpts {
    pub debuggee: String,
    pub debugger: Option<DebuggerOptValues>,
}

/// The subcommands.
#[derive(Debug, Clone, PartialEq, Eq)]
pub enum Subcommand {
    Run(RunOpts),
    /// `set`.
    SetDebuggee(SetOpts),
    Unset(UnsetOpts),
}

/// A whole command line.
#[derive(Debug, Clone, PartialEq, Eq)]
pub struct Opts {
    pub log_level: Option<LogLevel>,
    /// Replaces the usual beginning of the paths of the pipes to the IDE.
    pub vscode_fifo_prefix: Option<String>,
    pub command: Subcommand,
}

} // verus!
