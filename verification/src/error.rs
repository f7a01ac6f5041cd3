//! Failures, grouped by the way they are handled.

use vstd::prelude::*;
use vstd::string::*;

verus! {

/// The exit code of the launcher after any failure of its own.
pub const EXIT_CODE_FAILURE: i32 = 1;

/// The mark at the beginning of the message of an internal bug.
pub const BUG_MARK: &'static str = "[BUG]";

/// How a failure is handled by the caller.
#[derive(Debug, Clone, Copy, PartialEq, Eq, Structural)]
pub enum ErrorKind {
    /// The user named something that cannot be used; nothing was changed.
    UserInput,
    /// A debugger backend is not installed.
    BackendMissing,
    /// A system call failed.
    OsFailure,
    /// The IDE handshake is not possible; the user attaches by hand.
    Protocol,
    /// A state that the program itself should have made impossible.
    InternalBug,
}

/// The system call that failed.
#[derive(Debug, Clone, Copy, PartialEq, Eq, Structural)]
pub enum OsStep {
    Fork,
    WaitForTrap,
    SendStop,
    Detach,
    Continue,
    SetTraceOptions,
    ReadForkEvent,
    IgnoreInterrupt,
    InstallInterruptHandler,
    SpawnServer,
    MakeFifo,
}

/// What about a compilation unit's debug information could not be used.
#[derive(Debug, Clone, Copy, PartialEq, Eq, Structural)]
pub enum DebugInfoFault {
    /// The compilation directory exists but could not be made canonical.
    CompDirUnresolved,
    /// The name of a source file could not be read.
    FileNameUnreadable,
    /// The name of a source directory could not be read.
    DirectoryUnreadable,
    /// A source file refers to a directory that its unit does not list.
    DirectoryAbsent,
}

/// Everything that can go wrong.
#[derive(Debug, Clone, PartialEq, Eq)]
pub enum DbgeeError {
    /// The debuggee is not a regular file with an execute bit.
    DebuggeeNotExecutable { path: String },
    /// The named path does not exist.
    PathNotFound { name: String, path: String },
    /// The path exists but is not an executable file.
    NotExecutable { name: String, path: String },
    /// `set` on a file that is already a shim.
    AlreadyWrapped { path: String },
    /// `unset` on a file that is not a shim.
    NotWrapped { path: String },
    /// The adapter cannot wrap executables.
    WrappingUnsupported { debugger: String },
    /// No adapter claims the debuggee.
    NoDebuggerDetected,
    /// The backend command is not on the search path.
    CommandMissing { command: String, package: String },
    /// Neither `python3` nor `python` is on the search path.
    PythonMissing,
    /// The Python interpreter cannot import `debugpy`.
    DebugpyMissing,
    /// A system call failed.
    Os { step: OsStep },
    /// The debuggee ended before it could be stopped.
    DebuggeeGone,
    /// Part of an executable's debug information could not be used.
    DebugInfo { fault: DebugInfoFault },
    /// The environment does not name the IDE window.
    RequestPipeUnknown,
    /// The IDE has not created the request pipe.
    RequestPipeAbsent { path: String },
    /// An adapter was queried before `launch`.
    Uninitialized { debugger: String },
    /// The adapter has no such query.
    QueryUndefined { debugger: String, query: String },
    /// The attach coordinates lack the debugger type.
    TypeHintAbsent,
    /// An outcome was reported that the step in progress cannot have.
    UnexpectedEvent,
}

impl DbgeeError {
    /// The kind of each failure.
    pub open spec fn kind_of(self) -> ErrorKind {
        match self {
            DbgeeError::DebuggeeNotExecutable { .. } => ErrorKind::UserInput,
            DbgeeError::PathNotFound { .. } => ErrorKind::UserInput,
            DbgeeError::NotExecutable { .. } => ErrorKind::UserInput,
            DbgeeError::AlreadyWrapped { .. } => ErrorKind::UserInput,
            DbgeeError::NotWrapped { .. } => ErrorKind::UserInput,
            DbgeeError::WrappingUnsupported { .. } => ErrorKind::UserInput,
            DbgeeError::NoDebuggerDetected => ErrorKind::BackendMissing,
            DbgeeError::CommandMissing { .. } => ErrorKind::BackendMissing,
            DbgeeError::PythonMissing => ErrorKind::BackendMissing,
            DbgeeError::DebugpyMissing => ErrorKind::BackendMissing,
            DbgeeError::Os { .. } => ErrorKind::OsFailure,
            DbgeeError::DebuggeeGone => ErrorKind::OsFailure,
            DbgeeError::DebugInfo { .. } => ErrorKind::OsFailure,
            DbgeeError::RequestPipeUnknown => ErrorKind::Protocol,
            DbgeeError::RequestPipeAbsent { .. } => ErrorKind::Protocol,
            DbgeeError::Uninitialized { .. } => ErrorKind::InternalBug,
            DbgeeError::QueryUndefined { .. } => ErrorKind::InternalBug,
            DbgeeError::TypeHintAbsent => ErrorKind::InternalBug,
            DbgeeError::UnexpectedEvent => ErrorKind::InternalBug,
        }
    }

    /// The kind of this failure.
    pub fn kind(&self) -> (kind: ErrorKind)
        ensures
            kind == self.kind_of(),
    {
        match self {
            DbgeeError::DebuggeeNotExecutable { .. } => ErrorKind::UserInput,
            DbgeeError::PathNotFound { .. } => ErrorKind::UserInput,
            DbgeeError::NotExecutable { .. } => ErrorKind::UserInput,
            DbgeeError::AlreadyWrapped { .. } => ErrorKind::UserInput,
            DbgeeError::NotWrapped { .. } => ErrorKind::UserInput,
            DbgeeError::WrappingUnsupported { .. } => ErrorKind::UserInput,
            DbgeeError::NoDebuggerDetected => ErrorKind::BackendMissing,
            DbgeeError::CommandMissing { .. } => ErrorKind::BackendMissing,
            DbgeeError::PythonMissing => ErrorKind::BackendMissing,
            DbgeeError::DebugpyMissing => ErrorKind::BackendMissing,
            DbgeeError::Os { .. } => ErrorKind::OsFailure,
            DbgeeError::DebuggeeGone => ErrorKind::OsFailure,
            DbgeeError::DebugInfo { .. } => ErrorKind::OsFailure,
            DbgeeError::RequestPipeUnknown => ErrorKind::Protocol,
            DbgeeError::RequestPipeAbsent { .. } => ErrorKind::Protocol,
            DbgeeError::Uninitialized { .. } => ErrorKind::InternalBug,
            DbgeeError::QueryUndefined { .. } => ErrorKind::InternalBug,
            DbgeeError::TypeHintAbsent => ErrorKind::InternalBug,
            DbgeeError::UnexpectedEvent => ErrorKind::InternalBug,
        }
    }

    /// The text shown to the user. Internal bugs are marked `[BUG]`.
    pub open spec fn message_text(self) -> Seq<char> {
        match self {
            DbgeeError::DebuggeeNotExecutable { path } => "the debugee (path: '"@ + path@
                + "') is not an executable file."@,
            DbgeeError::PathNotFound { name, path } => name@ + " (Path: '"@ + path@
                + "') does not exist."@,
            DbgeeError::NotExecutable { name, path } => name@ + " ("@ + path@
                + ") is not executable"@,
            DbgeeError::AlreadyWrapped { path } => path@
                + " is already wrapped by dbgee. Did you set it already?"@,
            DbgeeError::NotWrapped { path } => path@
                + " is not wrapped by dbgee. Did you unset it already?"@,
            DbgeeError::WrappingUnsupported { debugger } => "set and unset are not implemented yet for "@
                + debugger@,
            DbgeeError::NoDebuggerDetected => "Could not automatically detect the proper debugger for the given debuggee"@,
            DbgeeError::CommandMissing { command, package } => "'"@ + command@
                + "' is not in PATH. Did you install "@ + package@ + "?"@,
            DbgeeError::PythonMissing => "Neither 'python3' nor 'python' exist. Did you install python?"@,
            DbgeeError::DebugpyMissing => "'debugpy' module is not installed. Please install debugpy via pip."@,
            DbgeeError::Os { step } => match step {
                OsStep::Fork => "fork failed."@,
                OsStep::WaitForTrap => "Unexpected error. Waiting for SIGTRAP failed."@,
                OsStep::SendStop => "Unexpected error. Sending a signal failed"@,
                OsStep::Detach => "Unexpected error. Detach and stop failed"@,
                OsStep::Continue => "Unexpected error. Continuing the process failed"@,
                OsStep::SetTraceOptions => "Failed to set a ptrace option"@,
                OsStep::ReadForkEvent => "Failed to get the event of a forked process"@,
                OsStep::IgnoreInterrupt => "Failed to ignore the interrupt signal"@,
                OsStep::InstallInterruptHandler => "Failed to install the interrupt handler"@,
                OsStep::SpawnServer => "failed to launch the debugger. Perhaps is port 5679 being used?"@,
                OsStep::MakeFifo => "Failed to make a named pipe"@,
            },
            DbgeeError::DebuggeeGone => "The debuggee ended before it could be stopped"@,
            DbgeeError::DebugInfo { fault } => match fault {
                DebugInfoFault::CompDirUnresolved => "Failed to canonicalize comp_dir"@,
                DebugInfoFault::FileNameUnreadable => "Failed to get attr_string of a file path_name"@,
                DebugInfoFault::DirectoryUnreadable => "Failed to convert the directory slice to string"@,
                DebugInfoFault::DirectoryAbsent => "a directory corresponding to a file not found."@,
            },
            DbgeeError::RequestPipeUnknown => "fifo for attach_request cannot be built. Maybe $VSCODE_GIT_IPC_HANDLE has changed?"@,
            DbgeeError::RequestPipeAbsent { path } => "fifo for attach_request doesn't exist. Maybe using older extension?: "@
                + path@,
            DbgeeError::Uninitialized { debugger } => "[BUG] uninitialized "@ + debugger@,
            DbgeeError::QueryUndefined { debugger, query } => "[BUG] "@ + query@
                + " should not be called for "@ + debugger@,
            DbgeeError::TypeHintAbsent => "[BUG] debugger has no DebuggerTypeHint"@,
            DbgeeError::UnexpectedEvent => "[BUG] an outcome was reported out of turn"@,
        }
    }

    /// The exit code of the launcher after a failure.
    pub fn exit_code(&self) -> (code: i32)
        ensures
            code == EXIT_CODE_FAILURE,
    {
        EXIT_CODE_FAILURE
    }

    /// The text shown to the user.
    pub fn message(&self) -> (text: String)
        ensures
            text@ == self.message_text(),
    {
        match self {
            DbgeeError::DebuggeeNotExecutable { path } => String::from_str(
                "the debugee (path: '",
            ).concat(path.as_str()).concat("') is not an executable file."),
            DbgeeError::PathNotFound { name, path } => name.clone().concat(" (Path: '").concat(
                path.as_str(),
            ).concat("') does not exist."),
            DbgeeError::NotExecutable { name, path } => name.clone().concat(" (").concat(
                path.as_str(),
            ).concat(") is not executable"),
            DbgeeError::AlreadyWrapped { path } => path.clone().concat(
                " is already wrapped by dbgee. Did you set it already?",
            ),
            DbgeeError::NotWrapped { path } => path.clone().concat(
                " is not wrapped by dbgee. Did you unset it already?",
            ),
            DbgeeError::WrappingUnsupported { debugger } => String::from_str(
                "set and unset are not implemented yet for ",
            ).concat(debugger.as_str()),
            DbgeeError::NoDebuggerDetected => String::from_str(
                "Could not automatically detect the proper debugger for the given debuggee",
            ),
            DbgeeError::CommandMissing { command, package } => String::from_str("'").concat(
                command.as_str(),
            ).concat("' is not in PATH. Did you install ").concat(package.as_str()).concat("?"),
            DbgeeError::PythonMissing => String::from_str(
                "Neither 'python3' nor 'python' exist. Did you install python?",
            ),
            DbgeeError::DebugpyMissing => String::from_str(
                "'debugpy' module is not installed. Please install debugpy via pip.",
            ),
            DbgeeError::Os { step } => match step {
                OsStep::Fork => String::from_str("fork failed."),
                OsStep::WaitForTrap => String::from_str(
                    "Unexpected error. Waiting for SIGTRAP failed.",
                ),
                OsStep::SendStop => String::from_str("Unexpected error. Sending a signal failed"),
                OsStep::Detach => String::from_str("Unexpected error. Detach and stop failed"),
                OsStep::Continue => String::from_str(
                    "Unexpected error. Continuing the process failed",
                ),
                OsStep::SetTraceOptions => String::from_str("Failed to set a ptrace option"),
                OsStep::ReadForkEvent => String::from_str(
                    "Failed to get the event of a forked process",
                ),
                OsStep::IgnoreInterrupt => String::from_str(
                    "Failed to ignore the interrupt signal",
                ),
                OsStep::InstallInterruptHandler => String::from_str(
                    "Failed to install the interrupt handler",
                ),
                OsStep::SpawnServer => String::from_str(
                    "failed to launch the debugger. Perhaps is port 5679 being used?",
                ),
                OsStep::MakeFifo => String::from_str("Failed to make a named pipe"),
            },
            DbgeeError::DebuggeeGone => String::from_str(
                "The debuggee ended before it could be stopped",
            ),
            DbgeeError::DebugInfo { fault } => match fault {
                DebugInfoFault::CompDirUnresolved => String::from_str(
                    "Failed to canonicalize comp_dir",
                ),
                DebugInfoFault::FileNameUnreadable => String::from_str(
                    "Failed to get attr_string of a file path_name",
                ),
                DebugInfoFault::DirectoryUnreadable => String::from_str(
                    "Failed to convert the directory slice to string",
                ),
                DebugInfoFault::DirectoryAbsent => String::from_str(
                    "a directory corresponding to a file not found.",
                ),
            },
            DbgeeError::RequestPipeUnknown => String::from_str(
                "fifo for attach_request cannot be built. Maybe $VSCODE_GIT_IPC_HANDLE has changed?",
            ),
            DbgeeError::RequestPipeAbsent { path } => String::from_str(
                "fifo for attach_request doesn't exist. Maybe using older extension?: ",
            ).concat(path.as_str()),
            DbgeeError::Uninitialized { debugger } => String::from_str(
                "[BUG] uninitialized ",
            ).concat(debugger.as_str()),
            DbgeeError::QueryUndefined { debugger, query } => String::from_str("[BUG] ").concat(
                query.as_str(),
            ).concat(" should not be called for ").concat(debugger.as_str()),
            DbgeeError::TypeHintAbsent => String::from_str(
                "[BUG] debugger has no DebuggerTypeHint",
            ),
            DbgeeError::UnexpectedEvent => String::from_str(
                "[BUG] an outcome was reported out of turn",
            ),
        }
    }
}

/// The message of every internal bug begins with the mark.
pub proof fn lemma_internal_bugs_are_marked(e: DbgeeError)
    requires
        e.kind_of() == ErrorKind::InternalBug,
    ensures
        e.message_text().len() >= BUG_MARK@.len(),
        e.message_text().subrange(0, BUG_MARK@.len() as int) == BUG_MARK@,
{
    reveal_strlit("[BUG]");
    reveal_strlit("[BUG] uninitialized ");
    reveal_strlit("[BUG] ");
    reveal_strlit("[BUG] debugger has no DebuggerTypeHint");
    reveal_strlit("[BUG] an outcome was reported out of turn");
    assert(e.message_text().subrange(0, 5) =~= BUG_MARK@);
}

} // verus!
