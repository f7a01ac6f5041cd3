//! The debugger adapters: how each backend is started, and what it tells
//! about the way to attach to the debuggee.

use vstd::prelude::*;
use vstd::string::*;
use crate::attach::{AttachInformation, AttachInformationKey};
use crate::error::{DbgeeError, ErrorKind};
use crate::file_helper::{is_path_not_found, FileProbe};
use crate::shim::{get_path_of_unset_debuggee, unset_path, Target};
use crate::text::{decimal, decimal_text, extend_texts, lemma_decimal_nonempty, push_text, texts};

verus! {

/// The port on which a debugger server listens.
pub const DEBUGGER_PORT: i32 = 5679;

/// The seconds that a debugger server is given to begin to listen.
pub const SERVER_STARTUP_SECONDS: u64 = 1;

/// The file that receives the number of the stopped process.
pub const PID_FILE: &'static str = "/tmp/dbgee_pid";

/// Which backend commands the search path offers, and whether the Python
/// interpreter that would be used can import `debugpy`.
#[derive(Debug, Clone, Copy, PartialEq, Eq, Structural)]
pub struct Backends {
    pub gdb: bool,
    pub lldb: bool,
    pub dlv: bool,
    pub python3: bool,
    pub python: bool,
    pub debugpy: bool,
}

/// The two debuggers that attach to a process by its number.
#[derive(Debug, Clone, Copy, PartialEq, Eq, Structural)]
pub enum GdbStyle {
    /// gdb, with its text user interface.
    Gdb,
    /// lldb.
    Lldb,
}

impl GdbStyle {
    /// The command of the debugger.
    pub open spec fn command_text(self) -> Seq<char> {
        match self {
            GdbStyle::Gdb => "gdb"@,
            GdbStyle::Lldb => "lldb"@,
        }
    }

    /// The command of the debugger.
    pub fn command(&self) -> (name: &'static str)
        ensures
            name@ == self.command_text(),
    {
        match self {
            GdbStyle::Gdb => "gdb",
            GdbStyle::Lldb => "lldb",
        }
    }
}

/// Maker of the gdb adapter.
#[derive(Debug, Clone, Copy, PartialEq, Eq)]
pub struct GdbDebugger {}

/// Maker of the lldb adapter.
#[derive(Debug, Clone, Copy, PartialEq, Eq)]
pub struct LldbDebugger {}

/// Adapter for gdb and lldb, which attach to a stopped process.
#[derive(Debug, Clone, PartialEq, Eq)]
pub struct GdbCompatibleDebugger {
    pub debugger_name: String,
    pub debuggee_pid: Option<i32>,
    pub debuggee_path: Option<String>,
    pub style: GdbStyle,
}

/// Adapter for Delve, which runs the debuggee under its own server.
#[derive(Debug, Clone, PartialEq, Eq)]
pub struct DelveDebugger {
    pub port: Option<i32>,
}

/// Adapter of last resort: stop the debuggee and write down its number.
#[derive(Debug, Clone, Copy, PartialEq, Eq)]
pub struct StopAndWritePidDebugger {}

/// Adapter for debugpy, which runs a Python debuggee under its own server.
#[derive(Debug, Clone, PartialEq, Eq)]
pub struct PythonDebugger {
    pub python_command: String,
    pub port: Option<i32>,
}

/// How the debuggee is brought up.
#[derive(Debug, Clone, PartialEq, Eq)]
pub enum LaunchPlan {
    /// Start the debuggee itself, stopped at its entry. The first word is
    /// the program.
    ControlledStart { argv: Vec<String> },
    /// Start a debugger server that runs the debuggee, ignore the interrupt
    /// signal, and give the server [`SERVER_STARTUP_SECONDS`] to listen.
    Server { program: String, args: Vec<String> },
}

/// One step of a launch. The steps of a plan are taken in order, each after
/// the one before has succeeded.
#[derive(Debug, Clone, Copy, PartialEq, Eq, Structural)]
pub enum LaunchStep {
    /// Start the program of the plan, stopped at its entry.
    ControlledStart,
    /// Record the stopped process with the adapter.
    Record,
    /// Start the server of the plan.
    SpawnServer,
    /// Ignore the interrupt signal, so that the launcher outlives an
    /// interrupt that is meant for the debuggee.
    IgnoreInterrupt,
    /// Wait, so that the server can begin to listen.
    Sleep { seconds: u64 },
    /// Hand the debuggee over as the adapter's `handoff` says.
    HandOver,
}

/// The steps of a plan: the debuggee is handed over once, and last; a
/// server has been given its time to listen by then.
pub open spec fn steps_of(plan: LaunchPlan) -> Seq<LaunchStep> {
    match plan {
        LaunchPlan::ControlledStart { argv } => seq![
            LaunchStep::ControlledStart,
            LaunchStep::Record,
            LaunchStep::HandOver,
        ],
        LaunchPlan::Server { program, args } => seq![
            LaunchStep::SpawnServer,
            LaunchStep::IgnoreInterrupt,
            LaunchStep::Sleep { seconds: SERVER_STARTUP_SECONDS },
            LaunchStep::HandOver,
        ],
    }
}

/// The steps that carry a plan out, in order.
pub fn launch_steps(plan: &LaunchPlan) -> (steps: Vec<LaunchStep>)
    ensures
        steps@ == steps_of(*plan),
{
    let mut steps: Vec<LaunchStep> = Vec::new();
    match plan {
        LaunchPlan::ControlledStart { .. } => {
            steps.push(LaunchStep::ControlledStart);
            steps.push(LaunchStep::Record);
            steps.push(LaunchStep::HandOver);
        },
        LaunchPlan::Server { .. } => {
            steps.push(LaunchStep::SpawnServer);
            steps.push(LaunchStep::IgnoreInterrupt);
            steps.push(LaunchStep::Sleep { seconds: SERVER_STARTUP_SECONDS });
            steps.push(LaunchStep::HandOver);
        },
    }
    assert(steps@ =~= steps_of(*plan));
    steps
}

/// Whatever the plan, the debuggee is handed over once, as the last step.
/// A server is started first and has had its time to listen just before.
pub proof fn lemma_hand_over_once_and_last(plan: LaunchPlan)
    ensures
        steps_of(plan).len() > 0,
        steps_of(plan).last() == LaunchStep::HandOver,
        forall|i: int|
            0 <= i < steps_of(plan).len() - 1 ==> steps_of(plan)[i] != LaunchStep::HandOver,
        plan is Server ==> steps_of(plan)[0] == LaunchStep::SpawnServer && steps_of(plan)[
            steps_of(plan).len() - 2
        ] == (LaunchStep::Sleep { seconds: SERVER_STARTUP_SECONDS }),
{
}

/// The steps after an attach: those of the plan that the attach asked for,
/// or the hand over alone where it asked for none. Either way the debuggee
/// is handed over once, and last.
pub open spec fn attach_steps_of(plan: Option<LaunchPlan>) -> Seq<LaunchStep> {
    match plan {
        Some(p) => steps_of(p),
        None => seq![LaunchStep::HandOver],
    }
}

/// The steps that follow an attach, in order.
pub fn attach_steps(plan: &Option<LaunchPlan>) -> (steps: Vec<LaunchStep>)
    ensures
        steps@ == attach_steps_of(*plan),
{
    match plan {
        Some(p) => launch_steps(p),
        None => {
            let mut steps: Vec<LaunchStep> = Vec::new();
            steps.push(LaunchStep::HandOver);
            assert(steps@ =~= attach_steps_of(*plan));
            steps
        },
    }
}

/// The failure for a command that is not on the search path.
pub open spec fn is_command_missing(e: DbgeeError, command: Seq<char>, package: Seq<char>) -> bool {
    e matches DbgeeError::CommandMissing { command: c, package: p } && c@ == command && p@
        == package
}

/// The failure of a query on an adapter that has launched nothing yet.
pub open spec fn is_uninitialized(e: DbgeeError, debugger: Seq<char>) -> bool {
    e matches DbgeeError::Uninitialized { debugger: d } && d@ == debugger
}

/// The failure of a query that an adapter does not have.
pub open spec fn is_undefined(e: DbgeeError, debugger: Seq<char>, query: Seq<char>) -> bool {
    e matches DbgeeError::QueryUndefined { debugger: d, query: q } && d@ == debugger && q@
        == query
}

impl GdbCompatibleDebugger {
    /// The adapter for the debugger of the given name, if its command is
    /// available.
    pub fn new(debugger_name: &str, style: GdbStyle, available: bool) -> (built: Result<
        GdbCompatibleDebugger,
        DbgeeError,
    >)
        ensures
            available ==> (built matches Ok(d) && d.debugger_name@ == debugger_name@ && d.style
                == style && d.debuggee_pid.is_none() && d.debuggee_path.is_none()),
            !available ==> (built matches Err(e) && is_command_missing(
                e,
                debugger_name@,
                debugger_name@,
            )),
    {
        if !available {
            return Err(
                DbgeeError::CommandMissing {
                    command: String::from_str(debugger_name),
                    package: String::from_str(debugger_name),
                },
            );
        }
        Ok(
            GdbCompatibleDebugger {
                debugger_name: String::from_str(debugger_name),
                debuggee_pid: None,
                debuggee_path: None,
                style,
            },
        )
    }

    /// The words that start the debuggee: the program, then its arguments.
    pub fn run(&self, debuggee: &str, args: &Vec<String>) -> (plan: LaunchPlan)
        ensures
            plan matches LaunchPlan::ControlledStart { argv } && texts(argv@) == seq![debuggee@]
                + texts(args@),
    {
        controlled_start(debuggee, args)
    }

    /// Records the stopped debuggee: its number and the path of its program.
    pub fn attach(&mut self, pid: i32, debuggee: &str)
        ensures
            final(self).debuggee_pid == Some(pid),
            final(self).debuggee_path matches Some(p) && p@ == debuggee@,
            final(self).debugger_name == old(self).debugger_name,
            final(self).style == old(self).style,
    {
        self.debuggee_pid = Some(pid);
        self.debuggee_path = Some(String::from_str(debuggee));
    }

    /// The words of the interactive attach, once a debuggee was recorded:
    /// the debugger, for gdb its text user interface, and the process.
    pub open spec fn attach_words(self) -> Option<Seq<Seq<char>>> {
        if self.debuggee_pid.is_some() && self.debuggee_path.is_some() {
            let pid = decimal_text(self.debuggee_pid->Some_0 as int);
            match self.style {
                GdbStyle::Gdb => Some(seq!["gdb"@, "-tui"@, "-p"@, pid]),
                GdbStyle::Lldb => Some(seq!["lldb"@, "-p"@, pid]),
            }
        } else {
            None
        }
    }

    /// The command line of the interactive attach.
    pub fn build_attach_commandline(&self) -> (words: Result<Vec<String>, DbgeeError>)
        ensures
            match self.attach_words() {
                Some(w) => words matches Ok(v) && texts(v@) == w,
                None => words matches Err(e) && is_uninitialized(e, "GdbCompatibleDebugger"@),
            },
    {
        let pid = match self.debuggee_pid {
            Some(pid) => pid,
            None => {
                return Err(uninitialized("GdbCompatibleDebugger"));
            },
        };
        if self.debuggee_path.is_none() {
            return Err(uninitialized("GdbCompatibleDebugger"));
        }
        let mut words: Vec<String> = Vec::new();
        match self.style {
            GdbStyle::Gdb => {
                push_text(&mut words, "gdb");
                push_text(&mut words, "-tui");
            },
            GdbStyle::Lldb => {
                push_text(&mut words, "lldb");
            },
        }
        push_text(&mut words, "-p");
        push_text(&mut words, decimal(pid).as_str());
        assert(texts(words@) =~= self.attach_words()->Some_0);
        Ok(words)
    }

    /// The attach coordinates, once a debuggee was recorded: the name of the
    /// debugger, the process, and the path of the program.
    pub open spec fn coordinates(self, key: AttachInformationKey) -> Option<Seq<char>> {
        match key {
            AttachInformationKey::DebuggerTypeHint => Some(self.debugger_name@),
            AttachInformationKey::Pid => Some(decimal_text(self.debuggee_pid->Some_0 as int)),
            AttachInformationKey::ProgramName => Some(self.debuggee_path->Some_0@),
            AttachInformationKey::DebuggerPort => None,
        }
    }

    /// The attach coordinates.
    pub fn build_attach_information(&self) -> (info: Result<AttachInformation, DbgeeError>)
        ensures
            self.debuggee_pid.is_some() && self.debuggee_path.is_some() ==> (info matches Ok(i)
                && forall|key: AttachInformationKey| i.lookup(key) == self.coordinates(key)),
            !(self.debuggee_pid.is_some() && self.debuggee_path.is_some()) ==> (info matches Err(
                e,
            ) && is_uninitialized(e, "GdbCompatibleDebugger"@)),
    {
        let pid = match self.debuggee_pid {
            Some(pid) => pid,
            None => {
                return Err(uninitialized("GdbCompatibleDebugger"));
            },
        };
        let path = match &self.debuggee_path {
            Some(path) => path,
            None => {
                return Err(uninitialized("GdbCompatibleDebugger"));
            },
        };
        let mut info = AttachInformation::new();
        info.insert(AttachInformationKey::DebuggerTypeHint, self.debugger_name.clone());
        info.insert(AttachInformationKey::Pid, decimal(pid));
        info.insert(AttachInformationKey::ProgramName, path.clone());
        Ok(info)
    }

    /// Some file of the chain is a native executable, and every file before
    /// it is a shim: each file of the chain is the backup of the one before.
    pub open spec fn supports(chain: Seq<FileProbe>) -> bool
        decreases chain.len(),
    {
        if chain.len() == 0 {
            false
        } else if chain[0].native() {
            true
        } else if chain[0].wrapped_shell() {
            Self::supports(chain.skip(1))
        } else {
            false
        }
    }

    /// Whether the debuggee is surely one for this debugger: a native
    /// executable, or a shim whose backup is.
    pub fn is_debuggee_surely_supported(&self, chain: &Vec<FileProbe>) -> (supported: bool)
        ensures
            supported == Self::supports(chain@),
    {
        let mut i: usize = 0;
        assert(chain@.skip(0) =~= chain@);
        while i < chain.len()
            invariant
                i <= chain.len(),
                Self::supports(chain@) == Self::supports(chain@.skip(i as int)),
            decreases chain.len() - i,
        {
            let ghost rest = chain@.skip(i as int);
            assert(rest[0] == chain@[i as int]);
            assert(rest.skip(1) =~= chain@.skip(i + 1));
            if chain[i].is_native() {
                return true;
            }
            if !chain[i].is_wrapped_shell() {
                return false;
            }
            i = i + 1;
        }
        false
    }
}

fn uninitialized(debugger: &str) -> (e: DbgeeError)
    ensures
        is_uninitialized(e, debugger@),
        e.kind_of() == ErrorKind::InternalBug,
{
    DbgeeError::Uninitialized { debugger: String::from_str(debugger) }
}

fn undefined(debugger: &str, query: &str) -> (e: DbgeeError)
    ensures
        is_undefined(e, debugger@, query@),
        e.kind_of() == ErrorKind::InternalBug,
{
    DbgeeError::QueryUndefined {
        debugger: String::from_str(debugger),
        query: String::from_str(query),
    }
}

fn controlled_start(debuggee: &str, args: &Vec<String>) -> (plan: LaunchPlan)
    ensures
        plan matches LaunchPlan::ControlledStart { argv } && texts(argv@) == seq![debuggee@]
            + texts(args@),
{
    let mut argv: Vec<String> = Vec::new();
    push_text(&mut argv, debuggee);
    extend_texts(&mut argv, args);
    assert(texts(argv@) =~= seq![debuggee@] + texts(args@));
    LaunchPlan::ControlledStart { argv }
}

impl GdbDebugger {
    /// The gdb adapter, if `gdb` is available.
    pub fn build(backends: &Backends) -> (built: Result<GdbCompatibleDebugger, DbgeeError>)
        ensures
            backends.gdb ==> (built matches Ok(d) && d.debugger_name@ == "gdb"@ && d.style
                == GdbStyle::Gdb && d.debuggee_pid.is_none() && d.debuggee_path.is_none()),
            !backends.gdb ==> (built matches Err(e) && is_command_missing(e, "gdb"@, "gdb"@)),
    {
        GdbCompatibleDebugger::new("gdb", GdbStyle::Gdb, backends.gdb)
    }
}

impl LldbDebugger {
    /// The lldb adapter, if `lldb` is available.
    pub fn build(backends: &Backends) -> (built: Result<GdbCompatibleDebugger, DbgeeError>)
        ensures
            backends.lldb ==> (built matches Ok(d) && d.debugger_name@ == "lldb"@ && d.style
                == GdbStyle::Lldb && d.debuggee_pid.is_none() && d.debuggee_path.is_none()),
            !backends.lldb ==> (built matches Err(e) && is_command_missing(e, "lldb"@, "lldb"@)),
    {
        GdbCompatibleDebugger::new("lldb", GdbStyle::Lldb, backends.lldb)
    }
}

/// `localhost:` and the port.
pub open spec fn local_address(port: i32) -> Seq<char> {
    "localhost:"@ + decimal_text(port as int)
}

/// The arguments of the Delve server for a debuggee.
pub open spec fn delve_server_args(debuggee: Seq<char>, args: Seq<Seq<char>>) -> Seq<Seq<char>> {
    seq![
        "exec"@,
        "--headless"@,
        "--log-dest"@,
        "/dev/null"@,
        "--api-version=2"@,
        "--listen"@,
        local_address(DEBUGGER_PORT),
        debuggee,
        "--"@,
    ] + args
}

/// The arguments of a Delve server that attaches to a running process.
pub open spec fn delve_attach_args(pid: i32) -> Seq<Seq<char>> {
    seq![
        "attach"@,
        "--headless"@,
        "--log-dest"@,
        "/dev/null"@,
        "--api-version=2"@,
        "--listen"@,
        local_address(DEBUGGER_PORT),
        decimal_text(pid as int),
    ]
}

impl DelveDebugger {
    /// The Delve adapter, if `dlv` is available.
    pub fn new(backends: &Backends) -> (built: Result<DelveDebugger, DbgeeError>)
        ensures
            backends.dlv ==> (built matches Ok(d) && d.port.is_none()),
            !backends.dlv ==> (built matches Err(e) && is_command_missing(e, "dlv"@, "delve"@)),
    {
        if !backends.dlv {
            return Err(
                DbgeeError::CommandMissing {
                    command: String::from_str("dlv"),
                    package: String::from_str("delve"),
                },
            );
        }
        Ok(DelveDebugger { port: None })
    }

    /// Plans the start of the Delve server for the debuggee and records the
    /// port on which it will listen.
    pub fn run(&mut self, debuggee: &str, args: &Vec<String>) -> (plan: LaunchPlan)
        ensures
            final(self).port == Some(DEBUGGER_PORT),
            plan matches LaunchPlan::Server { program, args: server_args } && program@ == "dlv"@
                && texts(server_args@) == delve_server_args(debuggee@, texts(args@)),
    {
        self.port = Some(DEBUGGER_PORT);
        let mut server_args: Vec<String> = Vec::new();
        push_text(&mut server_args, "exec");
        push_text(&mut server_args, "--headless");
        push_text(&mut server_args, "--log-dest");
        push_text(&mut server_args, "/dev/null");
        push_text(&mut server_args, "--api-version=2");
        push_text(&mut server_args, "--listen");
        let address = String::from_str("localhost:").concat(decimal(DEBUGGER_PORT).as_str());
        push_text(&mut server_args, address.as_str());
        push_text(&mut server_args, debuggee);
        push_text(&mut server_args, "--");
        extend_texts(&mut server_args, args);
        assert(texts(server_args@) =~= delve_server_args(debuggee@, texts(args@)));
        LaunchPlan::Server { program: String::from_str("dlv"), args: server_args }
    }

    /// Plans the start of a Delve server that attaches to a running process
    /// and records the port on which it will listen.
    pub fn attach(&mut self, pid: i32) -> (plan: LaunchPlan)
        ensures
            final(self).port == Some(DEBUGGER_PORT),
            plan matches LaunchPlan::Server { program, args: server_args } && program@ == "dlv"@
                && texts(server_args@) == delve_attach_args(pid),
    {
        self.port = Some(DEBUGGER_PORT);
        let mut server_args: Vec<String> = Vec::new();
        push_text(&mut server_args, "attach");
        push_text(&mut server_args, "--headless");
        push_text(&mut server_args, "--log-dest");
        push_text(&mut server_args, "/dev/null");
        push_text(&mut server_args, "--api-version=2");
        push_text(&mut server_args, "--listen");
        let address = String::from_str("localhost:").concat(decimal(DEBUGGER_PORT).as_str());
        push_text(&mut server_args, address.as_str());
        push_text(&mut server_args, decimal(pid).as_str());
        assert(texts(server_args@) =~= delve_attach_args(pid));
        LaunchPlan::Server { program: String::from_str("dlv"), args: server_args }
    }

    /// The words of the interactive attach, once the server was planned.
    pub open spec fn attach_words(self) -> Option<Seq<Seq<char>>> {
        match self.port {
            Some(port) => Some(seq!["dlv"@, "connect"@, local_address(port)]),
            None => None,
        }
    }

    /// The command line of the interactive attach.
    pub fn build_attach_commandline(&self) -> (words: Result<Vec<String>, DbgeeError>)
        ensures
            match self.attach_words() {
                Some(w) => words matches Ok(v) && texts(v@) == w,
                None => words matches Err(e) && is_uninitialized(e, "DelveDebugger"@),
            },
    {
        let port = match self.port {
            Some(port) => port,
            None => {
                return Err(uninitialized("DelveDebugger"));
            },
        };
        let mut words: Vec<String> = Vec::new();
        push_text(&mut words, "dlv");
        push_text(&mut words, "connect");
        let address = String::from_str("localhost:").concat(decimal(port).as_str());
        push_text(&mut words, address.as_str());
        assert(texts(words@) =~= self.attach_words()->Some_0);
        Ok(words)
    }

    /// The attach coordinates, once the server was planned: the type hint
    /// `go` and the port.
    pub open spec fn coordinates(self, key: AttachInformationKey) -> Option<Seq<char>> {
        match key {
            AttachInformationKey::DebuggerTypeHint => Some("go"@),
            AttachInformationKey::DebuggerPort => Some(decimal_text(self.port->Some_0 as int)),
            _ => None,
        }
    }

    /// The attach coordinates.
    pub fn build_attach_information(&self) -> (info: Result<AttachInformation, DbgeeError>)
        ensures
            self.port.is_some() ==> (info matches Ok(i) && forall|key: AttachInformationKey|
                i.lookup(key) == self.coordinates(key)),
            self.port.is_none() ==> (info matches Err(e) && is_uninitialized(
                e,
                "DelveDebugger"@,
            )),
    {
        let port = match self.port {
            Some(port) => port,
            None => {
                return Err(uninitialized("DelveDebugger"));
            },
        };
        let mut info = AttachInformation::new();
        info.insert(AttachInformationKey::DebuggerTypeHint, String::from_str("go"));
        info.insert(AttachInformationKey::DebuggerPort, decimal(port));
        Ok(info)
    }

    /// Some file of the chain is a Go program, and every file before it is
    /// a shim: each file of the chain is the backup of the one before.
    pub open spec fn supports(chain: Seq<FileProbe>) -> bool
        decreases chain.len(),
    {
        if chain.len() == 0 {
            false
        } else if chain[0].go() {
            true
        } else if chain[0].wrapped_shell() {
            Self::supports(chain.skip(1))
        } else {
            false
        }
    }

    /// Whether the debuggee is surely one for Delve: a Go program, or a
    /// shim whose backup is.
    pub fn is_debuggee_surely_supported(&self, chain: &Vec<FileProbe>) -> (supported: bool)
        ensures
            supported == Self::supports(chain@),
    {
        let mut i: usize = 0;
        assert(chain@.skip(0) =~= chain@);
        while i < chain.len()
            invariant
                i <= chain.len(),
                Self::supports(chain@) == Self::supports(chain@.skip(i as int)),
            decreases chain.len() - i,
        {
            let ghost rest = chain@.skip(i as int);
            assert(rest[0] == chain@[i as int]);
            assert(rest.skip(1) =~= chain@.skip(i + 1));
            if chain[i].is_go() {
                return true;
            }
            if !chain[i].is_wrapped_shell() {
                return false;
            }
            i = i + 1;
        }
        false
    }
}

impl StopAndWritePidDebugger {
    /// The adapter of last resort.
    pub fn new() -> (built: StopAndWritePidDebugger) {
        StopAndWritePidDebugger {  }
    }

    /// The words that start the debuggee: the program, then its arguments.
    pub fn run(&self, debuggee: &str, args: &Vec<String>) -> (plan: LaunchPlan)
        ensures
            plan matches LaunchPlan::ControlledStart { argv } && texts(argv@) == seq![debuggee@]
                + texts(args@),
    {
        controlled_start(debuggee, args)
    }

    /// What is written to the file of the process number: the number of the
    /// stopped debuggee in decimal.
    pub fn pid_file_content(&self, pid: i32) -> (content: String)
        ensures
            content@ == decimal_text(pid as int),
    {
        decimal(pid)
    }

    /// This adapter has no attach command: the query is an internal bug.
    pub fn build_attach_commandline(&self) -> (words: Result<Vec<String>, DbgeeError>)
        ensures
            words matches Err(e) && is_undefined(
                e,
                "StopAndWritePidDebugger"@,
                "build_attach_commandline"@,
            ) && e.kind_of() == ErrorKind::InternalBug,
    {
        Err(undefined("StopAndWritePidDebugger", "build_attach_commandline"))
    }

    /// This adapter has no attach coordinates: the query is an internal bug.
    pub fn build_attach_information(&self) -> (info: Result<AttachInformation, DbgeeError>)
        ensures
            info matches Err(e) && is_undefined(
                e,
                "StopAndWritePidDebugger"@,
                "build_attach_information"@,
            ) && e.kind_of() == ErrorKind::InternalBug,
    {
        Err(undefined("StopAndWritePidDebugger", "build_attach_information"))
    }

    /// Any debuggee will do.
    pub fn is_debuggee_surely_supported(&self, chain: &Vec<FileProbe>) -> (supported: bool)
        ensures
            supported,
    {
        true
    }
}

/// The arguments of the Python interpreter that runs a debuggee under the
/// debugpy server.
pub open spec fn debugpy_server_args(debuggee: Seq<char>, args: Seq<Seq<char>>) -> Seq<
    Seq<char>,
> {
    seq![
        "-m"@,
        "debugpy"@,
        "--wait-for-client"@,
        "--listen"@,
        decimal_text(DEBUGGER_PORT as int),
        debuggee,
    ] + args
}

/// The arguments of the Python interpreter that puts a debugpy server into
/// a running process.
pub open spec fn debugpy_attach_args(pid: i32) -> Seq<Seq<char>> {
    seq![
        "-m"@,
        "debugpy"@,
        "--listen"@,
        decimal_text(DEBUGGER_PORT as int),
        "--pid"@,
        decimal_text(pid as int),
    ]
}

impl PythonDebugger {
    /// The interpreter to use: `python3` where it exists, else `python`.
    pub open spec fn interpreter(backends: Backends) -> Option<Seq<char>> {
        if backends.python3 {
            Some("python3"@)
        } else if backends.python {
            Some("python"@)
        } else {
            None
        }
    }

    /// The interpreter with which to try the import of `debugpy`, if there
    /// is an interpreter.
    pub fn choose_interpreter(backends: &Backends) -> (chosen: Result<String, DbgeeError>)
        ensures
            match Self::interpreter(*backends) {
                Some(name) => chosen matches Ok(c) && c@ == name,
                None => chosen matches Err(DbgeeError::PythonMissing),
            },
    {
        if backends.python3 {
            Ok(String::from_str("python3"))
        } else if backends.python {
            Ok(String::from_str("python"))
        } else {
            Err(DbgeeError::PythonMissing)
        }
    }

    /// The debugpy adapter, if there is an interpreter and it can import
    /// `debugpy`.
    pub fn new(backends: &Backends) -> (built: Result<PythonDebugger, DbgeeError>)
        ensures
            match Self::interpreter(*backends) {
                Some(name) => if backends.debugpy {
                    built matches Ok(d) && d.python_command@ == name && d.port.is_none()
                } else {
                    built matches Err(DbgeeError::DebugpyMissing)
                },
                None => built matches Err(DbgeeError::PythonMissing),
            },
    {
        let python_command = Self::choose_interpreter(backends)?;
        if !backends.debugpy {
            return Err(DbgeeError::DebugpyMissing);
        }
        Ok(PythonDebugger { python_command, port: None })
    }

    /// Plans the start of the debugpy server for the debuggee and records
    /// the port on which it will listen.
    pub fn run(&mut self, debuggee: &str, args: &Vec<String>) -> (plan: LaunchPlan)
        ensures
            final(self).port == Some(DEBUGGER_PORT),
            final(self).python_command == old(self).python_command,
            plan matches LaunchPlan::Server { program, args: server_args } && program@ == old(
                self,
            ).python_command@ && texts(server_args@) == debugpy_server_args(
                debuggee@,
                texts(args@),
            ),
    {
        self.port = Some(DEBUGGER_PORT);
        let mut server_args: Vec<String> = Vec::new();
        push_text(&mut server_args, "-m");
        push_text(&mut server_args, "debugpy");
        push_text(&mut server_args, "--wait-for-client");
        push_text(&mut server_args, "--listen");
        push_text(&mut server_args, decimal(DEBUGGER_PORT).as_str());
        push_text(&mut server_args, debuggee);
        extend_texts(&mut server_args, args);
        assert(texts(server_args@) =~= debugpy_server_args(debuggee@, texts(args@)));
        LaunchPlan::Server { program: self.python_command.clone(), args: server_args }
    }

    /// Plans the start of a debugpy server inside a running process and
    /// records the port on which it will listen.
    pub fn attach(&mut self, pid: i32) -> (plan: LaunchPlan)
        ensures
            final(self).port == Some(DEBUGGER_PORT),
            final(self).python_command == old(self).python_command,
            plan matches LaunchPlan::Server { program, args: server_args } && program@ == old(
                self,
            ).python_command@ && texts(server_args@) == debugpy_attach_args(pid),
    {
        self.port = Some(DEBUGGER_PORT);
        let mut server_args: Vec<String> = Vec::new();
        push_text(&mut server_args, "-m");
        push_text(&mut server_args, "debugpy");
        push_text(&mut server_args, "--listen");
        push_text(&mut server_args, decimal(DEBUGGER_PORT).as_str());
        push_text(&mut server_args, "--pid");
        push_text(&mut server_args, decimal(pid).as_str());
        assert(texts(server_args@) =~= debugpy_attach_args(pid));
        LaunchPlan::Server { program: self.python_command.clone(), args: server_args }
    }

    /// The words of the interactive attach, once the server was planned:
    /// the interpreter, its debugpy module, and the address of the server.
    pub open spec fn attach_words(self) -> Option<Seq<Seq<char>>> {
        match self.port {
            Some(port) => Some(
                seq![self.python_command@, "-m"@, "debugpy"@, "--connect"@, local_address(port)],
            ),
            None => None,
        }
    }

    /// The command line of the interactive attach.
    pub fn build_attach_commandline(&self) -> (words: Result<Vec<String>, DbgeeError>)
        ensures
            match self.attach_words() {
                Some(w) => words matches Ok(v) && texts(v@) == w,
                None => words matches Err(e) && is_uninitialized(e, "PythonDebugger"@),
            },
    {
        let port = match self.port {
            Some(port) => port,
            None => {
                return Err(uninitialized("PythonDebugger"));
            },
        };
        let mut words: Vec<String> = Vec::new();
        push_text(&mut words, self.python_command.as_str());
        push_text(&mut words, "-m");
        push_text(&mut words, "debugpy");
        push_text(&mut words, "--connect");
        let address = String::from_str("localhost:").concat(decimal(port).as_str());
        push_text(&mut words, address.as_str());
        assert(texts(words@) =~= self.attach_words()->Some_0);
        Ok(words)
    }

    /// The attach coordinates, once the server was planned: the type hint
    /// `python` and the port.
    pub open spec fn coordinates(self, key: AttachInformationKey) -> Option<Seq<char>> {
        match key {
            AttachInformationKey::DebuggerTypeHint => Some("python"@),
            AttachInformationKey::DebuggerPort => Some(decimal_text(self.port->Some_0 as int)),
            _ => None,
        }
    }

    /// The attach coordinates.
    pub fn build_attach_information(&self) -> (info: Result<AttachInformation, DbgeeError>)
        ensures
            self.port.is_some() ==> (info matches Ok(i) && forall|key: AttachInformationKey|
                i.lookup(key) == self.coordinates(key)),
            self.port.is_none() ==> (info matches Err(e) && is_uninitialized(
                e,
                "PythonDebugger"@,
            )),
    {
        let port = match self.port {
            Some(port) => port,
            None => {
                return Err(uninitialized("PythonDebugger"));
            },
        };
        let mut info = AttachInformation::new();
        info.insert(AttachInformationKey::DebuggerTypeHint, String::from_str("python"));
        info.insert(AttachInformationKey::DebuggerPort, decimal(port));
        Ok(info)
    }

    /// Whether the debuggee is surely one for debugpy: a Python script.
    pub fn is_debuggee_surely_supported(&self, chain: &Vec<FileProbe>) -> (supported: bool)
        ensures
            supported == (chain@.len() > 0 && chain@[0].python()),
    {
        if chain.len() == 0 {
            return false;
        }
        chain[0].is_python()
    }
}

/// Any of the adapters.
#[derive(Debug, Clone, PartialEq, Eq)]
pub enum Debugger {
    GdbCompatible(GdbCompatibleDebugger),
    Delve(DelveDebugger),
    Python(PythonDebugger),
    StopAndWritePid(StopAndWritePidDebugger),
}

/// What follows the launch of the debuggee.
#[derive(Debug, Clone, PartialEq, Eq)]
pub enum Handoff {
    /// Open the terminal that was asked for.
    OpenTerminal,
    /// Open the IDE terminal whatever was asked for; `notice` tells the user
    /// that another terminal was asked for and is not supported.
    OpenIde { notice: bool },
    /// Write the number of the stopped process to a file and tell the user.
    WritePidFile { path: String, content: String },
}

impl Debugger {
    /// A launch was completed: a stopped debuggee was recorded, or a server
    /// was planned.
    pub open spec fn launched(self) -> bool {
        match self {
            Debugger::GdbCompatible(d) => d.debuggee_pid.is_some() && d.debuggee_path.is_some(),
            Debugger::Delve(d) => d.port.is_some(),
            Debugger::Python(d) => d.port.is_some(),
            Debugger::StopAndWritePid(d) => true,
        }
    }

    /// The words of the interactive attach, where the adapter has them.
    pub open spec fn attach_words(self) -> Option<Seq<Seq<char>>> {
        match self {
            Debugger::GdbCompatible(d) => d.attach_words(),
            Debugger::Delve(d) => d.attach_words(),
            Debugger::Python(d) => d.attach_words(),
            Debugger::StopAndWritePid(d) => None,
        }
    }

    /// The failure of the query for the attach command on an adapter that
    /// has none: an internal bug that names the adapter.
    pub open spec fn command_refusal(self, e: DbgeeError) -> bool {
        match self {
            Debugger::GdbCompatible(d) => is_uninitialized(e, "GdbCompatibleDebugger"@),
            Debugger::Delve(d) => is_uninitialized(e, "DelveDebugger"@),
            Debugger::Python(d) => is_uninitialized(e, "PythonDebugger"@),
            Debugger::StopAndWritePid(d) => is_undefined(
                e,
                "StopAndWritePidDebugger"@,
                "build_attach_commandline"@,
            ),
        }
    }

    /// The failure of the query for the attach coordinates on an adapter
    /// that has none: an internal bug that names the adapter.
    pub open spec fn information_refusal(self, e: DbgeeError) -> bool {
        match self {
            Debugger::GdbCompatible(d) => is_uninitialized(e, "GdbCompatibleDebugger"@),
            Debugger::Delve(d) => is_uninitialized(e, "DelveDebugger"@),
            Debugger::Python(d) => is_uninitialized(e, "PythonDebugger"@),
            Debugger::StopAndWritePid(d) => is_undefined(
                e,
                "StopAndWritePidDebugger"@,
                "build_attach_information"@,
            ),
        }
    }

    /// Whether the adapter has attach coordinates.
    pub open spec fn has_coordinates(self) -> bool {
        self.launched() && !(self is StopAndWritePid)
    }

    /// The attach coordinates of an adapter that has them.
    pub open spec fn coordinates(self, key: AttachInformationKey) -> Option<Seq<char>> {
        match self {
            Debugger::GdbCompatible(d) => d.coordinates(key),
            Debugger::Delve(d) => d.coordinates(key),
            Debugger::Python(d) => d.coordinates(key),
            Debugger::StopAndWritePid(d) => None,
        }
    }

    /// Plans the launch of the debuggee. The server adapters record the port
    /// of their server.
    pub fn run(&mut self, debuggee: &str, args: &Vec<String>) -> (plan: LaunchPlan)
        ensures
            match *old(self) {
                Debugger::GdbCompatible(d) => *final(self) == *old(self) && (
                plan matches LaunchPlan::ControlledStart { argv } && texts(argv@) == seq![
                    debuggee@,
                ] + texts(args@)),
                Debugger::StopAndWritePid(d) => *final(self) == *old(self) && (
                plan matches LaunchPlan::ControlledStart { argv } && texts(argv@) == seq![
                    debuggee@,
                ] + texts(args@)),
                Debugger::Delve(d) => *final(self) matches Debugger::Delve(after) && after.port
                    == Some(DEBUGGER_PORT) && (plan matches LaunchPlan::Server {
                    program,
                    args: server_args,
                } && program@ == "dlv"@ && texts(server_args@) == delve_server_args(
                    debuggee@,
                    texts(args@),
                )),
                Debugger::Python(d) => *final(self) matches Debugger::Python(after) && after.port
                    == Some(DEBUGGER_PORT) && after.python_command == d.python_command && (
                plan matches LaunchPlan::Server { program, args: server_args } && program@
                    == d.python_command@ && texts(server_args@) == debugpy_server_args(
                    debuggee@,
                    texts(args@),
                )),
            },
            *final(self) is GdbCompatible || final(self).launched(),
    {
        match self {
            Debugger::GdbCompatible(d) => d.run(debuggee, args),
            Debugger::Delve(d) => d.run(debuggee, args),
            Debugger::Python(d) => d.run(debuggee, args),
            Debugger::StopAndWritePid(d) => d.run(debuggee, args),
        }
    }

    /// The path of the program to launch for a target: debugpy runs the
    /// script as it was named; every other adapter starts the program behind
    /// the target, which is its backup where the target is a shim.
    pub fn launch_path(&self, target: &Target) -> (path: Result<String, DbgeeError>)
        ensures
            match *self {
                Debugger::Python(d) => path matches Ok(p) && p@ == target.path.given@,
                _ => match target.path.canonical {
                    Some(c) => path matches Ok(p) && p@ == unset_path(*target),
                    None => path matches Err(e) && is_path_not_found(
                        e,
                        "debuggee"@,
                        target.path.given@,
                    ),
                },
            },
    {
        match self {
            Debugger::Python(_) => Ok(target.path.given.clone()),
            _ => get_path_of_unset_debuggee(target),
        }
    }

    /// Records the process that a controlled start has left stopped, with
    /// an adapter that attaches to a process; the other adapters have
    /// nothing to record and stay as they are.
    pub fn started(&mut self, pid: i32, debuggee: &str)
        ensures
            match *old(self) {
                Debugger::GdbCompatible(d) => *final(self) matches Debugger::GdbCompatible(after)
                    && after.debuggee_pid == Some(pid) && after.debugger_name == d.debugger_name
                    && after.style == d.style && (after.debuggee_path matches Some(p) && p@
                    == debuggee@),
                _ => *final(self) == *old(self),
            },
            (*old(self) is GdbCompatible || old(self).launched()) ==> final(self).launched(),
    {
        match self {
            Debugger::GdbCompatible(d) => {
                d.attach(pid, debuggee);
            },
            _ => {},
        }
    }

    /// What attaching to the running process `pid` makes of the adapter:
    /// gdb and lldb record the process and its program, the server
    /// adapters record the port of their server, the last resort stays as
    /// it is.
    pub open spec fn is_attached(self, before: Debugger, pid: i32, debuggee: Seq<char>) -> bool {
        match before {
            Debugger::GdbCompatible(d) => self matches Debugger::GdbCompatible(after)
                && after.debuggee_pid == Some(pid) && after.debugger_name == d.debugger_name
                && after.style == d.style && (after.debuggee_path matches Some(p) && p@
                == debuggee),
            Debugger::Delve(d) => self matches Debugger::Delve(after) && after.port == Some(
                DEBUGGER_PORT,
            ),
            Debugger::Python(d) => self matches Debugger::Python(after) && after.port == Some(
                DEBUGGER_PORT,
            ) && after.python_command == d.python_command,
            Debugger::StopAndWritePid(d) => self == before,
        }
    }

    /// The server that attaching to the running process `pid` asks for:
    /// none for the adapters that attach by themselves, a server that
    /// attaches to the process for Delve and debugpy.
    pub open spec fn is_attach_plan(before: Debugger, pid: i32, plan: Option<LaunchPlan>) -> bool {
        match before {
            Debugger::GdbCompatible(d) => plan.is_none(),
            Debugger::StopAndWritePid(d) => plan.is_none(),
            Debugger::Delve(d) => plan matches Some(
                LaunchPlan::Server { program, args: server_args },
            ) && program@ == "dlv"@ && texts(server_args@) == delve_attach_args(pid),
            Debugger::Python(d) => plan matches Some(
                LaunchPlan::Server { program, args: server_args },
            ) && program@ == d.python_command@ && texts(server_args@) == debugpy_attach_args(pid),
        }
    }

    /// Attaches the adapter to a process that is already running and
    /// stopped: the debuggee is not started. Where a plan comes back, its
    /// server is started before the debuggee is handed over.
    pub fn attach(&mut self, pid: i32, debuggee: &str) -> (plan: Option<LaunchPlan>)
        ensures
            final(self).is_attached(*old(self), pid, debuggee@),
            Self::is_attach_plan(*old(self), pid, plan),
            final(self).launched(),
    {
        match self {
            Debugger::GdbCompatible(d) => {
                d.attach(pid, debuggee);
                None
            },
            Debugger::Delve(d) => Some(d.attach(pid)),
            Debugger::Python(d) => Some(d.attach(pid)),
            Debugger::StopAndWritePid(_) => None,
        }
    }

    /// The command line of the interactive attach. An adapter without one,
    /// or one that has launched nothing, reports an internal bug.
    pub fn build_attach_commandline(&self) -> (words: Result<Vec<String>, DbgeeError>)
        ensures
            match self.attach_words() {
                Some(w) => words matches Ok(v) && texts(v@) == w,
                None => words matches Err(e) && self.command_refusal(e) && e.kind_of()
                    == ErrorKind::InternalBug,
            },
    {
        match self {
            Debugger::GdbCompatible(d) => d.build_attach_commandline(),
            Debugger::Delve(d) => d.build_attach_commandline(),
            Debugger::Python(d) => d.build_attach_commandline(),
            Debugger::StopAndWritePid(d) => d.build_attach_commandline(),
        }
    }

    /// The attach coordinates. An adapter without them, or one that has
    /// launched nothing, reports an internal bug.
    pub fn build_attach_information(&self) -> (info: Result<AttachInformation, DbgeeError>)
        ensures
            self.has_coordinates() ==> (info matches Ok(i) && forall|key: AttachInformationKey|
                i.lookup(key) == self.coordinates(key)),
            !self.has_coordinates() ==> (info matches Err(e) && self.information_refusal(e)
                && e.kind_of() == ErrorKind::InternalBug),
    {
        match self {
            Debugger::GdbCompatible(d) => d.build_attach_information(),
            Debugger::Delve(d) => d.build_attach_information(),
            Debugger::Python(d) => d.build_attach_information(),
            Debugger::StopAndWritePid(d) => d.build_attach_information(),
        }
    }

    /// Whether the adapter surely supports a debuggee with the given probes.
    pub open spec fn supports(self, chain: Seq<FileProbe>) -> bool {
        match self {
            Debugger::GdbCompatible(d) => GdbCompatibleDebugger::supports(chain),
            Debugger::Delve(d) => DelveDebugger::supports(chain),
            Debugger::Python(d) => chain.len() > 0 && chain[0].python(),
            Debugger::StopAndWritePid(d) => true,
        }
    }

    /// Whether the debuggee is surely one for this adapter. The chain holds
    /// the probes of the debuggee and, as long as each is a shim, of its
    /// backup. An adapter may well support a debuggee that it is not sure of.
    pub fn is_debuggee_surely_supported(&self, chain: &Vec<FileProbe>) -> (supported: bool)
        ensures
            supported == self.supports(chain@),
    {
        match self {
            Debugger::GdbCompatible(d) => d.is_debuggee_surely_supported(chain),
            Debugger::Delve(d) => d.is_debuggee_surely_supported(chain),
            Debugger::Python(d) => d.is_debuggee_surely_supported(chain),
            Debugger::StopAndWritePid(d) => d.is_debuggee_surely_supported(chain),
        }
    }

    /// Whether `set` and `unset` work with this adapter: with all but
    /// debugpy.
    pub fn check_wrapping(&self) -> (checked: Result<(), DbgeeError>)
        ensures
            self is Python ==> (checked matches Err(DbgeeError::WrappingUnsupported { debugger })
                && debugger@ == "Python"@),
            !(self is Python) ==> checked.is_ok(),
    {
        match self {
            Debugger::Python(_) => Err(
                DbgeeError::WrappingUnsupported { debugger: String::from_str("Python") },
            ),
            _ => Ok(()),
        }
    }

    /// What follows the launch: debugpy goes to the IDE whatever terminal was
    /// asked for, the adapter of last resort writes the process number down,
    /// the others open the terminal that was asked for.
    pub fn handoff(&self, pid: i32, terminal_is_ide: bool) -> (next: Handoff)
        ensures
            match *self {
                Debugger::GdbCompatible(d) => next == Handoff::OpenTerminal,
                Debugger::Delve(d) => next == Handoff::OpenTerminal,
                Debugger::Python(d) => next == (Handoff::OpenIde { notice: !terminal_is_ide }),
                Debugger::StopAndWritePid(d) => next matches Handoff::WritePidFile {
                    path,
                    content,
                } && path@ == PID_FILE@ && content@ == decimal_text(pid as int),
            },
    {
        match self {
            Debugger::GdbCompatible(_) => Handoff::OpenTerminal,
            Debugger::Delve(_) => Handoff::OpenTerminal,
            Debugger::Python(_) => Handoff::OpenIde { notice: !terminal_is_ide },
            Debugger::StopAndWritePid(d) => Handoff::WritePidFile {
                path: String::from_str(PID_FILE),
                content: d.pid_file_content(pid),
            },
        }
    }
}

/// After a launch, every adapter but the one of last resort has an attach
/// command and attach coordinates. The coordinates hold a process number or
/// a port that is not empty, and the last word of the command names that
/// process or port.
pub proof fn lemma_launched_adapter_answers(d: Debugger)
    requires
        d.launched(),
        !(d is StopAndWritePid),
    ensures
        d.has_coordinates(),
        (d.coordinates(AttachInformationKey::Pid) matches Some(pid) && pid.len() > 0) || (
        d.coordinates(AttachInformationKey::DebuggerPort) matches Some(port) && port.len() > 0),
        d.attach_words() matches Some(words) && words.len() > 0 && words.last().len() > 0,
        d is GdbCompatible ==> d.attach_words()->Some_0.last() == d.coordinates(
            AttachInformationKey::Pid,
        )->Some_0,
        !(d is GdbCompatible) ==> d.attach_words()->Some_0.last() == "localhost:"@
            + d.coordinates(AttachInformationKey::DebuggerPort)->Some_0,
{
    match d {
        Debugger::GdbCompatible(g) => {
            lemma_decimal_nonempty(g.debuggee_pid->Some_0 as int);
        },
        Debugger::Delve(v) => {
            lemma_decimal_nonempty(v.port->Some_0 as int);
        },
        Debugger::Python(p) => {
            lemma_decimal_nonempty(p.port->Some_0 as int);
        },
        Debugger::StopAndWritePid(_) => {},
    }
}

/// Before a launch no adapter has an attach command or attach coordinates,
/// so no terminal can be opened for it: the debuggee is handed over only
/// after it was brought up.
pub proof fn lemma_no_handoff_before_launch(d: Debugger)
    requires
        !d.launched(),
    ensures
        d.attach_words().is_none(),
        !d.has_coordinates(),
{
}

/// The adapter of last resort has neither an attach command nor attach
/// coordinates, whatever it has launched.
pub proof fn lemma_stop_and_write_pid_answers_nothing(d: Debugger)
    requires
        d is StopAndWritePid,
    ensures
        d.attach_words().is_none(),
        !d.has_coordinates(),
{
}

} // verus!
