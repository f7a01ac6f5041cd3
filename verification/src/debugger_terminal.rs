//! The attach terminals: a window or pane of the terminal multiplexer that
//! runs the debugger, or a pair of named pipes that tell the IDE how to
//! attach.

use vstd::prelude::*;
use vstd::string::*;
use crate::attach::{AttachInformation, AttachInformationKey};
use crate::debugger::Debugger;
use crate::error::{DbgeeError, ErrorKind, OsStep};
use crate::path::{file_name, final_name};
use crate::text::{ends_with, extend_texts, join, joined, occurs_at, push_text, same_text, texts};

verus! {

/// Version of the protocol spoken with the IDE.
pub const PROTOCOL_VERSION: &'static str = "0.2.0";

/// What the paths of both pipes begin with.
pub const FIFO_PATH_PREFIX: &'static str = "/tmp/dbgee-vscode-debuggee";

/// What the user is told once the IDE has read the attach coordinates.
pub const ATTACHED_NOTICE: &'static str = "VSCode has attached to the debuggee";

/// Where the multiplexer runs the debugger.
#[derive(Debug, Clone, Copy, PartialEq, Eq, Structural)]
pub enum TmuxLayout {
    NewWindow,
    NewPane,
}

impl TmuxLayout {
    /// The words of the multiplexer command for the layout: a new window,
    /// or a pane split off horizontally.
    pub open spec fn command_words(self) -> Seq<Seq<char>> {
        match self {
            TmuxLayout::NewWindow => seq!["new-window"@],
            TmuxLayout::NewPane => seq!["splitw"@, "-h"@],
        }
    }

    /// The words of the multiplexer command for the layout.
    pub fn to_command(&self) -> (words: Vec<String>)
        ensures
            texts(words@) == self.command_words(),
    {
        let mut words: Vec<String> = Vec::new();
        match self {
            TmuxLayout::NewWindow => {
                push_text(&mut words, "new-window");
            },
            TmuxLayout::NewPane => {
                push_text(&mut words, "splitw");
                push_text(&mut words, "-h");
            },
        }
        assert(texts(words@) =~= self.command_words());
        words
    }
}

/// The multiplexer terminal.
#[derive(Debug, Clone, Copy, PartialEq, Eq, Structural)]
pub struct Tmux {
    pub layout: TmuxLayout,
}

/// How the multiplexer is started for the debugger.
#[derive(Debug, Clone, PartialEq, Eq)]
pub enum TmuxLaunch {
    /// A session exists: run the words and wait for them to end.
    InSession { argv: Vec<String> },
    /// No session exists: start the words in the background and tell the
    /// user how to attach to the new session.
    NewSession { argv: Vec<String> },
}

/// The words that start the multiplexer: as the invoking user where the
/// launcher runs for that user with higher privileges.
pub open spec fn tmux_words(sudo_user: Option<Seq<char>>) -> Seq<Seq<char>> {
    match sudo_user {
        Some(user) => seq!["sudo"@, "-u"@, user, "tmux"@],
        None => seq!["tmux"@],
    }
}

/// The text of an optional string slice.
pub open spec fn slice_text(s: Option<&str>) -> Option<Seq<char>> {
    match s {
        Some(t) => Some(t@),
        None => None,
    }
}

fn tmux_command(sudo_user: Option<&str>) -> (words: Vec<String>)
    ensures
        texts(words@) == tmux_words(slice_text(sudo_user)),
{
    let mut words: Vec<String> = Vec::new();
    match sudo_user {
        Some(user) => {
            push_text(&mut words, "sudo");
            push_text(&mut words, "-u");
            push_text(&mut words, user);
            push_text(&mut words, "tmux");
        },
        None => {
            push_text(&mut words, "tmux");
        },
    }
    assert(texts(words@) =~= tmux_words(slice_text(sudo_user)));
    words
}

impl Tmux {
    /// A multiplexer terminal with the given layout.
    pub fn new(layout: TmuxLayout) -> (tmux: Tmux)
        ensures
            tmux.layout == layout,
    {
        Tmux { layout }
    }

    /// The name of the terminal.
    pub fn name(&self) -> (name: &'static str)
        ensures
            name@ == "tmux"@,
    {
        "tmux"
    }

    /// The words that ask the multiplexer whether it has a session.
    pub fn probe_command(sudo_user: Option<&str>) -> (words: Vec<String>)
        ensures
            texts(words@) == tmux_words(slice_text(sudo_user)) + seq!["ls"@],
    {
        let mut words = tmux_command(sudo_user);
        push_text(&mut words, "ls");
        assert(texts(words@) =~= tmux_words(slice_text(sudo_user)) + seq!["ls"@]);
        words
    }

    /// The words that run the attach command in the multiplexer: in a new
    /// window or pane of a session that exists, else in a new session.
    pub open spec fn launch_words(
        self,
        sudo_user: Option<Seq<char>>,
        session_active: bool,
        attach: Seq<Seq<char>>,
    ) -> Seq<Seq<char>> {
        if session_active {
            tmux_words(sudo_user) + self.layout.command_words() + attach
        } else {
            tmux_words(sudo_user) + seq!["new-session"@] + attach
        }
    }

    /// Plans the start of the debugger in the multiplexer. Fails where the
    /// adapter has no attach command.
    pub fn open(&self, sudo_user: Option<&str>, session_active: bool, debugger: &Debugger) -> (launch:
        Result<TmuxLaunch, DbgeeError>)
        ensures
            match debugger.attach_words() {
                Some(attach) => if session_active {
                    launch matches Ok(TmuxLaunch::InSession { argv }) && texts(argv@)
                        == self.launch_words(slice_text(sudo_user), true, attach)
                } else {
                    launch matches Ok(TmuxLaunch::NewSession { argv }) && texts(argv@)
                        == self.launch_words(slice_text(sudo_user), false, attach)
                },
                None => launch matches Err(e) && debugger.command_refusal(e) && e.kind_of()
                    == ErrorKind::InternalBug,
            },
    {
        let mut argv = tmux_command(sudo_user);
        let debugger_cmd = debugger.build_attach_commandline()?;
        if session_active {
            let layout = self.layout.to_command();
            extend_texts(&mut argv, &layout);
            extend_texts(&mut argv, &debugger_cmd);
            Ok(TmuxLaunch::InSession { argv })
        } else {
            push_text(&mut argv, "new-session");
            extend_texts(&mut argv, &debugger_cmd);
            assert(texts(argv@) =~= self.launch_words(
                slice_text(sudo_user),
                false,
                texts(debugger_cmd@),
            ));
            Ok(TmuxLaunch::NewSession { argv })
        }
    }
}

/// The IDE terminal.
#[derive(Debug, Clone, PartialEq, Eq)]
pub struct VsCode {
    pub attach_information_fifo_path: String,
    pub attach_request_fifo_path: Option<String>,
    pub protocol_version: String,
}

/// One message for the IDE: a JSON object to write into a named pipe, and
/// what to tell the user once it was read.
#[derive(Debug, Clone, PartialEq, Eq)]
pub struct FifoMessage {
    pub fifo_path: String,
    pub json: String,
    pub log_after_sent: Option<String>,
}

/// What the IDE terminal sends: the attach coordinates always, the request
/// to attach where its pipe is there. Without the request the user starts
/// the debug session in the IDE by hand.
#[derive(Debug, PartialEq, Eq)]
pub struct VsCodeHandoff {
    pub information: FifoMessage,
    pub request: Result<FifoMessage, DbgeeError>,
}

/// How the making of a named pipe ended.
#[derive(Debug, Clone, Copy, PartialEq, Eq, Structural)]
pub enum FifoCreation {
    /// The pipe was made.
    Created,
    /// A file with the name of the pipe was there already.
    AlreadyThere,
    /// The pipe could not be made.
    Failed,
}

/// Whether a message can be written after the making of its pipe: a pipe
/// that was there already is as good as a new one. The write itself is left
/// to a worker of its own, since it lasts until the IDE reads.
pub fn send_json_to_vscode(creation: FifoCreation) -> (ready: Result<(), DbgeeError>)
    ensures
        creation != FifoCreation::Failed ==> ready.is_ok(),
        creation == FifoCreation::Failed ==> ready == Err::<(), DbgeeError>(
            DbgeeError::Os { step: OsStep::MakeFifo },
        ),
{
    match creation {
        FifoCreation::Created => Ok(()),
        FifoCreation::AlreadyThere => Ok(()),
        FifoCreation::Failed => Err(DbgeeError::Os { step: OsStep::MakeFifo }),
    }
}

/// The suffix of the socket that names a window of the IDE.
pub const SOCKET_SUFFIX: &'static str = ".sock";

/// The path of the request pipe for the window whose socket the handle
/// names: the prefix, `-for-`, and the name of the socket without `.sock`.
pub open spec fn request_fifo_path(prefix: Seq<char>, handle: Option<Seq<char>>) -> Option<
    Seq<char>,
> {
    match handle {
        None => None,
        Some(h) => match final_name(h) {
            None => None,
            Some(name) => if occurs_at(name, SOCKET_SUFFIX@, name.len() - SOCKET_SUFFIX@.len()) {
                Some(prefix + "-for-"@ + name.subrange(0, name.len() - SOCKET_SUFFIX@.len()))
            } else {
                None
            },
        },
    }
}

/// One member of a JSON object: key and value, both as strings.
pub open spec fn json_member(key: Seq<char>, value: Seq<char>) -> Seq<char> {
    "\""@ + key + "\": \""@ + value + "\""@
}

/// The member for a key of the attach coordinates, if the key is present.
pub open spec fn member_of(d: Debugger, key: AttachInformationKey) -> Seq<Seq<char>> {
    match d.coordinates(key) {
        Some(value) => seq![json_member(key.name_text(), value)],
        None => Seq::empty(),
    }
}

/// The JSON object with the attach coordinates: process, program and port
/// as far as the adapter has them, and the protocol version.
pub open spec fn information_json(d: Debugger, version: Seq<char>) -> Seq<char> {
    "{"@ + joined(
        member_of(d, AttachInformationKey::Pid) + member_of(d, AttachInformationKey::ProgramName)
            + member_of(d, AttachInformationKey::DebuggerPort) + seq![
            json_member("protocolVersion"@, version),
        ],
        ", "@,
    ) + "}"@
}

/// The debugger type that the IDE is asked for: its extension attaches to
/// gdb's debuggees with lldb.
pub open spec fn requested_type(hint: Seq<char>) -> Seq<char> {
    if hint == "gdb"@ {
        "lldb"@
    } else {
        hint
    }
}

/// The JSON object that asks the IDE to attach.
pub open spec fn request_json(version: Seq<char>, debugger_type: Seq<char>) -> Seq<char> {
    "{"@ + json_member("protocolVersion"@, version) + ", "@ + json_member(
        "debuggerType"@,
        debugger_type,
    ) + "}"@
}

fn member(key: &str, value: &str) -> (out: String)
    ensures
        out@ == json_member(key@, value@),
{
    String::from_str("\"").concat(key).concat("\": \"").concat(value).concat("\"")
}

fn push_member(members: &mut Vec<String>, info: &AttachInformation, key: AttachInformationKey)
    ensures
        texts(final(members)@) == texts(old(members)@) + match info.lookup(key) {
            Some(value) => seq![json_member(key.name_text(), value)],
            None => Seq::empty(),
        },
{
    match info.get(key) {
        Some(value) => {
            let m = member(key.name(), value.as_str());
            push_text(members, m.as_str());
            assert(texts(members@) =~= texts(old(members)@) + seq![
                json_member(key.name_text(), value@),
            ]);
        },
        None => {
            assert(texts(members@) =~= texts(old(members)@) + Seq::<Seq<char>>::empty());
        },
    }
}

impl VsCode {
    /// The IDE terminal for the window whose socket the handle names, with
    /// the usual paths of the pipes.
    pub fn new(git_ipc_handle: Option<&str>) -> (vscode: VsCode)
        ensures
            vscode.attach_information_fifo_path@ == FIFO_PATH_PREFIX@ + "s"@,
            crate::attach::optional_text(vscode.attach_request_fifo_path) == request_fifo_path(
                FIFO_PATH_PREFIX@,
                slice_text(git_ipc_handle),
            ),
            vscode.protocol_version@ == PROTOCOL_VERSION@,
    {
        VsCode::with_fifo_path_prefix(FIFO_PATH_PREFIX, git_ipc_handle)
    }

    /// The IDE terminal with pipes whose paths begin with `prefix`.
    pub fn with_fifo_path_prefix(prefix: &str, git_ipc_handle: Option<&str>) -> (vscode: VsCode)
        ensures
            vscode.attach_information_fifo_path@ == prefix@ + "s"@,
            crate::attach::optional_text(vscode.attach_request_fifo_path) == request_fifo_path(
                prefix@,
                slice_text(git_ipc_handle),
            ),
            vscode.protocol_version@ == PROTOCOL_VERSION@,
    {
        VsCode {
            attach_information_fifo_path: String::from_str(prefix).concat("s"),
            attach_request_fifo_path: VsCode::build_attach_request_fifo_path(
                prefix,
                git_ipc_handle,
            ),
            protocol_version: String::from_str(PROTOCOL_VERSION),
        }
    }

    /// The name of the terminal.
    pub fn name(&self) -> (name: &'static str)
        ensures
            name@ == "vscode"@,
    {
        "vscode"
    }

    /// The path of the request pipe, where the handle names a socket.
    pub fn build_attach_request_fifo_path(prefix: &str, git_ipc_handle: Option<&str>) -> (path:
        Option<String>)
        ensures
            crate::attach::optional_text(path) == request_fifo_path(
                prefix@,
                slice_text(git_ipc_handle),
            ),
    {
        proof {
            reveal_strlit(".sock");
        }
        let handle = git_ipc_handle?;
        let sock_name = file_name(handle)?;
        if !ends_with(sock_name.as_str(), SOCKET_SUFFIX) {
            return None;
        }
        let len: usize = sock_name.as_str().unicode_len();
        let stem = sock_name.as_str().substring_char(0, len - 5);
        Some(String::from_str(prefix).concat("-for-").concat(stem))
    }

    /// The message with the attach coordinates. Fails where the adapter has
    /// no attach coordinates.
    pub fn send_attach_information(&self, debugger: &Debugger) -> (message: Result<
        FifoMessage,
        DbgeeError,
    >)
        ensures
            debugger.has_coordinates() ==> (message matches Ok(m) && m.fifo_path@
                == self.attach_information_fifo_path@ && m.json@ == information_json(
                *debugger,
                self.protocol_version@,
            ) && crate::attach::optional_text(m.log_after_sent) == Some(ATTACHED_NOTICE@)),
            !debugger.has_coordinates() ==> (message matches Err(e)
                && debugger.information_refusal(e) && e.kind_of() == ErrorKind::InternalBug),
    {
        let info = debugger.build_attach_information()?;
        let mut members: Vec<String> = Vec::new();
        assert(texts(members@) =~= Seq::<Seq<char>>::empty());
        push_member(&mut members, &info, AttachInformationKey::Pid);
        push_member(&mut members, &info, AttachInformationKey::ProgramName);
        push_member(&mut members, &info, AttachInformationKey::DebuggerPort);
        let version = member("protocolVersion", self.protocol_version.as_str());
        push_text(&mut members, version.as_str());
        assert(texts(members@) =~= member_of(*debugger, AttachInformationKey::Pid) + member_of(
            *debugger,
            AttachInformationKey::ProgramName,
        ) + member_of(*debugger, AttachInformationKey::DebuggerPort) + seq![
            json_member("protocolVersion"@, self.protocol_version@),
        ]);
        let json = String::from_str("{").concat(join(&members, ", ").as_str()).concat("}");
        Ok(
            FifoMessage {
                fifo_path: self.attach_information_fifo_path.clone(),
                json,
                log_after_sent: Some(String::from_str(ATTACHED_NOTICE)),
            },
        )
    }

    /// What becomes of the request to attach: it fails where the window of
    /// the IDE is not known, where the IDE has not made the pipe, and where
    /// the adapter has no attach coordinates; else it names the debugger
    /// type that the IDE is to use.
    pub open spec fn is_request(
        self,
        message: Result<FifoMessage, DbgeeError>,
        debugger: Debugger,
        fifo_exists: bool,
    ) -> bool {
        match self.attach_request_fifo_path {
            None => message matches Err(DbgeeError::RequestPipeUnknown),
            Some(path) => if !fifo_exists {
                message matches Err(DbgeeError::RequestPipeAbsent { path: p }) && p@ == path@
            } else if !debugger.has_coordinates() {
                message matches Err(e) && debugger.information_refusal(e) && e.kind_of()
                    == ErrorKind::InternalBug
            } else {
                match debugger.coordinates(AttachInformationKey::DebuggerTypeHint) {
                    None => message matches Err(DbgeeError::TypeHintAbsent),
                    Some(hint) => message matches Ok(m) && m.fifo_path@ == path@ && m.json@
                        == request_json(self.protocol_version@, requested_type(hint))
                        && m.log_after_sent.is_none(),
                }
            },
        }
    }

    /// The message that asks the IDE to attach.
    pub fn send_attach_request(&self, debugger: &Debugger, fifo_exists: bool) -> (message: Result<
        FifoMessage,
        DbgeeError,
    >)
        ensures
            self.is_request(message, *debugger, fifo_exists),
    {
        let fifo_path = match &self.attach_request_fifo_path {
            None => {
                return Err(DbgeeError::RequestPipeUnknown);
            },
            Some(path) => path,
        };
        if !fifo_exists {
            return Err(DbgeeError::RequestPipeAbsent { path: fifo_path.clone() });
        }
        let attach_request = debugger.build_attach_information()?;
        let debugger_type_hint = match attach_request.get(AttachInformationKey::DebuggerTypeHint) {
            None => {
                return Err(DbgeeError::TypeHintAbsent);
            },
            Some(hint) => hint,
        };
        let debugger_type: &str = if same_text(debugger_type_hint.as_str(), "gdb") {
            "lldb"
        } else {
            debugger_type_hint.as_str()
        };
        let json = String::from_str("{").concat(
            member("protocolVersion", self.protocol_version.as_str()).as_str(),
        ).concat(", ").concat(member("debuggerType", debugger_type).as_str()).concat("}");
        Ok(FifoMessage { fifo_path: fifo_path.clone(), json, log_after_sent: None })
    }

    /// Plans the handoff to the IDE: the attach coordinates, and the request
    /// to attach. A request that cannot be sent is no failure of the
    /// handoff.
    pub fn open(&self, debugger: &Debugger, request_fifo_exists: bool) -> (handoff: Result<
        VsCodeHandoff,
        DbgeeError,
    >)
        ensures
            debugger.has_coordinates() ==> (handoff matches Ok(h) && h.information.fifo_path@
                == self.attach_information_fifo_path@ && h.information.json@ == information_json(
                *debugger,
                self.protocol_version@,
            ) && crate::attach::optional_text(h.information.log_after_sent) == Some(
                ATTACHED_NOTICE@,
            ) && self.is_request(h.request, *debugger, request_fifo_exists)),
            !debugger.has_coordinates() ==> (handoff matches Err(e)
                && debugger.information_refusal(e) && e.kind_of() == ErrorKind::InternalBug),
    {
        let information = self.send_attach_information(debugger)?;
        let request = self.send_attach_request(debugger, request_fifo_exists);
        Ok(VsCodeHandoff { information, request })
    }
}

/// Any of the terminals.
#[derive(Debug, Clone, PartialEq, Eq)]
pub enum DebuggerTerminal {
    Tmux(Tmux),
    VsCode(VsCode),
}

impl DebuggerTerminal {
    /// The name of the terminal.
    pub fn name(&self) -> (name: &'static str)
        ensures
            name@ == (if self is Tmux {
                "tmux"@
            } else {
                "vscode"@
            }),
    {
        match self {
            DebuggerTerminal::Tmux(t) => t.name(),
            DebuggerTerminal::VsCode(v) => v.name(),
        }
    }

    /// Whether this is the IDE terminal.
    pub fn is_ide(&self) -> (ide: bool)
        ensures
            ide == (self is VsCode),
    {
        match self {
            DebuggerTerminal::Tmux(_) => false,
            DebuggerTerminal::VsCode(_) => true,
        }
    }
}

} // verus!
