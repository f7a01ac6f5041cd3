//! Attaching with a debugger command that the user writes out: the command
//! is run with the number of the stopped process as its last argument.

use vstd::prelude::*;
use vstd::string::*;
use crate::debugger_terminal::TmuxLaunch;
use crate::text::{decimal, decimal_text, extend_texts, push_text, same_text, texts};

verus! {

/// What is done once the debuggee is stopped.
#[derive(Debug, Clone, Copy, PartialEq, Eq, Structural)]
pub enum AttachAction {
    /// Write the number of the process down for the user.
    WritePid,
    /// Run the debugger in the terminal multiplexer.
    Tmux,
}

impl AttachAction {
    /// The action as the user writes it.
    pub open spec fn name_text(self) -> Seq<char> {
        match self {
            AttachAction::WritePid => "write-pid"@,
            AttachAction::Tmux => "tmux"@,
        }
    }

    /// The action as the user writes it.
    pub fn name(&self) -> (name: &'static str)
        ensures
            name@ == self.name_text(),
    {
        match self {
            AttachAction::WritePid => "write-pid",
            AttachAction::Tmux => "tmux",
        }
    }

    /// The action that the user wrote, if it is one.
    pub fn from_name(name: &str) -> (action: Option<AttachAction>)
        ensures
            match action {
                Some(a) => a.name_text() == name@,
                None => forall|a: AttachAction| a.name_text() != name@,
            },
    {
        if same_text(name, "write-pid") {
            Some(AttachAction::WritePid)
        } else if same_text(name, "tmux") {
            Some(AttachAction::Tmux)
        } else {
            None
        }
    }
}

/// The words that attach a debugger to a process: gdb and Delve by their
/// own options, any other command through the shell with the process as its
/// last word.
pub open spec fn debugger_command_words(debugger_opt: Seq<char>, pid: i32) -> Seq<Seq<char>> {
    if debugger_opt == "gdb"@ {
        seq!["gdb"@, "-p"@, decimal_text(pid as int)]
    } else if debugger_opt == "dlv"@ {
        seq!["dlv"@, "attach"@, decimal_text(pid as int)]
    } else {
        seq!["sh"@, "-c"@, debugger_opt + " "@ + decimal_text(pid as int)]
    }
}

/// The command line that attaches the debugger to the process.
pub fn build_debugger_command(debugger_opt: &str, debuggee_pid: i32) -> (words: Vec<String>)
    ensures
        texts(words@) == debugger_command_words(debugger_opt@, debuggee_pid),
{
    let pid = decimal(debuggee_pid);
    let mut words: Vec<String> = Vec::new();
    if same_text(debugger_opt, "gdb") {
        push_text(&mut words, "gdb");
        push_text(&mut words, "-p");
        push_text(&mut words, pid.as_str());
    } else if same_text(debugger_opt, "dlv") {
        push_text(&mut words, "dlv");
        push_text(&mut words, "attach");
        push_text(&mut words, pid.as_str());
    } else {
        push_text(&mut words, "sh");
        push_text(&mut words, "-c");
        let line = String::from_str(debugger_opt).concat(" ").concat(pid.as_str());
        push_text(&mut words, line.as_str());
    }
    assert(texts(words@) =~= debugger_command_words(debugger_opt@, debuggee_pid));
    words
}

/// The words that run a debugger command in the terminal multiplexer: in
/// a new window of a session that exists, else in a new session.
pub open spec fn tmux_words_for(session_active: bool, debugger_cmd: Seq<Seq<char>>) -> Seq<
    Seq<char>,
> {
    if session_active {
        seq!["tmux"@, "new-window"@] + debugger_cmd
    } else {
        seq!["tmux"@, "new-session"@] + debugger_cmd
    }
}

/// Plans the start of a debugger command in the terminal multiplexer.
pub fn launch_debugger_in_tmux(session_active: bool, debugger_cmd: &Vec<String>) -> (launch:
    TmuxLaunch)
    ensures
        session_active ==> (launch matches TmuxLaunch::InSession { argv } && texts(argv@)
            == tmux_words_for(true, texts(debugger_cmd@))),
        !session_active ==> (launch matches TmuxLaunch::NewSession { argv } && texts(argv@)
            == tmux_words_for(false, texts(debugger_cmd@))),
{
    let mut argv: Vec<String> = Vec::new();
    push_text(&mut argv, "tmux");
    if session_active {
        push_text(&mut argv, "new-window");
        extend_texts(&mut argv, debugger_cmd);
        assert(texts(argv@) =~= tmux_words_for(true, texts(debugger_cmd@)));
        TmuxLaunch::InSession { argv }
    } else {
        push_text(&mut argv, "new-session");
        extend_texts(&mut argv, debugger_cmd);
        assert(texts(argv@) =~= tmux_words_for(false, texts(debugger_cmd@)));
        TmuxLaunch::NewSession { argv }
    }
}

} // verus!
