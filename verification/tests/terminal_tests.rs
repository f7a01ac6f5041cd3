use dbgee::debugger::{
    Backends, Debugger, DelveDebugger, GdbDebugger, LldbDebugger, PythonDebugger,
    StopAndWritePidDebugger,
};
use dbgee::attach_action::{build_debugger_command, launch_debugger_in_tmux, AttachAction};
use dbgee::debugger_terminal::{
    send_json_to_vscode, DebuggerTerminal, FifoCreation, Tmux, TmuxLaunch, TmuxLayout, VsCode,
};
use dbgee::error::OsStep;
use dbgee::error::{DbgeeError, ErrorKind};

fn all_backends() -> Backends {
    Backends { gdb: true, lldb: true, dlv: true, python3: true, python: true, debugpy: true }
}

fn words(list: &[&str]) -> Vec<String> {
    list.iter().map(|s| s.to_string()).collect()
}

fn launched_gdb(pid: i32) -> Debugger {
    let mut gdb = Debugger::GdbCompatible(GdbDebugger::build(&all_backends()).unwrap());
    gdb.attach(pid, "/bin/hello");
    gdb
}

fn launched_python() -> Debugger {
    let mut python = Debugger::Python(PythonDebugger::new(&all_backends()).unwrap());
    let _ = python.run("/tmp/foo.py", &words(&[]));
    python
}

#[test]
fn layout_commands() {
    assert_eq!(TmuxLayout::NewWindow.to_command(), words(&["new-window"]));
    assert_eq!(TmuxLayout::NewPane.to_command(), words(&["splitw", "-h"]));
    assert_eq!(Tmux::new(TmuxLayout::NewPane).layout, TmuxLayout::NewPane);
    assert_eq!(Tmux::new(TmuxLayout::NewPane).name(), "tmux");
}

#[test]
fn tmux_probe() {
    assert_eq!(Tmux::probe_command(None), words(&["tmux", "ls"]));
    assert_eq!(Tmux::probe_command(Some("alice")), words(&["sudo", "-u", "alice", "tmux", "ls"]));
}

#[test]
fn tmux_opens_a_window_in_a_session() {
    let tmux = Tmux::new(TmuxLayout::NewWindow);
    assert_eq!(
        tmux.open(None, true, &launched_gdb(4242)),
        Ok(TmuxLaunch::InSession {
            argv: words(&["tmux", "new-window", "gdb", "-tui", "-p", "4242"])
        })
    );
    let mut lldb = Debugger::GdbCompatible(LldbDebugger::build(&all_backends()).unwrap());
    lldb.attach(4242, "/bin/hello");
    assert_eq!(
        tmux.open(None, true, &lldb),
        Ok(TmuxLaunch::InSession { argv: words(&["tmux", "new-window", "lldb", "-p", "4242"]) })
    );
}

#[test]
fn tmux_opens_a_pane_as_the_invoking_user() {
    let tmux = Tmux::new(TmuxLayout::NewPane);
    let mut dlv = Debugger::Delve(DelveDebugger::new(&all_backends()).unwrap());
    let _ = dlv.run("/bin/go-hello", &words(&[]));
    assert_eq!(
        tmux.open(Some("bob"), true, &dlv),
        Ok(TmuxLaunch::InSession {
            argv: words(&[
                "sudo",
                "-u",
                "bob",
                "tmux",
                "splitw",
                "-h",
                "dlv",
                "connect",
                "localhost:5679"
            ])
        })
    );
}

#[test]
fn tmux_starts_a_session_where_there_is_none() {
    let tmux = Tmux::new(TmuxLayout::NewWindow);
    assert_eq!(
        tmux.open(None, false, &launched_gdb(1)),
        Ok(TmuxLaunch::NewSession { argv: words(&["tmux", "new-session", "gdb", "-tui", "-p", "1"]) })
    );
}

#[test]
fn tmux_fails_without_an_attach_command() {
    let tmux = Tmux::new(TmuxLayout::NewWindow);
    let last = Debugger::StopAndWritePid(StopAndWritePidDebugger::new());
    assert_eq!(tmux.open(None, true, &last).unwrap_err().kind(), ErrorKind::InternalBug);
    let fresh = Debugger::GdbCompatible(GdbDebugger::build(&all_backends()).unwrap());
    assert_eq!(tmux.open(None, false, &fresh).unwrap_err().kind(), ErrorKind::InternalBug);
}

#[test]
fn vscode_paths() {
    let vscode = VsCode::new(Some("/run/user/1000/vscode-git-0a1b2c.sock"));
    assert_eq!(vscode.attach_information_fifo_path, "/tmp/dbgee-vscode-debuggees");
    assert_eq!(
        vscode.attach_request_fifo_path,
        Some("/tmp/dbgee-vscode-debuggee-for-vscode-git-0a1b2c".to_string())
    );
    assert_eq!(vscode.protocol_version, "0.2.0");
    assert_eq!(vscode.name(), "vscode");
    assert_eq!(VsCode::new(None).attach_request_fifo_path, None);
    assert_eq!(VsCode::new(Some("/run/user/1000/vscode-git")).attach_request_fifo_path, None);
    assert_eq!(VsCode::new(Some("/run/..")).attach_request_fifo_path, None);
    assert_eq!(
        VsCode::new(Some(".sock")).attach_request_fifo_path,
        Some("/tmp/dbgee-vscode-debuggee-for-".to_string())
    );
    let prefixed = VsCode::with_fifo_path_prefix("/tmp/test-1-", Some("a.sock"));
    assert_eq!(prefixed.attach_information_fifo_path, "/tmp/test-1-s");
    assert_eq!(prefixed.attach_request_fifo_path, Some("/tmp/test-1--for-a".to_string()));
}

#[test]
fn vscode_information_for_debugpy() {
    let vscode = VsCode::new(None);
    let message = vscode.send_attach_information(&launched_python()).unwrap();
    assert_eq!(message.fifo_path, "/tmp/dbgee-vscode-debuggees");
    assert_eq!(message.json, "{\"debuggerPort\": \"5679\", \"protocolVersion\": \"0.2.0\"}");
    assert_eq!(message.log_after_sent, Some("VSCode has attached to the debuggee".to_string()));
}

#[test]
fn vscode_information_for_gdb() {
    let vscode = VsCode::new(None);
    let message = vscode.send_attach_information(&launched_gdb(4242)).unwrap();
    assert_eq!(
        message.json,
        "{\"pid\": \"4242\", \"programName\": \"/bin/hello\", \"protocolVersion\": \"0.2.0\"}"
    );
}

#[test]
fn vscode_request_maps_gdb_to_lldb() {
    let vscode = VsCode::new(Some("/tmp/w.sock"));
    let message = vscode.send_attach_request(&launched_gdb(4242), true).unwrap();
    assert_eq!(message.fifo_path, "/tmp/dbgee-vscode-debuggee-for-w");
    assert_eq!(message.json, "{\"protocolVersion\": \"0.2.0\", \"debuggerType\": \"lldb\"}");
    assert_eq!(message.log_after_sent, None);
    let message = vscode.send_attach_request(&launched_python(), true).unwrap();
    assert_eq!(message.json, "{\"protocolVersion\": \"0.2.0\", \"debuggerType\": \"python\"}");
    let mut dlv = Debugger::Delve(DelveDebugger::new(&all_backends()).unwrap());
    let _ = dlv.run("/bin/go-hello", &words(&[]));
    let message = vscode.send_attach_request(&dlv, true).unwrap();
    assert_eq!(message.json, "{\"protocolVersion\": \"0.2.0\", \"debuggerType\": \"go\"}");
}

#[test]
fn vscode_request_failures_are_protocol_errors() {
    let unknown = VsCode::new(None);
    let error = unknown.send_attach_request(&launched_python(), true).unwrap_err();
    assert_eq!(error, DbgeeError::RequestPipeUnknown);
    assert_eq!(error.kind(), ErrorKind::Protocol);
    let known = VsCode::new(Some("/tmp/w.sock"));
    let error = known.send_attach_request(&launched_python(), false).unwrap_err();
    assert_eq!(
        error,
        DbgeeError::RequestPipeAbsent { path: "/tmp/dbgee-vscode-debuggee-for-w".to_string() }
    );
    assert_eq!(error.kind(), ErrorKind::Protocol);
    let last = Debugger::StopAndWritePid(StopAndWritePidDebugger::new());
    assert_eq!(known.send_attach_request(&last, true).unwrap_err().kind(), ErrorKind::InternalBug);
}

#[test]
fn vscode_open_publishes_information_without_a_request_pipe() {
    let vscode = VsCode::new(None);
    let handoff = vscode.open(&launched_python(), false).unwrap();
    assert!(handoff.information.json.contains("\"debuggerPort\": \"5679\""));
    assert_eq!(handoff.request, Err(DbgeeError::RequestPipeUnknown));
    let vscode = VsCode::new(Some("/tmp/w.sock"));
    let handoff = vscode.open(&launched_python(), true).unwrap();
    assert!(handoff.request.is_ok());
    let last = Debugger::StopAndWritePid(StopAndWritePidDebugger::new());
    assert_eq!(vscode.open(&last, true).unwrap_err().kind(), ErrorKind::InternalBug);
}

#[test]
fn terminal_names() {
    assert_eq!(DebuggerTerminal::Tmux(Tmux::new(TmuxLayout::NewWindow)).name(), "tmux");
    assert_eq!(DebuggerTerminal::VsCode(VsCode::new(None)).name(), "vscode");
    assert!(DebuggerTerminal::VsCode(VsCode::new(None)).is_ide());
    assert!(!DebuggerTerminal::Tmux(Tmux::new(TmuxLayout::NewWindow)).is_ide());
}

#[test]
fn a_pipe_that_is_there_already_is_no_failure() {
    assert_eq!(send_json_to_vscode(FifoCreation::Created), Ok(()));
    assert_eq!(send_json_to_vscode(FifoCreation::AlreadyThere), Ok(()));
    let error = send_json_to_vscode(FifoCreation::Failed).unwrap_err();
    assert_eq!(error, DbgeeError::Os { step: OsStep::MakeFifo });
    assert_eq!(error.kind(), ErrorKind::OsFailure);
}

#[test]
fn debugger_command_in_the_multiplexer() {
    let command = build_debugger_command("gdb", 12);
    assert_eq!(
        launch_debugger_in_tmux(true, &command),
        TmuxLaunch::InSession { argv: words(&["tmux", "new-window", "gdb", "-p", "12"]) }
    );
    assert_eq!(
        launch_debugger_in_tmux(false, &command),
        TmuxLaunch::NewSession { argv: words(&["tmux", "new-session", "gdb", "-p", "12"]) }
    );
}

#[test]
fn debugger_command_by_name() {
    assert_eq!(build_debugger_command("gdb", 12), words(&["gdb", "-p", "12"]));
    assert_eq!(build_debugger_command("dlv", 12), words(&["dlv", "attach", "12"]));
    assert_eq!(build_debugger_command("rr attach", 12), words(&["sh", "-c", "rr attach 12"]));
    assert_eq!(AttachAction::from_name("write-pid"), Some(AttachAction::WritePid));
    assert_eq!(AttachAction::from_name("tmux"), Some(AttachAction::Tmux));
    assert_eq!(AttachAction::from_name("screen"), None);
    assert_eq!(AttachAction::WritePid.name(), "write-pid");
}

#[test]
fn failures_name_the_adapter() {
    let tmux = Tmux::new(TmuxLayout::NewWindow);
    let python = Debugger::Python(PythonDebugger::new(&all_backends()).unwrap());
    assert_eq!(
        tmux.open(None, true, &python),
        Err(DbgeeError::Uninitialized { debugger: "PythonDebugger".to_string() })
    );
    assert_eq!(
        tmux.open(None, true, &launched_python()),
        Ok(TmuxLaunch::InSession {
            argv: words(&[
                "tmux",
                "new-window",
                "python3",
                "-m",
                "debugpy",
                "--connect",
                "localhost:5679"
            ])
        })
    );
    let last = Debugger::StopAndWritePid(StopAndWritePidDebugger::new());
    assert_eq!(
        tmux.open(None, true, &last),
        Err(DbgeeError::QueryUndefined {
            debugger: "StopAndWritePidDebugger".to_string(),
            query: "build_attach_commandline".to_string()
        })
    );
    let fresh = Debugger::Delve(DelveDebugger::new(&all_backends()).unwrap());
    assert_eq!(
        VsCode::new(None).open(&fresh, false),
        Err(DbgeeError::Uninitialized { debugger: "DelveDebugger".to_string() })
    );
}
