use dbgee::debugger::{Backends, Debugger, LaunchPlan};
use dbgee::debugger_terminal::{DebuggerTerminal, Tmux, TmuxLaunch, TmuxLayout};
use dbgee::error::{DbgeeError, ErrorKind};
use dbgee::file_helper::{FileProbe, FileStat};
use dbgee::hook::HookOpts;
use dbgee::shim::{
    get_path_of_unset_debuggee, unset_from_exec_dbgee, wrap_debuggee_binary, Target,
};
use dbgee::file_helper::PathLookup;
use dbgee::options::{
    AttachOpts, DebuggerOptValues, Opts, RunOpts, SetOpts, Subcommand, TerminalOptValues,
    UnsetOpts,
};
use dbgee::{
    attach_hooked, build_debugger, build_debugger_terminal, detect_debugger,
    detect_debugger_terminal, detection_candidates, run, Dispatch, Host, Platform,
};

fn words(list: &[&str]) -> Vec<String> {
    list.iter().map(|s| s.to_string()).collect()
}

fn host(platform: Platform, file_output: &str) -> Host {
    Host {
        platform,
        backends: Backends { gdb: true, lldb: true, dlv: true, python3: true, python: false, debugpy: true },
        debuggee_stat: Some(FileStat { is_file: true, mode: 0o755 }),
        probes: vec![FileProbe { file_output: file_output.to_string(), go_version_output: None, wrapped: false }],
        in_vscode_term: false,
        git_ipc_handle: None,
    }
}

fn no_hooks() -> HookOpts {
    HookOpts { hook_executable: None, hook_source: None, hook_source_dir: None }
}

fn run_opts(debuggee: &str, debugger: Option<DebuggerOptValues>, terminal: Option<TerminalOptValues>) -> Opts {
    Opts {
        log_level: None,
        vscode_fifo_prefix: None,
        command: Subcommand::Run(RunOpts {
            command: debuggee.to_string(),
            command_args: words(&["arg0", "arg1"]),
            attach_opts: AttachOpts { debugger, terminal },
            hook_opts: no_hooks(),
        }),
    }
}

fn kind_of(debugger: &Debugger) -> &'static str {
    match debugger {
        Debugger::GdbCompatible(g) => {
            if g.debugger_name == "gdb" {
                "gdb"
            } else {
                "lldb"
            }
        }
        Debugger::Delve(_) => "dlv",
        Debugger::Python(_) => "debugpy",
        Debugger::StopAndWritePid(_) => "stop-and-write-pid",
    }
}

#[test]
fn detection_order() {
    assert_eq!(
        detection_candidates(Platform::Linux),
        vec![
            DebuggerOptValues::Dlv,
            DebuggerOptValues::Gdb,
            DebuggerOptValues::Debugpy,
            DebuggerOptValues::StopAndWritePid
        ]
    );
    assert_eq!(detection_candidates(Platform::MacOs)[1], DebuggerOptValues::Lldb);
}

#[test]
fn detection_picks_the_first_that_is_sure() {
    assert_eq!(kind_of(&detect_debugger(&host(Platform::Linux, "ELF 64-bit")).unwrap()), "gdb");
    assert_eq!(kind_of(&detect_debugger(&host(Platform::MacOs, "Mach-O 64-bit")).unwrap()), "lldb");
    assert_eq!(kind_of(&detect_debugger(&host(Platform::Linux, "ELF 64-bit, Go BuildID")).unwrap()), "dlv");
    assert_eq!(kind_of(&detect_debugger(&host(Platform::Linux, "Python script")).unwrap()), "debugpy");
    assert_eq!(kind_of(&detect_debugger(&host(Platform::Linux, "ASCII text")).unwrap()), "stop-and-write-pid");
    let mut without_dlv = host(Platform::Linux, "ELF 64-bit, Go BuildID");
    without_dlv.backends.dlv = false;
    assert_eq!(kind_of(&detect_debugger(&without_dlv).unwrap()), "gdb");
    let mut bare = host(Platform::Linux, "ELF 64-bit");
    bare.backends = Backends { gdb: false, lldb: true, dlv: false, python3: false, python: false, debugpy: false };
    assert_eq!(kind_of(&detect_debugger(&bare).unwrap()), "stop-and-write-pid");
}

#[test]
fn a_named_debugger_needs_its_backend() {
    let mut h = host(Platform::Linux, "ELF");
    assert_eq!(kind_of(&build_debugger(&Some(DebuggerOptValues::Lldb), &h).unwrap()), "lldb");
    assert_eq!(kind_of(&build_debugger(&None, &h).unwrap()), "gdb");
    h.backends.gdb = false;
    let error = build_debugger(&Some(DebuggerOptValues::Gdb), &h).unwrap_err();
    assert_eq!(error.kind(), ErrorKind::BackendMissing);
    assert_eq!(error.message(), "'gdb' is not in PATH. Did you install gdb?");
    assert_eq!(
        kind_of(&build_debugger(&Some(DebuggerOptValues::StopAndWritePid), &h).unwrap()),
        "stop-and-write-pid"
    );
}

#[test]
fn a_hooked_process_is_attached_to() {
    let h = host(Platform::Linux, "/bin/child: ELF 64-bit LSB executable");
    let (debugger, plan) = attach_hooked(&None, &h, 14, "/bin/child").unwrap();
    assert_eq!(kind_of(&debugger), "gdb");
    assert_eq!(plan, None);
    assert_eq!(debugger.build_attach_commandline().unwrap(), words(&["gdb", "-tui", "-p", "14"]));

    let go = host(Platform::Linux, "/bin/child: ELF 64-bit LSB executable, Go BuildID=x");
    let (debugger, plan) = attach_hooked(&None, &go, 14, "/bin/child").unwrap();
    assert_eq!(kind_of(&debugger), "dlv");
    match plan {
        Some(LaunchPlan::Server { program, args }) => {
            assert_eq!(program, "dlv");
            assert_eq!(args[0], "attach");
            assert_eq!(args.last(), Some(&"14".to_string()));
        }
        other => panic!("unexpected plan {:?}", other),
    }
    let tmux = Tmux { layout: TmuxLayout::NewWindow };
    assert!(tmux.open(None, true, &debugger).is_ok());

    let mut bare = host(Platform::Linux, "ELF");
    bare.backends.dlv = false;
    let error = attach_hooked(&Some(DebuggerOptValues::Dlv), &bare, 14, "/bin/child").unwrap_err();
    assert_eq!(error.kind(), ErrorKind::BackendMissing);
}

#[test]
fn terminal_choice_and_detection() {
    assert_eq!(detect_debugger_terminal(true), TerminalOptValues::Vscode);
    assert_eq!(detect_debugger_terminal(false), TerminalOptValues::Tmuxp);
    let mut h = host(Platform::Linux, "ELF");
    assert_eq!(
        build_debugger_terminal(&None, &h, &None),
        DebuggerTerminal::Tmux(Tmux { layout: TmuxLayout::NewPane })
    );
    assert_eq!(
        build_debugger_terminal(&Some(TerminalOptValues::Tmuxw), &h, &None),
        DebuggerTerminal::Tmux(Tmux { layout: TmuxLayout::NewWindow })
    );
    h.in_vscode_term = true;
    h.git_ipc_handle = Some("/tmp/git-1.sock".to_string());
    match build_debugger_terminal(&None, &h, &None) {
        DebuggerTerminal::VsCode(v) => {
            assert_eq!(v.attach_information_fifo_path, "/tmp/dbgee-vscode-debuggees");
            assert_eq!(v.attach_request_fifo_path, Some("/tmp/dbgee-vscode-debuggee-for-git-1".to_string()));
        }
        other => panic!("unexpected terminal {:?}", other),
    }
    match build_debugger_terminal(&Some(TerminalOptValues::Vscode), &h, &Some("/tmp/t-".to_string())) {
        DebuggerTerminal::VsCode(v) => assert_eq!(v.attach_information_fifo_path, "/tmp/t-s"),
        other => panic!("unexpected terminal {:?}", other),
    }
}

#[test]
fn option_values_by_name() {
    assert_eq!(TerminalOptValues::from_name("tmuxw"), Some(TerminalOptValues::Tmuxw));
    assert_eq!(TerminalOptValues::from_name("tmux"), None);
    assert_eq!(TerminalOptValues::Vscode.name(), "vscode");
    assert_eq!(DebuggerOptValues::from_name("stop-and-write-pid"), Some(DebuggerOptValues::StopAndWritePid));
    assert_eq!(DebuggerOptValues::from_name("python"), None);
    assert_eq!(DebuggerOptValues::Debugpy.name(), "debugpy");
}

#[test]
fn run_refuses_a_debuggee_that_is_not_executable() {
    let mut h = host(Platform::Linux, "ELF");
    h.debuggee_stat = Some(FileStat { is_file: true, mode: 0o644 });
    let out = run(&run_opts("/bin/hello", None, None), &h);
    assert_eq!(out, Err(DbgeeError::DebuggeeNotExecutable { path: "/bin/hello".to_string() }));
    h.debuggee_stat = None;
    assert!(run(&run_opts("/bin/hello", None, None), &h).is_err());
}

#[test]
fn scenario_gdb_on_elf_in_a_tmux_window() {
    let h = host(Platform::Linux, "/bin/hello: ELF 64-bit LSB executable");
    let out = run(&run_opts("/bin/hello", None, Some(TerminalOptValues::Tmuxw)), &h).unwrap();
    let (mut debugger, terminal) = match out {
        Dispatch::Run { debugger, terminal } => (debugger, terminal),
        other => panic!("unexpected dispatch {:?}", other),
    };
    let plan = debugger.run("/bin/hello", &words(&["arg0", "arg1"]));
    assert_eq!(plan, LaunchPlan::ControlledStart { argv: words(&["/bin/hello", "arg0", "arg1"]) });
    debugger.attach(31337, "/bin/hello");
    let tmux = match terminal {
        DebuggerTerminal::Tmux(tmux) => tmux,
        other => panic!("unexpected terminal {:?}", other),
    };
    assert_eq!(
        tmux.open(None, true, &debugger),
        Ok(TmuxLaunch::InSession { argv: words(&["tmux", "new-window", "gdb", "-tui", "-p", "31337"]) })
    );
}

#[test]
fn scenario_lldb_on_mach_o_in_a_tmux_window() {
    let h = host(Platform::MacOs, "/bin/hello: Mach-O 64-bit executable x86_64");
    let out = run(&run_opts("/bin/hello", None, Some(TerminalOptValues::Tmuxw)), &h).unwrap();
    let (mut debugger, terminal) = match out {
        Dispatch::Run { debugger, terminal } => (debugger, terminal),
        other => panic!("unexpected dispatch {:?}", other),
    };
    debugger.attach(31337, "/bin/hello");
    let tmux = match terminal {
        DebuggerTerminal::Tmux(tmux) => tmux,
        other => panic!("unexpected terminal {:?}", other),
    };
    assert_eq!(
        tmux.open(None, true, &debugger),
        Ok(TmuxLaunch::InSession { argv: words(&["tmux", "new-window", "lldb", "-p", "31337"]) })
    );
}

#[test]
fn scenario_delve_on_a_go_binary() {
    let h = host(Platform::Linux, "/bin/go-hello: ELF 64-bit LSB executable, Go BuildID=x");
    let out = run(&run_opts("/bin/go-hello", None, Some(TerminalOptValues::Tmuxw)), &h).unwrap();
    let (mut debugger, terminal) = match out {
        Dispatch::Run { debugger, terminal } => (debugger, terminal),
        other => panic!("unexpected dispatch {:?}", other),
    };
    match debugger.run("/bin/go-hello", &words(&["arg0"])) {
        LaunchPlan::Server { program, args } => {
            assert_eq!(program, "dlv");
            assert_eq!(args[0..2].to_vec(), words(&["exec", "--headless"]));
        }
        other => panic!("unexpected plan {:?}", other),
    }
    let tmux = match terminal {
        DebuggerTerminal::Tmux(tmux) => tmux,
        other => panic!("unexpected terminal {:?}", other),
    };
    match tmux.open(None, true, &debugger).unwrap() {
        TmuxLaunch::InSession { argv } => {
            assert_eq!(argv[0..4].to_vec(), words(&["tmux", "new-window", "dlv", "connect"]));
        }
        other => panic!("unexpected launch {:?}", other),
    }
}

#[test]
fn scenario_debugpy_hands_over_to_the_ide() {
    let h = host(Platform::Linux, "/tmp/foo.py: Python script, ASCII text executable");
    let out = run(&run_opts("/tmp/foo.py", None, Some(TerminalOptValues::Vscode)), &h).unwrap();
    let (mut debugger, terminal) = match out {
        Dispatch::Run { debugger, terminal } => (debugger, terminal),
        other => panic!("unexpected dispatch {:?}", other),
    };
    match debugger.run("/tmp/foo.py", &words(&[])) {
        LaunchPlan::Server { program, args } => {
            assert_eq!(program, "python3");
            assert_eq!(
                args[0..5].to_vec(),
                words(&["-m", "debugpy", "--wait-for-client", "--listen", "5679"])
            );
        }
        other => panic!("unexpected plan {:?}", other),
    }
    let vscode = match terminal {
        DebuggerTerminal::VsCode(vscode) => vscode,
        other => panic!("unexpected terminal {:?}", other),
    };
    let handoff = vscode.open(&debugger, false).unwrap();
    assert_eq!(handoff.information.fifo_path, "/tmp/dbgee-vscode-debuggees");
    assert!(handoff.information.json.starts_with('{'));
    assert!(handoff.information.json.ends_with('}'));
    assert!(handoff.information.json.contains("\"debuggerPort\": \"5679\""));
}

#[test]
fn run_with_a_hook_condition_turns_to_hook_mode() {
    let mut opts = run_opts("/usr/bin/make", None, Some(TerminalOptValues::Tmuxw));
    if let Subcommand::Run(run_opts) = &mut opts.command {
        run_opts.hook_opts.hook_executable = Some("/bin/child".to_string());
    }
    let mut h = host(Platform::Linux, "ELF");
    h.backends.gdb = false;
    assert_eq!(
        run(&opts, &h),
        Ok(Dispatch::Hook { terminal: DebuggerTerminal::Tmux(Tmux { layout: TmuxLayout::NewWindow }) })
    );
}

#[test]
fn hook_conditions_are_passed_over_without_hook_mode() {
    let mut opts = run_opts("/usr/bin/make", None, Some(TerminalOptValues::Tmuxw));
    if let Subcommand::Run(run_opts) = &mut opts.command {
        run_opts.hook_opts.hook_source_dir = Some("/src".to_string());
    }
    let h = host(Platform::MacOs, "Mach-O 64-bit executable");
    assert!(!dbgee::supports_hook_mode(Platform::MacOs));
    assert!(dbgee::supports_hook_mode(Platform::Linux));
    match run(&opts, &h).unwrap() {
        Dispatch::Run { debugger, .. } => assert_eq!(kind_of(&debugger), "lldb"),
        other => panic!("unexpected dispatch {:?}", other),
    }
}

#[test]
fn set_and_unset_dispatch() {
    let h = host(Platform::Linux, "ELF");
    let set = Opts {
        log_level: None,
        vscode_fifo_prefix: None,
        command: Subcommand::SetDebuggee(SetOpts {
            debuggee: "/tmp/hello".to_string(),
            start_cmd: vec![],
            attach_opts: AttachOpts { debugger: None, terminal: Some(TerminalOptValues::Tmuxw) },
        }),
    };
    match run(&set, &h).unwrap() {
        Dispatch::Install { debugger, terminal } => {
            assert_eq!(kind_of(&debugger), "gdb");
            assert_eq!(terminal, DebuggerTerminal::Tmux(Tmux { layout: TmuxLayout::NewWindow }));
        }
        other => panic!("unexpected dispatch {:?}", other),
    }
    let unset = Opts {
        log_level: None,
        vscode_fifo_prefix: None,
        command: Subcommand::Unset(UnsetOpts { debuggee: "/tmp/hello".to_string(), debugger: None }),
    };
    match run(&unset, &h).unwrap() {
        Dispatch::Uninstall { debugger } => assert_eq!(kind_of(&debugger), "gdb"),
        other => panic!("unexpected dispatch {:?}", other),
    }
    let python = Opts {
        log_level: None,
        vscode_fifo_prefix: None,
        command: Subcommand::Unset(UnsetOpts {
            debuggee: "/tmp/hello".to_string(),
            debugger: Some(DebuggerOptValues::Debugpy),
        }),
    };
    assert_eq!(
        run(&python, &h),
        Err(DbgeeError::WrappingUnsupported { debugger: "Python".to_string() })
    );
}

#[test]
fn error_messages() {
    assert_eq!(
        DbgeeError::AlreadyWrapped { path: "/tmp/hello".to_string() }.message(),
        "/tmp/hello is already wrapped by dbgee. Did you set it already?"
    );
    assert_eq!(
        DbgeeError::NotWrapped { path: "/tmp/hello".to_string() }.message(),
        "/tmp/hello is not wrapped by dbgee. Did you unset it already?"
    );
    assert_eq!(
        DbgeeError::NoDebuggerDetected.message(),
        "Could not automatically detect the proper debugger for the given debuggee"
    );
    assert_eq!(DbgeeError::NoDebuggerDetected.kind(), ErrorKind::BackendMissing);
    assert_eq!(
        DbgeeError::PythonMissing.message(),
        "Neither 'python3' nor 'python' exist. Did you install python?"
    );
    assert_eq!(DbgeeError::TypeHintAbsent.message(), "[BUG] debugger has no DebuggerTypeHint");
    assert_eq!(DbgeeError::TypeHintAbsent.kind(), ErrorKind::InternalBug);
    assert_eq!(DbgeeError::RequestPipeUnknown.kind(), ErrorKind::Protocol);
}

fn target(path: &str, content: &[u8], mode: u32) -> Target {
    Target {
        path: PathLookup { given: path.to_string(), canonical: Some(path.to_string()) },
        stat: Some(FileStat { is_file: true, mode }),
        content: Some(content.to_vec()),
    }
}

#[test]
fn scenario_set_then_run_then_unset() {
    let program = b"\x7fELF the program".to_vec();
    let before = target("/tmp/hello", &program, 0o755);
    let install = wrap_debuggee_binary(&before, "dbgee run -t 'tmuxw' -- /tmp/hello-original \"$@\"").unwrap();
    let shim = match &install[1] {
        dbgee::shim::FsAction::Write { path, content } => {
            assert_eq!(path, "/tmp/hello");
            content.clone()
        }
        other => panic!("unexpected action {:?}", other),
    };
    let wrapped = target("/tmp/hello", &shim, 0o755);
    assert!(wrapped.is_wrapped());

    let mut h = host(Platform::Linux, "/tmp/hello: POSIX shell script, ASCII text executable");
    h.probes[0].wrapped = true;
    h.probes.push(FileProbe {
        file_output: "/tmp/hello-original: ELF 64-bit LSB executable".to_string(),
        go_version_output: None,
        wrapped: false,
    });
    let out = run(&run_opts("/tmp/hello", None, Some(TerminalOptValues::Tmuxw)), &h).unwrap();
    let (mut debugger, terminal) = match out {
        Dispatch::Run { debugger, terminal } => (debugger, terminal),
        other => panic!("unexpected dispatch {:?}", other),
    };
    assert_eq!(kind_of(&debugger), "gdb");
    let path = get_path_of_unset_debuggee(&wrapped).unwrap();
    assert_eq!(path, "/tmp/hello-original");
    assert_eq!(
        debugger.run(&path, &words(&["arg0"])),
        LaunchPlan::ControlledStart { argv: words(&["/tmp/hello-original", "arg0"]) }
    );
    debugger.attach(555, &path);
    let tmux = match terminal {
        DebuggerTerminal::Tmux(tmux) => tmux,
        other => panic!("unexpected terminal {:?}", other),
    };
    assert_eq!(
        tmux.open(None, true, &debugger),
        Ok(TmuxLaunch::InSession { argv: words(&["tmux", "new-window", "gdb", "-tui", "-p", "555"]) })
    );

    let removal = unset_from_exec_dbgee(&wrapped).unwrap();
    assert_eq!(
        removal[1],
        dbgee::shim::FsAction::Rename {
            from: "/tmp/hello-original".to_string(),
            to: "/tmp/hello".to_string()
        }
    );
}

#[test]
fn failures_exit_with_one_and_bugs_are_marked() {
    assert_eq!(DbgeeError::NoDebuggerDetected.exit_code(), 1);
    for bug in [
        DbgeeError::Uninitialized { debugger: "X".to_string() },
        DbgeeError::QueryUndefined { debugger: "X".to_string(), query: "q".to_string() },
        DbgeeError::TypeHintAbsent,
        DbgeeError::UnexpectedEvent,
    ] {
        assert_eq!(bug.kind(), ErrorKind::InternalBug);
        assert!(bug.message().starts_with("[BUG]"));
    }
}
