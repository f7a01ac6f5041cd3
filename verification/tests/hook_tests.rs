use dbgee::dwarf::{
    any_in_dwarf_decl_file, unit_names_source, CompDirLookup, CompilationUnit, DirectoryEntry,
    DwarfPathResolver, FileEntry, SourceFilter,
};
use dbgee::error::{DbgeeError, DebugInfoFault, ErrorKind, OsStep};
use dbgee::file_helper::PathLookup;
use dbgee::hook::{
    any_condition_hooks, build_hook_conditions, build_hook_executable_condition,
    build_hook_source_condition, build_hook_source_dir_condition, candidate_request,
    fork_requests, hooked_actions, is_any_hook_condition_set, run_hook, trace_step,
    wait_pid_exit_and_detach_other, HookAction, HookCondition, HookOpts, ReapStep, TraceStep,
};
use dbgee::trace::{wait_pid_exit, ForkKind, Signal, TraceOp, TraceRequest, WaitEvent};

fn found(path: &str) -> PathLookup {
    PathLookup { given: path.to_string(), canonical: Some(format!("/abs/{}", path)) }
}

fn missing(path: &str) -> PathLookup {
    PathLookup { given: path.to_string(), canonical: None }
}

fn entry(name: &str, index: u64, directory: DirectoryEntry) -> FileEntry {
    FileEntry { path_name: Some(name.to_string()), directory_index: index, directory }
}

fn unit(comp_dir: &str, files: Vec<FileEntry>) -> CompilationUnit {
    CompilationUnit { comp_dir: CompDirLookup::Canonical(comp_dir.to_string()), files: Some(files) }
}

#[test]
fn hook_conditions_set() {
    let none = HookOpts { hook_executable: None, hook_source: None, hook_source_dir: None };
    assert!(!is_any_hook_condition_set(&none));
    let exe = HookOpts { hook_executable: Some("a".to_string()), hook_source: None, hook_source_dir: None };
    assert!(is_any_hook_condition_set(&exe));
    let src = HookOpts { hook_executable: None, hook_source: Some(vec![]), hook_source_dir: None };
    assert!(is_any_hook_condition_set(&src));
    let dir = HookOpts { hook_executable: None, hook_source: None, hook_source_dir: Some("d".to_string()) };
    assert!(is_any_hook_condition_set(&dir));
}

#[test]
fn conditions_are_built_over_canonical_paths() {
    assert_eq!(
        build_hook_executable_condition(&found("child")),
        Ok(HookCondition::Executable { path: "/abs/child".to_string() })
    );
    assert_eq!(
        build_hook_source_dir_condition(&found("src")),
        Ok(HookCondition::Source { wanted: SourceFilter::Under("/abs/src".to_string()) })
    );
    assert_eq!(
        build_hook_source_condition(&vec![found("a.c"), found("b.c")]),
        Ok(HookCondition::Source {
            wanted: SourceFilter::AnyOf(vec!["/abs/a.c".to_string(), "/abs/b.c".to_string()])
        })
    );
    let all = build_hook_conditions(
        &Some(found("child")),
        &Some(vec![found("a.c")]),
        &Some(found("src")),
    )
    .unwrap();
    assert_eq!(all.len(), 3);
    assert_eq!(all[0], HookCondition::Executable { path: "/abs/child".to_string() });
    assert_eq!(all[2], HookCondition::Source { wanted: SourceFilter::Under("/abs/src".to_string()) });
    assert_eq!(build_hook_conditions(&None, &None, &None), Ok(vec![]));
}

#[test]
fn a_hook_path_that_does_not_exist_is_a_user_error() {
    let error = build_hook_executable_condition(&missing("child")).unwrap_err();
    assert_eq!(
        error,
        DbgeeError::PathNotFound { name: "hook_executable".to_string(), path: "child".to_string() }
    );
    assert_eq!(error.kind(), ErrorKind::UserInput);
    assert_eq!(
        build_hook_source_condition(&vec![found("a.c"), missing("b.c"), missing("c.c")]),
        Err(DbgeeError::PathNotFound { name: "hook_source".to_string(), path: "b.c".to_string() })
    );
    assert_eq!(
        build_hook_source_dir_condition(&missing("src")),
        Err(DbgeeError::PathNotFound { name: "hook_source_dir".to_string(), path: "src".to_string() })
    );
    assert_eq!(
        build_hook_conditions(&Some(found("child")), &Some(vec![missing("b.c")]), &Some(missing("src"))),
        Err(DbgeeError::PathNotFound { name: "hook_source".to_string(), path: "b.c".to_string() })
    );
}

#[test]
fn run_hook_prepares_command_and_conditions() {
    let plan = run_hook("make", &vec!["test".to_string()], &Some(found("child")), &None, &None).unwrap();
    assert_eq!(plan.argv, vec!["make".to_string(), "test".to_string()]);
    assert_eq!(plan.conditions, vec![HookCondition::Executable { path: "/abs/child".to_string() }]);
    assert!(run_hook("make", &vec![], &Some(missing("child")), &None, &None).is_err());
}

#[test]
fn executable_condition_compares_paths() {
    let condition = HookCondition::Executable { path: "/usr/bin/child".to_string() };
    assert!(!condition.needs_debug_info());
    assert!(condition.hooks("/usr/bin/child", &vec![]));
    assert!(condition.hooks("/usr/bin//child", &vec![]));
    assert!(!condition.hooks("/usr/bin/child2", &vec![]));
    assert!(any_condition_hooks(&vec![condition.clone()], "/usr/bin/child", &vec![]));
    assert!(!any_condition_hooks(&vec![condition], "/usr/bin/other", &vec![]));
    assert!(!any_condition_hooks(&vec![], "/usr/bin/other", &vec![]));
}

#[test]
fn source_conditions_scan_the_units() {
    let units = vec![
        CompilationUnit { comp_dir: CompDirLookup::Absent, files: Some(vec![entry("/src/app/main.c", 0, DirectoryEntry::Absent)]) },
        unit("/src/lib", vec![entry("util.c", 0, DirectoryEntry::Absent), entry("x.c", 1, DirectoryEntry::Named("sub".to_string()))]),
    ];
    let file = HookCondition::Source { wanted: SourceFilter::AnyOf(vec!["/src/lib/sub/x.c".to_string()]) };
    assert!(file.needs_debug_info());
    assert!(file.hooks("/bin/a", &units));
    let other = HookCondition::Source { wanted: SourceFilter::AnyOf(vec!["/src/app/main.c".to_string()]) };
    assert!(!other.hooks("/bin/a", &units));
    let dir = HookCondition::Source { wanted: SourceFilter::Under("/src/lib".to_string()) };
    assert!(dir.hooks("/bin/a", &units));
    let far = HookCondition::Source { wanted: SourceFilter::Under("/src/li".to_string()) };
    assert!(!far.hooks("/bin/a", &units));
}

#[test]
fn resolver_build() {
    assert_eq!(DwarfPathResolver::build(&CompDirLookup::Absent), Ok(None));
    assert_eq!(DwarfPathResolver::build(&CompDirLookup::Missing), Ok(None));
    let error = DwarfPathResolver::build(&CompDirLookup::Failed).unwrap_err();
    assert_eq!(error, DbgeeError::DebugInfo { fault: DebugInfoFault::CompDirUnresolved });
    assert_eq!(error.kind(), ErrorKind::OsFailure);
    assert_eq!(
        DwarfPathResolver::build(&CompDirLookup::Canonical("/b".to_string())),
        Ok(Some(DwarfPathResolver { comp_dir: "/b".to_string() }))
    );
}

#[test]
fn resolver_resolves_directories_and_files() {
    let resolver = DwarfPathResolver { comp_dir: "/build".to_string() };
    assert_eq!(resolver.resolve_directory(0, &DirectoryEntry::Named("x".to_string())), Ok(Some("/build".to_string())));
    assert_eq!(resolver.resolve_directory(2, &DirectoryEntry::Named("inc".to_string())), Ok(Some("/build/inc".to_string())));
    assert_eq!(resolver.resolve_directory(2, &DirectoryEntry::Named("/usr/include".to_string())), Ok(Some("/usr/include".to_string())));
    assert_eq!(resolver.resolve_directory(2, &DirectoryEntry::Absent), Ok(None));
    assert_eq!(
        resolver.resolve_directory(2, &DirectoryEntry::Unreadable),
        Err(DbgeeError::DebugInfo { fault: DebugInfoFault::DirectoryUnreadable })
    );
    assert_eq!(resolver.resolve_file(&entry("main.c", 0, DirectoryEntry::Absent)), Ok(Some("/build/main.c".to_string())));
    assert_eq!(resolver.resolve_file(&entry("/abs/main.c", 3, DirectoryEntry::Absent)), Ok(Some("/abs/main.c".to_string())));
    assert_eq!(
        resolver.resolve_file(&entry("h.h", 1, DirectoryEntry::Named("inc".to_string()))),
        Ok(Some("/build/inc/h.h".to_string()))
    );
    assert_eq!(
        resolver.resolve_file(&entry("h.h", 1, DirectoryEntry::Absent)),
        Err(DbgeeError::DebugInfo { fault: DebugInfoFault::DirectoryAbsent })
    );
    assert_eq!(
        resolver.resolve_file(&entry("h.h", 1, DirectoryEntry::Unreadable)),
        Err(DbgeeError::DebugInfo { fault: DebugInfoFault::DirectoryUnreadable })
    );
    assert_eq!(
        resolver.resolve_file(&FileEntry { path_name: None, directory_index: 0, directory: DirectoryEntry::Absent }),
        Err(DbgeeError::DebugInfo { fault: DebugInfoFault::FileNameUnreadable })
    );
}

#[test]
fn units_that_cannot_be_used_are_passed_over() {
    let wanted = SourceFilter::AnyOf(vec!["/src/main.c".to_string()]);
    let failed = CompilationUnit { comp_dir: CompDirLookup::Failed, files: Some(vec![entry("/src/main.c", 0, DirectoryEntry::Absent)]) };
    let missing = CompilationUnit { comp_dir: CompDirLookup::Missing, files: Some(vec![entry("/src/main.c", 0, DirectoryEntry::Absent)]) };
    let no_lines = CompilationUnit { comp_dir: CompDirLookup::Canonical("/src".to_string()), files: None };
    let good = unit("/src", vec![entry("bad", 5, DirectoryEntry::Absent), entry("main.c", 0, DirectoryEntry::Absent)]);
    assert!(!unit_names_source(&failed, &wanted));
    assert!(!unit_names_source(&missing, &wanted));
    assert!(!unit_names_source(&no_lines, &wanted));
    assert!(unit_names_source(&good, &wanted));
    assert!(!any_in_dwarf_decl_file(&vec![failed.clone(), missing.clone(), no_lines.clone()], &wanted));
    assert!(any_in_dwarf_decl_file(&vec![failed, missing, no_lines, good], &wanted));
    assert!(!any_in_dwarf_decl_file(&vec![], &wanted));
    assert!(SourceFilter::Under("/src".to_string()).test("/src/a/b.c"));
    assert!(!SourceFilter::AnyOf(vec![]).test("/src/a/b.c"));
}

#[test]
fn trace_loop_decisions() {
    assert_eq!(
        trace_step(10, &WaitEvent::Stopped { pid: 10, signal: Signal::Trap }),
        TraceStep::Candidate { pid: 10, trace_descendants: true }
    );
    assert_eq!(
        trace_step(10, &WaitEvent::Stopped { pid: 11, signal: Signal::Trap }),
        TraceStep::Candidate { pid: 11, trace_descendants: false }
    );
    assert_eq!(
        trace_step(10, &WaitEvent::Stopped { pid: 11, signal: Signal::Other(17) }),
        TraceStep::Resume {
            request: Some(TraceRequest {
                op: TraceOp::Continue { pid: 11, signal: Some(Signal::Other(17)) },
                on_failure: None
            })
        }
    );
    assert_eq!(
        trace_step(10, &WaitEvent::Forked { pid: 11, kind: ForkKind::VFork }),
        TraceStep::Forked { parent: 11 }
    );
    assert_eq!(trace_step(10, &WaitEvent::Exited { pid: 10, code: 0 }), TraceStep::Resume { request: None });
    assert_eq!(
        trace_step(10, &WaitEvent::Signaled { pid: 11, signal: Signal::Kill }),
        TraceStep::Resume { request: None }
    );
    assert_eq!(
        trace_step(10, &WaitEvent::Other { pid: Some(12) }),
        TraceStep::Resume {
            request: Some(TraceRequest { op: TraceOp::Continue { pid: 12, signal: None }, on_failure: None })
        }
    );
    assert_eq!(trace_step(10, &WaitEvent::Other { pid: None }), TraceStep::Resume { request: None });
    assert_eq!(trace_step(10, &WaitEvent::NoChildren), TraceStep::AllExited);
    assert_eq!(
        trace_step(10, &WaitEvent::Failed),
        TraceStep::Failed { error: DbgeeError::Os { step: OsStep::WaitForTrap } }
    );
    assert_eq!(
        trace_step(10, &WaitEvent::NoSuchProcess),
        TraceStep::Failed { error: DbgeeError::Os { step: OsStep::WaitForTrap } }
    );
}

#[test]
fn candidate_requests() {
    assert_eq!(
        candidate_request(5, true),
        TraceRequest { op: TraceOp::Detach { pid: 5, signal: Some(Signal::Stop) }, on_failure: Some(OsStep::Detach) }
    );
    assert_eq!(
        candidate_request(5, false),
        TraceRequest { op: TraceOp::Continue { pid: 5, signal: None }, on_failure: Some(OsStep::Continue) }
    );
}

#[test]
fn fork_requests_for_both_processes() {
    assert_eq!(
        fork_requests(5, Some(6), false),
        Ok(vec![
            TraceRequest { op: TraceOp::Continue { pid: 5, signal: None }, on_failure: None },
            TraceRequest { op: TraceOp::Continue { pid: 6, signal: None }, on_failure: None },
        ])
    );
    assert_eq!(
        fork_requests(5, Some(6), true),
        Ok(vec![
            TraceRequest { op: TraceOp::Detach { pid: 5, signal: None }, on_failure: None },
            TraceRequest { op: TraceOp::Detach { pid: 6, signal: None }, on_failure: None },
        ])
    );
    assert_eq!(fork_requests(5, None, false), Err(DbgeeError::Os { step: OsStep::ReadForkEvent }));
    assert_eq!(
        fork_requests(5, Some(0x1_0000_0007), false).unwrap()[1],
        TraceRequest { op: TraceOp::Continue { pid: 7, signal: None }, on_failure: None }
    );
}

#[test]
fn what_follows_a_hooked_process() {
    assert_eq!(
        hooked_actions(10, 14, "/bin/child"),
        vec![
            HookAction::Release {
                request: TraceRequest {
                    op: TraceOp::Detach { pid: 14, signal: Some(Signal::Stop) },
                    on_failure: Some(OsStep::Detach)
                }
            },
            HookAction::Attach { pid: 14, debuggee: "/bin/child".to_string() },
            HookAction::HandOver { pid: 14 },
            HookAction::Reap { root: 10 },
        ]
    );
}

#[test]
fn reap_loop_decisions() {
    assert_eq!(wait_pid_exit_and_detach_other(10, &WaitEvent::Exited { pid: 10, code: 3 }), ReapStep::Done);
    assert_eq!(
        wait_pid_exit_and_detach_other(10, &WaitEvent::Exited { pid: 11, code: 3 }),
        ReapStep::Release { request: None }
    );
    assert_eq!(wait_pid_exit_and_detach_other(10, &WaitEvent::NoSuchProcess), ReapStep::Done);
    assert_eq!(wait_pid_exit_and_detach_other(10, &WaitEvent::NoChildren), ReapStep::Done);
    assert_eq!(
        wait_pid_exit_and_detach_other(10, &WaitEvent::Failed),
        ReapStep::Failed { error: DbgeeError::Os { step: OsStep::WaitForTrap } }
    );
    assert_eq!(
        wait_pid_exit_and_detach_other(10, &WaitEvent::Forked { pid: 11, kind: ForkKind::Fork }),
        ReapStep::Forked { parent: 11 }
    );
    assert_eq!(
        wait_pid_exit_and_detach_other(10, &WaitEvent::Forked { pid: 11, kind: ForkKind::Clone }),
        ReapStep::Forked { parent: 11 }
    );
    assert_eq!(
        wait_pid_exit_and_detach_other(10, &WaitEvent::Forked { pid: 11, kind: ForkKind::VFork }),
        ReapStep::Release {
            request: Some(TraceRequest { op: TraceOp::Detach { pid: 11, signal: None }, on_failure: None })
        }
    );
    assert_eq!(
        wait_pid_exit_and_detach_other(10, &WaitEvent::Stopped { pid: 11, signal: Signal::Trap }),
        ReapStep::Release {
            request: Some(TraceRequest {
                op: TraceOp::Detach { pid: 11, signal: Some(Signal::Trap) },
                on_failure: None
            })
        }
    );
    assert_eq!(
        wait_pid_exit_and_detach_other(10, &WaitEvent::Signaled { pid: 11, signal: Signal::Kill }),
        ReapStep::Release {
            request: Some(TraceRequest { op: TraceOp::Detach { pid: 11, signal: None }, on_failure: None })
        }
    );
}

#[test]
fn exit_codes() {
    assert_eq!(wait_pid_exit(&WaitEvent::Exited { pid: 1, code: 42 }), Some(42));
    assert_eq!(wait_pid_exit(&WaitEvent::Exited { pid: 1, code: 0 }), Some(0));
    assert_eq!(wait_pid_exit(&WaitEvent::Signaled { pid: 1, signal: Signal::Kill }), Some(130));
    assert_eq!(wait_pid_exit(&WaitEvent::NoChildren), Some(0));
    assert_eq!(wait_pid_exit(&WaitEvent::Stopped { pid: 1, signal: Signal::Stop }), None);
    assert_eq!(wait_pid_exit(&WaitEvent::Failed), None);
    assert_eq!(wait_pid_exit(&WaitEvent::NoSuchProcess), None);
}
