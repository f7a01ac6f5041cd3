use dbgee::error::{DbgeeError, ErrorKind};
use dbgee::file_helper::{
    bail_if_not_executable, command_candidates, command_exists, file_command, get_abspath,
    get_cached_file_output, get_valid_executable_path, is_executable, is_go_binary,
    CommandOutputCache, FileProbe, FileStat, PathLookup,
};
use dbgee::logging::{init_logger, message_string, LogFilter, LogLevel};
use dbgee::process::{is_in_vscode_term, ProcessInfo};
use dbgee::run_command::{
    build_run_command, escape_single_quote, reconstruct_flags, setopts_positional_args, FlagMatch,
};

fn words(list: &[&str]) -> Vec<String> {
    list.iter().map(|s| s.to_string()).collect()
}

fn exe() -> Option<FileStat> {
    Some(FileStat { is_file: true, mode: 0o755 })
}

fn lookup(path: &str) -> PathLookup {
    PathLookup { given: path.to_string(), canonical: Some(path.to_string()) }
}

#[test]
fn executable_is_a_regular_file_with_an_execute_bit() {
    assert!(is_executable(Some(FileStat { is_file: true, mode: 0o100 })));
    assert!(is_executable(Some(FileStat { is_file: true, mode: 0o010 })));
    assert!(is_executable(Some(FileStat { is_file: true, mode: 0o001 })));
    assert!(is_executable(Some(FileStat { is_file: true, mode: 0o100755 })));
    assert!(!is_executable(Some(FileStat { is_file: true, mode: 0o666 })));
    assert!(!is_executable(Some(FileStat { is_file: false, mode: 0o755 })));
    assert!(!is_executable(None));
}

#[test]
fn abspath_and_valid_executable_path() {
    let relative = PathLookup { given: "hello".to_string(), canonical: Some("/tmp/hello".to_string()) };
    assert_eq!(get_abspath(&relative, "debuggee"), Ok("/tmp/hello".to_string()));
    let gone = PathLookup { given: "gone".to_string(), canonical: None };
    let error = get_abspath(&gone, "debuggee").unwrap_err();
    assert_eq!(error, DbgeeError::PathNotFound { name: "debuggee".to_string(), path: "gone".to_string() });
    assert_eq!(error.kind(), ErrorKind::UserInput);
    assert_eq!(error.message(), "debuggee (Path: 'gone') does not exist.");
    assert_eq!(get_valid_executable_path(&relative, "the debuggee", exe()), Ok("/tmp/hello".to_string()));
    let error = get_valid_executable_path(&relative, "the debuggee", None).unwrap_err();
    assert_eq!(error.message(), "the debuggee (/tmp/hello) is not executable");
    assert_eq!(error.kind(), ErrorKind::UserInput);
    assert!(get_valid_executable_path(&gone, "the debuggee", exe()).is_err());
}

#[test]
fn bail_if_not_executable_names_the_debuggee() {
    assert_eq!(bail_if_not_executable("/bin/hello", exe()), Ok(()));
    let error = bail_if_not_executable("/etc/passwd", Some(FileStat { is_file: true, mode: 0o644 })).unwrap_err();
    assert_eq!(error.message(), "the debugee (path: '/etc/passwd') is not an executable file.");
    assert_eq!(error.kind(), ErrorKind::UserInput);
}

#[test]
fn command_candidates_per_directory() {
    assert_eq!(
        command_candidates("/usr/local/bin:/usr/bin:/bin", "gdb"),
        words(&["/usr/local/bin/gdb", "/usr/bin/gdb", "/bin/gdb"])
    );
    assert_eq!(command_candidates("", "gdb"), words(&["/gdb"]));
    assert!(command_exists(&vec![None, exe()]));
    assert!(!command_exists(&vec![None, Some(FileStat { is_file: false, mode: 0o755 })]));
    assert!(!command_exists(&vec![]));
}

#[test]
fn cache_keeps_the_first_output() {
    let mut cache = CommandOutputCache::new();
    let cmd = words(&["file", "-L", "/bin/hello"]);
    assert_eq!(cache.get_cached_command_output(&cmd), None);
    assert_eq!(get_cached_file_output(&cache, "/bin/hello"), None);
    cache.remember(&cmd, "ELF");
    assert_eq!(cache.get_cached_command_output(&cmd), Some("ELF".to_string()));
    assert_eq!(get_cached_file_output(&cache, "/bin/hello"), Some("ELF".to_string()));
    assert_eq!(get_cached_file_output(&cache, "/bin/other"), None);
    cache.remember(&cmd, "changed");
    assert_eq!(cache.get_cached_command_output(&cmd), Some("ELF".to_string()));
    assert_eq!(cache.entries.len(), 2);
    assert_eq!(cache.entries[0].cmd, cmd);
    assert_eq!(cache.get_cached_command_output(&words(&["file,-L,/bin/hello"])), None);
    assert_eq!(cache.get_cached_command_output(&words(&["file", "-L,/bin/hello"])), None);
    assert_eq!(file_command("/bin/hello"), cmd);
}

#[test]
fn probe_tags() {
    let probe = |text: &str, wrapped: bool| FileProbe {
        file_output: text.to_string(),
        go_version_output: None,
        wrapped,
    };
    assert!(probe("ELF 64-bit LSB pie executable", false).is_native());
    assert!(probe("Mach-O 64-bit executable arm64", false).is_native());
    assert!(!probe("elf", false).is_native());
    assert!(probe("Python script, ASCII text executable", false).is_python());
    assert!(probe("POSIX shell script", true).is_wrapped_shell());
    assert!(!probe("POSIX shell script", false).is_wrapped_shell());
    assert!(!probe("ELF", true).is_wrapped_shell());
    assert!(probe("ELF, Go BuildID=abc", false).is_go());
    assert!(!probe("ELF, Golang", false).is_go());
}

#[test]
fn go_version_is_matched_by_the_pattern() {
    let with_version = |text: &str| FileProbe {
        file_output: "data".to_string(),
        go_version_output: Some(text.to_string()),
        wrapped: false,
    };
    assert!(with_version("/bin/a: go1.16.3").is_go());
    assert!(with_version("go1").is_go());
    assert!(!with_version("go").is_go());
    assert!(!with_version("/bin/a: not a go binary").is_go());
    assert!(!with_version("1.16").is_go());
    assert!(is_go_binary("x", Some(true)));
    assert!(!is_go_binary("x", Some(false)));
    assert!(!is_go_binary("x", None));
    assert!(is_go_binary("Go ", None));
}

#[test]
fn single_quotes_are_escaped() {
    assert_eq!(escape_single_quote("plain"), "plain");
    assert_eq!(escape_single_quote("it's"), "it'\"'\"'s");
    assert_eq!(escape_single_quote("''"), "'\"'\"''\"'\"'");
    assert_eq!(escape_single_quote(""), "");
}

#[test]
fn flags_are_written_out_again() {
    let flags = vec![
        FlagMatch { name: "debuggee".to_string(), values: Some(words(&["/tmp/hello"])) },
        FlagMatch { name: "terminal".to_string(), values: Some(words(&["tmuxw"])) },
        FlagMatch { name: "start-cmd".to_string(), values: Some(words(&["make", "test"])) },
        FlagMatch { name: "log_level".to_string(), values: Some(words(&["it's"])) },
        FlagMatch { name: "verbose".to_string(), values: None },
    ];
    assert_eq!(
        reconstruct_flags(&flags, &setopts_positional_args()),
        "--terminal 'tmuxw' --log-level 'it'\"'\"'s' --verbose"
    );
    assert_eq!(reconstruct_flags(&vec![], &vec![]), "");
    assert_eq!(setopts_positional_args(), words(&["debuggee", "start-cmd"]));
}

#[test]
fn debugger_test_build_run_command_normal() {
    let set_flags = vec![
        FlagMatch { name: "debuggee".to_string(), values: Some(words(&["/tmp/debuggee"])) },
        FlagMatch { name: "terminal".to_string(), values: Some(words(&["tmuxw"])) },
        FlagMatch { name: "start-cmd".to_string(), values: Some(words(&["/tmp/start", "some_args"])) },
    ];
    let command = build_run_command(
        &lookup("/usr/bin/dbgee"),
        exe(),
        &vec![],
        &set_flags,
        &lookup("/tmp/debuggee"),
        exe(),
    )
    .unwrap();
    assert_eq!(command, "/usr/bin/dbgee  run --terminal 'tmuxw' -- /tmp/debuggee-original \"$@\"");
    let reparsed: Vec<String> = command
        .split(' ')
        .map(|s| if s.starts_with('\'') { s[1..s.len() - 1].to_owned() } else { s.to_owned() })
        .filter(|s| !s.is_empty())
        .collect();
    assert_eq!(
        reparsed,
        words(&["/usr/bin/dbgee", "run", "--terminal", "tmuxw", "--", "/tmp/debuggee-original", "\"$@\""])
    );
}

#[test]
fn main_test_build_run_command_normal() {
    let global = vec![FlagMatch { name: "log-level".to_string(), values: Some(words(&["debug"])) }];
    let set_flags = vec![
        FlagMatch { name: "debugger".to_string(), values: Some(words(&["stop-and-write-pid"])) },
        FlagMatch { name: "debuggee".to_string(), values: Some(words(&["/tmp/debuggee"])) },
    ];
    let command = build_run_command(
        &lookup("/usr/bin/dbgee"),
        exe(),
        &global,
        &set_flags,
        &lookup("/tmp/debuggee"),
        exe(),
    )
    .unwrap();
    assert_eq!(
        command,
        "/usr/bin/dbgee --log-level 'debug' run --debugger 'stop-and-write-pid' -- /tmp/debuggee-original \"$@\""
    );
}

#[test]
fn run_command_needs_both_executables() {
    let gone = PathLookup { given: "dbgee".to_string(), canonical: None };
    assert_eq!(
        build_run_command(&gone, None, &vec![], &vec![], &lookup("/tmp/d"), exe()),
        Err(DbgeeError::PathNotFound { name: "dbgee".to_string(), path: "dbgee".to_string() })
    );
    assert_eq!(
        build_run_command(&lookup("/usr/bin/dbgee"), exe(), &vec![], &vec![], &lookup("/tmp/d"), None),
        Err(DbgeeError::NotExecutable { name: "debuggee".to_string(), path: "/tmp/d".to_string() })
    );
}

#[test]
fn log_filter() {
    assert_eq!(
        init_logger(&Some(LogLevel::Trace), true),
        LogFilter { level: LogLevel::Trace, suppression_notice: false }
    );
    assert_eq!(init_logger(&None, true), LogFilter { level: LogLevel::Info, suppression_notice: true });
    assert_eq!(init_logger(&None, false), LogFilter { level: LogLevel::Error, suppression_notice: false });
    assert_eq!(LogLevel::from_name("warn"), Some(LogLevel::Warn));
    assert_eq!(LogLevel::from_name("loud"), None);
    assert_eq!(LogLevel::Debug.name(), "debug");
    assert_eq!(message_string("Error: x"), "[Dbgee] Error: x");
}

fn process(pid: i32, name: &str, cmd: &[&str], exe: &str, parent: Option<i32>) -> ProcessInfo {
    ProcessInfo { pid, name: name.to_string(), cmd: words(cmd), exe: exe.to_string(), parent }
}

#[test]
fn ide_is_found_among_the_ancestors() {
    let table = vec![
        process(1, "init", &["/sbin/init"], "/sbin/init", None),
        process(50, "node", &["/home/u/.vscode-server/bin/node", "server.js"], "/usr/bin/node", Some(1)),
        process(60, "bash", &["bash"], "/bin/bash", Some(50)),
        process(70, "dbgee", &["dbgee", "run"], "/usr/bin/dbgee", Some(60)),
        process(80, "node", &["node", "app.js"], "/usr/bin/node", Some(1)),
        process(90, "dbgee", &["dbgee"], "/usr/bin/dbgee", Some(80)),
        process(100, "Electron", &["Electron"], "/Applications/Visual Studio Code.app/Contents/MacOS/Electron", Some(1)),
        process(110, "zsh", &["zsh"], "/bin/zsh", Some(100)),
    ];
    assert!(is_in_vscode_term(&table, 70));
    assert!(is_in_vscode_term(&table, 50));
    assert!(!is_in_vscode_term(&table, 90));
    assert!(is_in_vscode_term(&table, 110));
    assert!(!is_in_vscode_term(&table, 1));
    assert!(!is_in_vscode_term(&table, 12345));
    assert!(!is_in_vscode_term(&vec![], 1));
}

#[test]
fn a_cycle_of_parents_ends() {
    let table = vec![
        process(1, "a", &[], "/a", Some(2)),
        process(2, "b", &[], "/b", Some(1)),
    ];
    assert!(!is_in_vscode_term(&table, 1));
}
