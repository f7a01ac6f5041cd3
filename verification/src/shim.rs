//! Reversible replacement of an executable by a shim script that starts a
//! debug session, and the one test that tells a shim from a program.

use vstd::prelude::*;
use vstd::string::*;
use crate::error::{DbgeeError, ErrorKind};
use crate::file_helper::{
    get_abspath, get_valid_executable_path, is_executable_stat, FileStat, PathLookup,
};
use crate::text::{replace, replaced, texts};

verus! {

/// Suffix that names the backup sibling of a wrapped executable.
pub const BACKUP_SUFFIX: &'static str = "-original";

/// First line of every shim.
pub const SIGNATURE_LINE_1: &'static str = "#!/bin/sh";

/// Second line of every shim.
pub const SIGNATURE_LINE_2: &'static str = "# a wrapper script generated by dbgee";

/// What follows the two signature lines in the template of a shim.
pub const TEMPLATE_BODY: &'static str =
    "# It stands in for %debuggee% and starts a debug session for the program,\n# which is kept beside it as its -original sibling.\nexec %run_cmd%\n";

/// The token of the template that the run command replaces.
pub const RUN_CMD_TOKEN: &'static str = "%run_cmd%";

/// The token of the template that the quoted path of the debuggee replaces.
pub const DEBUGGEE_TOKEN: &'static str = "%debuggee%";

/// The byte that ends a line.
pub const NEWLINE: u8 = 10;

/// The byte that may stand before a newline and is then part of the line end.
pub const CARRIAGE_RETURN: u8 = 13;

/// The model of [`get_debuggee_backup_name`]: the name followed by the suffix.
pub open spec fn backup_name(name: Seq<char>) -> Seq<char> {
    name + BACKUP_SUFFIX@
}

/// Name of the sibling under which the original executable is kept.
pub fn get_debuggee_backup_name(debuggee_filename: &str) -> (backup: String)
    ensures
        backup@ == backup_name(debuggee_filename@),
{
    String::from_str(debuggee_filename).concat(BACKUP_SUFFIX)
}

/// A name and its backup name are never the same.
pub proof fn lemma_backup_name_differs(name: Seq<char>)
    ensures
        backup_name(name) != name,
{
    reveal_strlit("-original");
    assert(backup_name(name).len() == name.len() + 9);
}

/// Index of the first line end in `s` at or after `from`, or the length of
/// `s` if there is none.
pub open spec fn line_end(s: Seq<u8>, from: int) -> int
    decreases s.len() - from,
{
    if from < 0 || from >= s.len() {
        s.len() as int
    } else if s[from] == NEWLINE {
        from
    } else {
        line_end(s, from + 1)
    }
}

/// The line of `s` that begins at `from`, without its line end: a newline,
/// or a carriage return and a newline. A last line without a newline keeps
/// a carriage return.
pub open spec fn line_at(s: Seq<u8>, from: int) -> Seq<u8> {
    let end = line_end(s, from);
    let raw = s.subrange(from, end);
    if end < s.len() && raw.len() > 0 && raw.last() == CARRIAGE_RETURN {
        raw.drop_last()
    } else {
        raw
    }
}

/// Where the line after the one at `from` begins; the length of `s` if the
/// line at `from` is the last.
pub open spec fn next_line(s: Seq<u8>, from: int) -> int {
    let end = line_end(s, from);
    if end < s.len() {
        end + 1
    } else {
        s.len() as int
    }
}

/// The file has at least two lines, and its first two lines are the two
/// signature lines. Nothing else makes a shim.
pub open spec fn is_shim(content: Seq<u8>) -> bool {
    &&& 0 < content.len()
    &&& line_at(content, 0) == SIGNATURE_LINE_1.spec_bytes()
    &&& next_line(content, 0) < content.len()
    &&& line_at(content, next_line(content, 0)) == SIGNATURE_LINE_2.spec_bytes()
}

/// A position that is or ends the input, with no newline between `from` and
/// it, is the line end found from `from`.
pub proof fn lemma_line_end_is(s: Seq<u8>, from: int, end: int)
    requires
        0 <= from <= end <= s.len(),
        forall|i: int| from <= i < end ==> s[i] != NEWLINE,
        end < s.len() ==> s[end] == NEWLINE,
    ensures
        line_end(s, from) == end,
    decreases end - from,
{
    if from < end {
        lemma_line_end_is(s, from + 1, end);
    }
}

fn find_line_end(content: &[u8], from: usize) -> (end: usize)
    requires
        from <= content@.len(),
    ensures
        end == line_end(content@, from as int),
        from <= end <= content@.len(),
{
    let mut end: usize = from;
    while end < content.len() && content[end] != NEWLINE
        invariant
            from <= end <= content@.len(),
            forall|i: int| from <= i < end ==> content@[i] != NEWLINE,
        decreases content@.len() - end,
    {
        end = end + 1;
    }
    proof {
        lemma_line_end_is(content@, from as int, end as int);
    }
    end
}

/// Whether the bytes of `content` from `from` up to `to` are `expected`.
fn same_bytes(content: &[u8], from: usize, to: usize, expected: &[u8]) -> (same: bool)
    requires
        from <= to <= content@.len(),
    ensures
        same == (content@.subrange(from as int, to as int) == expected@),
{
    if to - from != expected.len() {
        return false;
    }
    let mut k: usize = 0;
    while k < expected.len()
        invariant
            from <= to <= content@.len(),
            to - from == expected@.len(),
            k <= expected@.len(),
            forall|j: int| 0 <= j < k ==> content@[from + j] == expected@[j],
        decreases expected@.len() - k,
    {
        if content[from + k] != expected[k] {
            assert(content@.subrange(from as int, to as int)[k as int] == content@[from + k]);
            return false;
        }
        k = k + 1;
    }
    assert(content@.subrange(from as int, to as int) =~= expected@);
    true
}

/// Whether the line of `content` at `from` is `expected`; also where the
/// next line begins.
fn line_is(content: &[u8], from: usize, expected: &[u8]) -> (out: (bool, usize))
    requires
        from <= content@.len(),
    ensures
        out.0 == (line_at(content@, from as int) == expected@),
        out.1 == next_line(content@, from as int),
        from <= out.1 <= content@.len(),
{
    let end = find_line_end(content, from);
    let ghost raw = content@.subrange(from as int, end as int);
    if end < content.len() {
        let to: usize = if end > from && content[end - 1] == CARRIAGE_RETURN {
            end - 1
        } else {
            end
        };
        proof {
            if end > from {
                assert(raw.last() == content@[end - 1]);
            }
            assert(line_at(content@, from as int) =~= content@.subrange(from as int, to as int));
        }
        (same_bytes(content, from, to, expected), end + 1)
    } else {
        (same_bytes(content, from, end, expected), end)
    }
}

/// Tells a shim from any other file by its first two lines.
pub fn check_if_wrapped(content: &[u8]) -> (wrapped: bool)
    ensures
        wrapped == is_shim(content@),
{
    if content.len() == 0 {
        return false;
    }
    let (first, second_at) = line_is(content, 0, SIGNATURE_LINE_1.as_bytes());
    if !first || second_at >= content.len() {
        return false;
    }
    let (second, _) = line_is(content, second_at, SIGNATURE_LINE_2.as_bytes());
    second
}

/// The two signature lines, each with its newline.
pub open spec fn signature_bytes() -> Seq<u8> {
    SIGNATURE_LINE_1.spec_bytes() + seq![NEWLINE] + SIGNATURE_LINE_2.spec_bytes() + seq![NEWLINE]
}

/// Whatever follows the two signature lines, the file is a shim.
pub proof fn lemma_signature_makes_shim(rest: Seq<u8>)
    ensures
        is_shim(signature_bytes() + rest),
{
    reveal_strlit("#!/bin/sh");
    reveal_strlit("# a wrapper script generated by dbgee");
    broadcast use vstd::string::is_ascii_spec_bytes;

    assert(is_ascii(SIGNATURE_LINE_1));
    assert(is_ascii(SIGNATURE_LINE_2));
    let first = SIGNATURE_LINE_1.spec_bytes();
    let second = SIGNATURE_LINE_2.spec_bytes();
    let s = signature_bytes() + rest;
    assert(first.len() == 9);
    assert(second.len() == 37);
    assert(forall|i: int| 0 <= i < 9 ==> s[i] == first[i]);
    assert(s[9] == NEWLINE);
    assert(forall|i: int| 10 <= i < 47 ==> s[i] == second[i - 10]);
    assert(s[47] == NEWLINE);
    lemma_line_end_is(s, 0, 9);
    lemma_line_end_is(s, 10, 47);
    assert(s.subrange(0, 9) =~= first);
    assert(s.subrange(10, 47) =~= second);
}

/// The template of a shim: the two signature lines and the body with its
/// tokens.
pub open spec fn template_bytes() -> Seq<u8> {
    signature_bytes() + TEMPLATE_BODY.spec_bytes()
}

/// The two signature lines are the first two lines of the template.
pub proof fn lemma_template_begins_with_signature()
    ensures
        line_at(template_bytes(), 0) == SIGNATURE_LINE_1.spec_bytes(),
        line_at(template_bytes(), next_line(template_bytes(), 0))
            == SIGNATURE_LINE_2.spec_bytes(),
{
    lemma_signature_makes_shim(TEMPLATE_BODY.spec_bytes());
}

/// A path between double quotes.
pub open spec fn quoted(path: Seq<char>) -> Seq<char> {
    "\""@ + path + "\""@
}

/// The template's body with its two tokens replaced: first the run command,
/// then, in the result, the quoted path.
pub open spec fn script_body(run_command: Seq<char>, debuggee_path: Seq<char>) -> Seq<char> {
    replaced(
        replaced(TEMPLATE_BODY@, RUN_CMD_TOKEN@, run_command),
        DEBUGGEE_TOKEN@,
        quoted(debuggee_path),
    )
}

/// The shim for a debuggee: the signature, then the body, as UTF-8.
pub open spec fn script_bytes(run_command: Seq<char>, debuggee_path: Seq<char>) -> Seq<u8> {
    signature_bytes() + vstd::utf8::encode_utf8(script_body(run_command, debuggee_path))
}

/// Every shim that is written is found to be one.
pub proof fn lemma_script_is_shim(run_command: Seq<char>, debuggee_path: Seq<char>)
    ensures
        is_shim(script_bytes(run_command, debuggee_path)),
{
    lemma_signature_makes_shim(vstd::utf8::encode_utf8(script_body(run_command, debuggee_path)));
}

fn append_bytes(out: &mut Vec<u8>, more: &[u8])
    ensures
        final(out)@ == old(out)@ + more@,
{
    let mut i: usize = 0;
    assert(out@ =~= old(out)@ + more@.take(0));
    while i < more.len()
        invariant
            i <= more@.len(),
            out@ == old(out)@ + more@.take(i as int),
        decreases more@.len() - i,
    {
        out.push(more[i]);
        i = i + 1;
        assert(out@ =~= old(out)@ + more@.take(i as int));
    }
    assert(more@.take(more@.len() as int) =~= more@);
}

/// Writes out the shim for a debuggee.
pub fn build_wrapper_script(run_command: &str, debuggee_path: &str) -> (script: Vec<u8>)
    ensures
        script@ == script_bytes(run_command@, debuggee_path@),
{
    let quoted_path = String::from_str("\"").concat(debuggee_path).concat("\"");
    let with_command = replace(TEMPLATE_BODY, RUN_CMD_TOKEN, run_command);
    let body = replace(with_command.as_str(), DEBUGGEE_TOKEN, quoted_path.as_str());
    let mut script: Vec<u8> = Vec::new();
    append_bytes(&mut script, SIGNATURE_LINE_1.as_bytes());
    script.push(NEWLINE);
    append_bytes(&mut script, SIGNATURE_LINE_2.as_bytes());
    script.push(NEWLINE);
    append_bytes(&mut script, body.as_str().as_bytes());
    assert(script@ =~= script_bytes(run_command@, debuggee_path@));
    script
}


/// What was found at the place of the debuggee.
#[derive(Debug, Clone, PartialEq, Eq)]
pub struct Target {
    /// The path as given, and its canonical form if the file exists.
    pub path: PathLookup,
    /// Kind and permission bits of the file, if it could be examined.
    pub stat: Option<FileStat>,
    /// The bytes of the file, if it could be read.
    pub content: Option<Vec<u8>>,
}

impl Target {
    /// The file could be read and is a shim.
    pub open spec fn wrapped(self) -> bool {
        match self.content {
            Some(content) => is_shim(content@),
            None => false,
        }
    }

    /// Whether the file is a shim; a file that cannot be read is none.
    pub fn is_wrapped(&self) -> (wrapped: bool)
        ensures
            wrapped == self.wrapped(),
    {
        match &self.content {
            Some(content) => check_if_wrapped(content.as_slice()),
            None => false,
        }
    }
}

/// One change to the file system.
#[derive(Debug, Clone, PartialEq, Eq)]
pub enum FsAction {
    /// Give the file at `from` the name `to`, in place of any file there.
    Rename { from: String, to: String },
    /// Write the file at `path` anew.
    Write { path: String, content: Vec<u8> },
    /// Set the permission bits of the file at `path`.
    SetMode { path: String, mode: u32 },
    /// Delete the file at `path`.
    Remove { path: String },
}

/// A change to the file system, as a value of the model.
pub enum Change {
    Rename { from: Seq<char>, to: Seq<char> },
    Write { path: Seq<char>, content: Seq<u8> },
    SetMode { path: Seq<char>, mode: u32 },
    Remove { path: Seq<char> },
}

impl View for FsAction {
    type V = Change;

    open spec fn view(&self) -> Change {
        match *self {
            FsAction::Rename { from, to } => Change::Rename { from: from@, to: to@ },
            FsAction::Write { path, content } => Change::Write { path: path@, content: content@ },
            FsAction::SetMode { path, mode } => Change::SetMode { path: path@, mode },
            FsAction::Remove { path } => Change::Remove { path: path@ },
        }
    }
}

/// The changes that a list of actions stands for.
pub open spec fn changes(actions: Seq<FsAction>) -> Seq<Change> {
    actions.map_values(|a: FsAction| a@)
}

/// The changes that install a shim: the program moves to its backup name,
/// the shim is written in its place and gets the program's permission bits.
pub open spec fn install_changes(path: Seq<char>, mode: u32, run_command: Seq<char>) -> Seq<
    Change,
> {
    seq![
        Change::Rename { from: path, to: backup_name(path) },
        Change::Write { path, content: script_bytes(run_command, path) },
        Change::SetMode { path, mode },
    ]
}

/// The changes that remove a shim: the shim is deleted and the program
/// moves back from its backup name.
pub open spec fn uninstall_changes(path: Seq<char>) -> Seq<Change> {
    seq![Change::Remove { path }, Change::Rename { from: backup_name(path), to: path }]
}

/// Why a shim is not installed or removed.
pub enum Refusal {
    AlreadyWrapped,
    NotWrapped,
    NotFound,
    NotExecutable,
}

/// Why `set` refuses a target, if it does: it is a shim already, it does
/// not exist, or it is no executable file.
pub open spec fn install_refusal(target: Target) -> Option<Refusal> {
    if target.wrapped() {
        Some(Refusal::AlreadyWrapped)
    } else if target.path.canonical.is_none() {
        Some(Refusal::NotFound)
    } else if !is_executable_stat(target.stat) {
        Some(Refusal::NotExecutable)
    } else {
        None
    }
}

/// Why `unset` refuses a target, if it does: it does not exist, it is no
/// executable file, or it is no shim.
pub open spec fn uninstall_refusal(target: Target) -> Option<Refusal> {
    if target.path.canonical.is_none() {
        Some(Refusal::NotFound)
    } else if !is_executable_stat(target.stat) {
        Some(Refusal::NotExecutable)
    } else if !target.wrapped() {
        Some(Refusal::NotWrapped)
    } else {
        None
    }
}

/// The failure that reports a refusal for a target. Each is a user-input
/// failure.
pub open spec fn reports(e: DbgeeError, refusal: Refusal, target: Target) -> bool {
    match refusal {
        Refusal::AlreadyWrapped => e matches DbgeeError::AlreadyWrapped { path }
            && path@ == target.path.given@,
        Refusal::NotWrapped => e matches DbgeeError::NotWrapped { path }
            && path@ == target.path.given@,
        Refusal::NotFound => e matches DbgeeError::PathNotFound { name, path } && name@
            == "the debuggee"@ && path@ == target.path.given@,
        Refusal::NotExecutable => e matches DbgeeError::NotExecutable { name, path } && name@
            == "the debuggee"@ && path@ == target.path.canonical->Some_0@,
    }
}

/// Every failure that reports a refusal is a user-input failure.
pub proof fn lemma_refusals_are_user_input(e: DbgeeError, refusal: Refusal, target: Target)
    requires
        reports(e, refusal, target),
    ensures
        e.kind_of() == ErrorKind::UserInput,
{
}

/// Plans the installation of a shim at the target. Nothing is planned for a
/// target that is refused.
pub fn wrap_debuggee_binary(target: &Target, run_command: &str) -> (plan: Result<
    Vec<FsAction>,
    DbgeeError,
>)
    ensures
        match install_refusal(*target) {
            None => plan matches Ok(actions) && changes(actions@) == install_changes(
                target.path.canonical->Some_0@,
                target.stat->Some_0.mode,
                run_command@,
            ),
            Some(refusal) => plan matches Err(e) && reports(e, refusal, *target),
        },
{
    if target.is_wrapped() {
        return Err(DbgeeError::AlreadyWrapped { path: target.path.given.clone() });
    }
    let debuggee_path = get_valid_executable_path(&target.path, "the debuggee", target.stat)?;
    let mode: u32 = match target.stat {
        Some(stat) => stat.mode,
        None => 0,
    };
    let script = build_wrapper_script(run_command, debuggee_path.as_str());
    let backup = get_debuggee_backup_name(debuggee_path.as_str());
    let mut actions: Vec<FsAction> = Vec::new();
    actions.push(FsAction::Rename { from: debuggee_path.clone(), to: backup });
    actions.push(FsAction::Write { path: debuggee_path.clone(), content: script });
    actions.push(FsAction::SetMode { path: debuggee_path, mode });
    assert(changes(actions@) =~= install_changes(
        target.path.canonical->Some_0@,
        target.stat->Some_0.mode,
        run_command@,
    ));
    Ok(actions)
}

/// Plans the removal of the shim at the target. Nothing is planned for a
/// target that is refused.
pub fn unwrap_debuggee_binary(target: &Target) -> (plan: Result<Vec<FsAction>, DbgeeError>)
    ensures
        match uninstall_refusal(*target) {
            None => plan matches Ok(actions) && changes(actions@) == uninstall_changes(
                target.path.canonical->Some_0@,
            ),
            Some(refusal) => plan matches Err(e) && reports(e, refusal, *target),
        },
{
    let wrapper_path = get_valid_executable_path(&target.path, "the debuggee", target.stat)?;
    if !target.is_wrapped() {
        return Err(DbgeeError::NotWrapped { path: target.path.given.clone() });
    }
    let backup = get_debuggee_backup_name(wrapper_path.as_str());
    let mut actions: Vec<FsAction> = Vec::new();
    actions.push(FsAction::Remove { path: wrapper_path.clone() });
    actions.push(FsAction::Rename { from: backup, to: wrapper_path });
    assert(changes(actions@) =~= uninstall_changes(target.path.canonical->Some_0@));
    Ok(actions)
}

/// Plans `unset`: the removal of the shim at the target.
pub fn unset_from_exec_dbgee(target: &Target) -> (plan: Result<Vec<FsAction>, DbgeeError>)
    ensures
        match uninstall_refusal(*target) {
            None => plan matches Ok(actions) && changes(actions@) == uninstall_changes(
                target.path.canonical->Some_0@,
            ),
            Some(refusal) => plan matches Err(e) && reports(e, refusal, *target),
        },
{
    unwrap_debuggee_binary(target)
}

/// What `set` does: the changes that install the shim and, if a start
/// command was given, the command to run before the shim is removed again.
#[derive(Debug, Clone, PartialEq, Eq)]
pub struct SetPlan {
    pub install: Vec<FsAction>,
    /// The start command and its arguments. After it has ended the target
    /// is examined anew and unset.
    pub start_cmd: Option<Vec<String>>,
}

/// Plans `set`.
pub fn set_to_exec_dgeee(target: &Target, run_command: &str, start_cmd: &Vec<String>) -> (plan:
    Result<SetPlan, DbgeeError>)
    ensures
        match install_refusal(*target) {
            None => plan matches Ok(p) && changes(p.install@) == install_changes(
                target.path.canonical->Some_0@,
                target.stat->Some_0.mode,
                run_command@,
            ) && match p.start_cmd {
                Some(cmd) => start_cmd@.len() > 0 && texts(cmd@) == texts(start_cmd@),
                None => start_cmd@.len() == 0,
            },
            Some(refusal) => plan matches Err(e) && reports(e, refusal, *target),
        },
{
    let install = wrap_debuggee_binary(target, run_command)?;
    if start_cmd.len() == 0 {
        return Ok(SetPlan { install, start_cmd: None });
    }
    let mut cmd: Vec<String> = Vec::new();
    crate::text::extend_texts(&mut cmd, start_cmd);
    assert(texts(cmd@) =~= texts(start_cmd@));
    Ok(SetPlan { install, start_cmd: Some(cmd) })
}

/// The program behind a target: the backup sibling if the target is a shim,
/// the target itself otherwise.
pub open spec fn unset_path(target: Target) -> Seq<char> {
    if target.wrapped() {
        backup_name(target.path.canonical->Some_0@)
    } else {
        target.path.canonical->Some_0@
    }
}

/// The path of the program to start for a target, which may be a shim.
pub fn get_path_of_unset_debuggee(target: &Target) -> (path: Result<String, DbgeeError>)
    ensures
        match target.path.canonical {
            Some(c) => path matches Ok(p) && p@ == unset_path(*target),
            None => path matches Err(e) && crate::file_helper::is_path_not_found(
                e,
                "debuggee"@,
                target.path.given@,
            ),
        },
{
    let abspath = get_abspath(&target.path, "debuggee")?;
    if target.is_wrapped() {
        Ok(get_debuggee_backup_name(abspath.as_str()))
    } else {
        Ok(abspath)
    }
}

/// A file of the model: its bytes and its permission bits.
pub struct FileImage {
    pub content: Seq<u8>,
    pub mode: u32,
}

/// The regular files of a file system, by path.
pub type Disk = Map<Seq<char>, FileImage>;

/// The file system after one change. `fresh_mode` is the permission bits
/// that a newly created file gets.
pub open spec fn after_change(disk: Disk, change: Change, fresh_mode: u32) -> Disk {
    match change {
        Change::Rename { from, to } => if disk.contains_key(from) {
            disk.remove(from).insert(to, disk[from])
        } else {
            disk
        },
        Change::Write { path, content } => disk.insert(
            path,
            FileImage {
                content,
                mode: if disk.contains_key(path) {
                    disk[path].mode
                } else {
                    fresh_mode
                },
            },
        ),
        Change::SetMode { path, mode } => if disk.contains_key(path) {
            disk.insert(path, FileImage { content: disk[path].content, mode })
        } else {
            disk
        },
        Change::Remove { path } => disk.remove(path),
    }
}

/// The file system after the changes, made in order.
pub open spec fn after_changes(disk: Disk, changes: Seq<Change>, fresh_mode: u32) -> Disk
    decreases changes.len(),
{
    if changes.len() == 0 {
        disk
    } else {
        after_change(after_changes(disk, changes.drop_last(), fresh_mode), changes.last(), fresh_mode)
    }
}

/// What is found at a path of the model whose name is canonical.
pub open spec fn found_at(disk: Disk, path: Seq<char>, target: Target) -> bool {
    &&& target.path.given@ == path
    &&& disk.contains_key(path) ==> {
        &&& target.path.canonical matches Some(c) && c@ == path
        &&& target.stat == Some(FileStat { is_file: true, mode: disk[path].mode })
        &&& target.content matches Some(bytes) && bytes@ == disk[path].content
    }
    &&& !disk.contains_key(path) ==> {
        &&& target.path.canonical.is_none()
        &&& target.stat.is_none()
        &&& target.content.is_none()
    }
}

/// The file system after a shim was installed at `path`.
pub open spec fn installed(disk: Disk, path: Seq<char>, run_command: Seq<char>, fresh_mode: u32) -> Disk {
    after_changes(disk, install_changes(path, disk[path].mode, run_command), fresh_mode)
}

/// The file system after the shim at `path` was removed.
pub open spec fn uninstalled(disk: Disk, path: Seq<char>, fresh_mode: u32) -> Disk {
    after_changes(disk, uninstall_changes(path), fresh_mode)
}

/// What installing does to the file system: the shim stands at `path` with
/// the program's permission bits, the program stands under the backup name,
/// and every other file is as it was.
pub proof fn lemma_installed(disk: Disk, path: Seq<char>, run_command: Seq<char>, fresh_mode: u32)
    requires
        disk.contains_key(path),
    ensures
        installed(disk, path, run_command, fresh_mode) == disk.insert(
            backup_name(path),
            disk[path],
        ).insert(
            path,
            FileImage { content: script_bytes(run_command, path), mode: disk[path].mode },
        ),
        is_shim(installed(disk, path, run_command, fresh_mode)[path].content),
{
    lemma_backup_name_differs(path);
    lemma_script_is_shim(run_command, path);
    let plan = install_changes(path, disk[path].mode, run_command);
    let p2 = plan.drop_last();
    let p1 = p2.drop_last();
    let p0 = p1.drop_last();
    assert(p0 =~= Seq::<Change>::empty());
    let d0 = after_changes(disk, p0, fresh_mode);
    let d1 = after_changes(disk, p1, fresh_mode);
    let d2 = after_changes(disk, p2, fresh_mode);
    let d3 = after_changes(disk, plan, fresh_mode);
    assert(d0 == disk);
    assert(p1.last() == plan[0]);
    assert(p2.last() == plan[1]);
    assert(plan.last() == plan[2]);
    assert(d1 == after_change(d0, plan[0], fresh_mode));
    assert(d2 == after_change(d1, plan[1], fresh_mode));
    assert(d3 == after_change(d2, plan[2], fresh_mode));
    assert(d3 =~= disk.insert(backup_name(path), disk[path]).insert(
        path,
        FileImage { content: script_bytes(run_command, path), mode: disk[path].mode },
    ));
}

/// What removing does to the file system: the file under the backup name
/// stands at `path` again, and nothing stands under the backup name.
pub proof fn lemma_uninstalled(disk: Disk, path: Seq<char>, fresh_mode: u32)
    requires
        disk.contains_key(backup_name(path)),
    ensures
        uninstalled(disk, path, fresh_mode) == disk.remove(backup_name(path)).insert(
            path,
            disk[backup_name(path)],
        ),
{
    lemma_backup_name_differs(path);
    let plan = uninstall_changes(path);
    let p1 = plan.drop_last();
    let p0 = p1.drop_last();
    assert(p0 =~= Seq::<Change>::empty());
    let d0 = after_changes(disk, p0, fresh_mode);
    let d1 = after_changes(disk, p1, fresh_mode);
    let d2 = after_changes(disk, plan, fresh_mode);
    assert(d0 == disk);
    assert(p1.last() == plan[0]);
    assert(plan.last() == plan[1]);
    assert(d1 == after_change(d0, plan[0], fresh_mode));
    assert(d2 == after_change(d1, plan[1], fresh_mode));
    assert(d2 =~= disk.remove(backup_name(path)).insert(path, disk[backup_name(path)]));
}

/// Installing a shim and then removing it restores the program, byte for
/// byte and with its permission bits. Where no file stood under the backup
/// name before, the whole file system is as it was.
pub proof fn lemma_install_then_uninstall_restores(
    disk: Disk,
    path: Seq<char>,
    run_command: Seq<char>,
    fresh_mode: u32,
)
    requires
        disk.contains_key(path),
    ensures
        uninstalled(installed(disk, path, run_command, fresh_mode), path, fresh_mode)[path]
            == disk[path],
        !disk.contains_key(backup_name(path)) ==> uninstalled(
            installed(disk, path, run_command, fresh_mode),
            path,
            fresh_mode,
        ) == disk,
{
    lemma_backup_name_differs(path);
    lemma_installed(disk, path, run_command, fresh_mode);
    let wrapped = installed(disk, path, run_command, fresh_mode);
    lemma_uninstalled(wrapped, path, fresh_mode);
    let restored = uninstalled(wrapped, path, fresh_mode);
    if !disk.contains_key(backup_name(path)) {
        assert(restored =~= disk);
    }
}

/// After a shim was installed, `set` on what is then found at the path is
/// refused as already wrapped, and `unset` is not refused.
pub proof fn lemma_double_install_refused(
    disk: Disk,
    path: Seq<char>,
    run_command: Seq<char>,
    fresh_mode: u32,
    found: Target,
)
    requires
        disk.contains_key(path),
        is_executable_stat(Some(FileStat { is_file: true, mode: disk[path].mode })),
        found_at(installed(disk, path, run_command, fresh_mode), path, found),
    ensures
        install_refusal(found) matches Some(Refusal::AlreadyWrapped),
        uninstall_refusal(found).is_none(),
{
    lemma_installed(disk, path, run_command, fresh_mode);
}

/// After the shim of a program was removed, `unset` on what is then found
/// at the path is refused as not wrapped.
pub proof fn lemma_double_uninstall_refused(
    disk: Disk,
    path: Seq<char>,
    run_command: Seq<char>,
    fresh_mode: u32,
    found: Target,
)
    requires
        disk.contains_key(path),
        !is_shim(disk[path].content),
        is_executable_stat(Some(FileStat { is_file: true, mode: disk[path].mode })),
        found_at(
            uninstalled(installed(disk, path, run_command, fresh_mode), path, fresh_mode),
            path,
            found,
        ),
    ensures
        uninstall_refusal(found) matches Some(Refusal::NotWrapped),
{
    lemma_install_then_uninstall_restores(disk, path, run_command, fresh_mode);
    lemma_installed(disk, path, run_command, fresh_mode);
    lemma_uninstalled(installed(disk, path, run_command, fresh_mode), path, fresh_mode);
}

} // verus!
