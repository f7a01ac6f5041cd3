//! What the launcher learns about files and commands: paths made
//! canonical, permission bits, the output of the file-type probe and a cache
//! of command outputs.

use vstd::prelude::*;
use vstd::string::*;
use crate::error::DbgeeError;
use crate::text::{
    contains, extend_texts, has_substring, push_text, same_texts, split, split_on, texts,
};

verus! {

/// A path as the user gave it, with its canonical form if it exists.
#[derive(Debug, Clone, PartialEq, Eq)]
pub struct PathLookup {
    pub given: String,
    pub canonical: Option<String>,
}

/// What the file system tells about a file.
#[derive(Debug, Clone, Copy, PartialEq, Eq, Structural)]
pub struct FileStat {
    /// Whether it is a regular file.
    pub is_file: bool,
    /// Its permission bits.
    pub mode: u32,
}

/// The permission bits that allow execution, for owner, group and others.
pub const EXECUTE_BITS: u32 = 0o111;

/// A regular file with at least one execute bit.
pub open spec fn is_executable_stat(stat: Option<FileStat>) -> bool {
    match stat {
        Some(s) => s.is_file && (s.mode & EXECUTE_BITS) != 0,
        None => false,
    }
}

/// Whether a file can be executed: it is a regular file with at least one
/// execute bit. `None` stands for a file that could not be examined.
pub fn is_executable(stat: Option<FileStat>) -> (executable: bool)
    ensures
        executable == is_executable_stat(stat),
{
    match stat {
        Some(s) => s.is_file && (s.mode & EXECUTE_BITS) != 0,
        None => false,
    }
}

/// The failure for a path that does not exist.
pub open spec fn is_path_not_found(e: DbgeeError, name: Seq<char>, path: Seq<char>) -> bool {
    e matches DbgeeError::PathNotFound { name: n, path: p } && n@ == name && p@ == path
}

/// The failure for a path that is not an executable file.
pub open spec fn is_not_executable(e: DbgeeError, name: Seq<char>, path: Seq<char>) -> bool {
    e matches DbgeeError::NotExecutable { name: n, path: p } && n@ == name && p@ == path
}

/// The canonical form of a path; a path that does not exist is a user error
/// that names what the path was meant to be.
pub fn get_abspath(path: &PathLookup, name: &str) -> (abspath: Result<String, DbgeeError>)
    ensures
        match path.canonical {
            Some(c) => abspath matches Ok(p) && p@ == c@,
            None => abspath matches Err(e) && is_path_not_found(e, name@, path.given@),
        },
{
    match &path.canonical {
        Some(c) => Ok(c.clone()),
        None => Err(
            DbgeeError::PathNotFound { name: String::from_str(name), path: path.given.clone() },
        ),
    }
}

/// The canonical form of a path that must be an executable file. `stat`
/// describes the file at the canonical path.
pub fn get_valid_executable_path(path: &PathLookup, name: &str, stat: Option<FileStat>) -> (abspath:
    Result<String, DbgeeError>)
    ensures
        match path.canonical {
            Some(c) => if is_executable_stat(stat) {
                abspath matches Ok(p) && p@ == c@
            } else {
                abspath matches Err(e) && is_not_executable(e, name@, c@)
            },
            None => abspath matches Err(e) && is_path_not_found(e, name@, path.given@),
        },
{
    let abspath = get_abspath(path, name)?;
    if !is_executable(stat) {
        return Err(DbgeeError::NotExecutable { name: String::from_str(name), path: abspath });
    }
    Ok(abspath)
}

/// The failure of `run`, `set` and `unset` on a debuggee that is not an
/// executable file.
pub open spec fn is_debuggee_not_executable(e: DbgeeError, path: Seq<char>) -> bool {
    e matches DbgeeError::DebuggeeNotExecutable { path: p } && p@ == path
}

/// Refuses a debuggee that is not an executable file.
pub fn bail_if_not_executable(debuggee: &str, stat: Option<FileStat>) -> (checked: Result<
    (),
    DbgeeError,
>)
    ensures
        is_executable_stat(stat) ==> checked.is_ok(),
        !is_executable_stat(stat) ==> (checked matches Err(e) && is_debuggee_not_executable(
            e,
            debuggee@,
        )),
{
    if !is_executable(stat) {
        return Err(DbgeeError::DebuggeeNotExecutable { path: String::from_str(debuggee) });
    }
    Ok(())
}

/// The places where a command may be found: one per directory of the search
/// path, which separates its directories by colons.
pub open spec fn candidates_of(search_path: Seq<char>, command: Seq<char>) -> Seq<Seq<char>> {
    split_on(search_path, ':').map_values(|dir: Seq<char>| dir + "/"@ + command)
}

/// The files to examine to learn whether a command is available. The command
/// exists if any of them is executable.
pub fn command_candidates(search_path: &str, command: &str) -> (candidates: Vec<String>)
    ensures
        texts(candidates@) == candidates_of(search_path@, command@),
{
    let dirs = split(search_path, ':');
    let mut candidates: Vec<String> = Vec::new();
    let mut i: usize = 0;
    while i < dirs.len()
        invariant
            i <= dirs.len(),
            texts(dirs@) == split_on(search_path@, ':'),
            candidates.len() == i,
            forall|k: int|
                0 <= k < i ==> (#[trigger] candidates[k])@ == dirs[k]@ + "/"@ + command@,
        decreases dirs.len() - i,
    {
        let candidate = dirs[i].clone().concat("/").concat(command);
        candidates.push(candidate);
        i = i + 1;
    }
    assert(texts(candidates@) =~= candidates_of(search_path@, command@)) by {
        assert forall|k: int| 0 <= k < candidates.len() implies texts(candidates@)[k]
            == candidates_of(search_path@, command@)[k] by {
            assert(texts(dirs@)[k] == dirs[k]@);
        }
    }
    candidates
}

/// Whether a command exists, from the examination of its candidates.
pub fn command_exists(candidate_stats: &Vec<Option<FileStat>>) -> (exists: bool)
    ensures
        exists == (exists|i: int|
            0 <= i < candidate_stats.len() && is_executable_stat(#[trigger] candidate_stats[i])),
{
    let mut i: usize = 0;
    while i < candidate_stats.len()
        invariant
            i <= candidate_stats.len(),
            forall|k: int| 0 <= k < i ==> !is_executable_stat(#[trigger] candidate_stats[k]),
        decreases candidate_stats.len() - i,
    {
        if is_executable(candidate_stats[i]) {
            return true;
        }
        i = i + 1;
    }
    false
}

/// One remembered output: the words of a command and what it printed.
#[derive(Debug, Clone, PartialEq, Eq)]
pub struct CachedOutput {
    pub cmd: Vec<String>,
    pub output: String,
}

/// The outputs of the commands run so far, each kept under the words of
/// its command. Entries are only ever added, and the first one for a
/// command is the one that counts.
#[derive(Debug, Clone, PartialEq, Eq)]
pub struct CommandOutputCache {
    pub entries: Vec<CachedOutput>,
}

/// The output kept for a command among `entries`: that of the first entry
/// with the same words.
pub open spec fn cached(entries: Seq<CachedOutput>, cmd: Seq<Seq<char>>) -> Option<Seq<char>>
    decreases entries.len(),
{
    if entries.len() == 0 {
        None
    } else if texts(entries[0].cmd@) == cmd {
        Some(entries[0].output@)
    } else {
        cached(entries.skip(1), cmd)
    }
}

/// Adding an entry at the end changes no answer that the cache already
/// gave, and answers for the new command if it had none.
pub proof fn lemma_cached_push(
    entries: Seq<CachedOutput>,
    entry: CachedOutput,
    cmd: Seq<Seq<char>>,
)
    ensures
        cached(entries.push(entry), cmd) == if cached(entries, cmd).is_some() {
            cached(entries, cmd)
        } else if texts(entry.cmd@) == cmd {
            Some(entry.output@)
        } else {
            None
        },
    decreases entries.len(),
{
    if entries.len() == 0 {
        assert(entries.push(entry).skip(1) =~= Seq::<CachedOutput>::empty());
        assert(cached(Seq::<CachedOutput>::empty(), cmd).is_none());
        assert(entries.push(entry)[0] == entry);
    } else {
        assert(entries.push(entry).skip(1) =~= entries.skip(1).push(entry));
        assert(entries.push(entry)[0] == entries[0]);
        lemma_cached_push(entries.skip(1), entry, cmd);
    }
}

impl CommandOutputCache {
    /// What the cache answers for a command.
    pub open spec fn answer(self, cmd: Seq<Seq<char>>) -> Option<Seq<char>> {
        cached(self.entries@, cmd)
    }

    /// A cache without entries.
    pub fn new() -> (cache: CommandOutputCache)
        ensures
            cache.entries@.len() == 0,
            forall|cmd: Seq<Seq<char>>| cache.answer(cmd).is_none(),
    {
        CommandOutputCache { entries: Vec::new() }
    }

    /// The remembered output of a command, if a command of the same words
    /// was run before.
    pub fn get_cached_command_output(&self, cmd: &Vec<String>) -> (output: Option<String>)
        ensures
            match output {
                Some(o) => self.answer(texts(cmd@)) == Some(o@),
                None => self.answer(texts(cmd@)).is_none(),
            },
    {
        let mut i: usize = 0;
        assert(self.entries@.skip(0) =~= self.entries@);
        while i < self.entries.len()
            invariant
                i <= self.entries.len(),
                cached(self.entries@, texts(cmd@)) == cached(
                    self.entries@.skip(i as int),
                    texts(cmd@),
                ),
            decreases self.entries.len() - i,
        {
            let ghost rest = self.entries@.skip(i as int);
            assert(rest[0] == self.entries@[i as int]);
            assert(rest.skip(1) =~= self.entries@.skip(i + 1));
            if same_texts(&self.entries[i].cmd, cmd) {
                return Some(self.entries[i].output.clone());
            }
            i = i + 1;
        }
        None
    }

    /// Remembers the output of a command that was just run. An output that
    /// is already kept for the command stays.
    pub fn remember(&mut self, cmd: &Vec<String>, output: &str)
        ensures
            final(self).entries@.len() == old(self).entries@.len() + 1,
            forall|k: int|
                0 <= k < old(self).entries@.len() ==> final(self).entries@[k] == old(
                    self,
                ).entries@[k],
            forall|other: Seq<Seq<char>>| #[trigger]
                final(self).answer(other) == if old(self).answer(other).is_some() {
                    old(self).answer(other)
                } else if other == texts(cmd@) {
                    Some(output@)
                } else {
                    None
                },
    {
        let mut words: Vec<String> = Vec::new();
        extend_texts(&mut words, cmd);
        assert(texts(words@) =~= texts(cmd@));
        let entry = CachedOutput { cmd: words, output: String::from_str(output) };
        proof {
            assert forall|other: Seq<Seq<char>>| #[trigger]
                cached(self.entries@.push(entry), other) == if cached(
                    self.entries@,
                    other,
                ).is_some() {
                    cached(self.entries@, other)
                } else if other == texts(cmd@) {
                    Some(output@)
                } else {
                    None
                } by {
                lemma_cached_push(self.entries@, entry, other);
            }
        }
        self.entries.push(entry);
    }
}

/// The command that probes the type of a file, following symbolic links.
pub open spec fn file_probe_command(file: Seq<char>) -> Seq<Seq<char>> {
    seq!["file"@, "-L"@, file]
}

/// The words of the file-type probe for a file.
pub fn file_command(file: &str) -> (cmd: Vec<String>)
    ensures
        texts(cmd@) == file_probe_command(file@),
{
    let mut cmd: Vec<String> = Vec::new();
    push_text(&mut cmd, "file");
    push_text(&mut cmd, "-L");
    push_text(&mut cmd, file);
    assert(texts(cmd@) =~= file_probe_command(file@));
    cmd
}

/// The remembered output of the file-type probe for a file, if it was
/// probed before.
pub fn get_cached_file_output(cache: &CommandOutputCache, file: &str) -> (output: Option<String>)
    ensures
        match output {
            Some(o) => cache.answer(file_probe_command(file@)) == Some(o@),
            None => cache.answer(file_probe_command(file@)).is_none(),
        },
{
    let cmd = file_command(file);
    cache.get_cached_command_output(&cmd)
}


/// What the probes tell about one file.
#[derive(Debug, Clone, PartialEq, Eq)]
pub struct FileProbe {
    /// The output of the file-type probe.
    pub file_output: String,
    /// The output of `go version` on the file, if that command ran.
    pub go_version_output: Option<String>,
    /// Whether the file is a shim.
    pub wrapped: bool,
}

/// The pattern of a Go version in the output of `go version`.
pub const GO_VERSION_PATTERN: &'static str = "go(\\d+\\.?)+";

/// What `regex` answers for a pattern and a text: `None` where it does not
/// accept the pattern, else whether the pattern matches anywhere in the text.
pub uninterp spec fn regex_match(pattern: Seq<char>, haystack: Seq<char>) -> Option<bool>;

/// `regex::Regex::new` on the pattern, then `regex::Regex::is_match` of the
/// regex on the text. The answer depends on the two texts alone; it is `None`
/// exactly where `new` returns an error.
#[verifier::external_body]
fn regex_is_match(pattern: &str, haystack: &str) -> (matched: Option<bool>)
    ensures
        matched == regex_match(pattern@, haystack@),
{
    match regex::Regex::new(pattern) {
        Ok(re) => Some(re.is_match(haystack)),
        Err(_) => None,
    }
}

/// The file is a native executable: an ELF or a Mach-O image.
pub open spec fn native_output(file_output: Seq<char>) -> bool {
    has_substring(file_output, "ELF"@) || has_substring(file_output, "Mach-O"@)
}

/// The file is a program written in Go: the probe says so, or `go version`
/// has named the Go version that built it.
pub open spec fn go_output(file_output: Seq<char>, version_matched: Option<bool>) -> bool {
    has_substring(file_output, "Go "@) || version_matched == Some(true)
}

/// Whether a file is a Go program, from the output of the probe and from
/// whether a Go version was found in the output of `go version`.
pub fn is_go_binary(file_output: &str, version_matched: Option<bool>) -> (go: bool)
    ensures
        go == go_output(file_output@, version_matched),
{
    if contains(file_output, "Go ") {
        return true;
    }
    match version_matched {
        Some(true) => true,
        _ => false,
    }
}

impl FileProbe {
    /// Whether a Go version is found in the output of `go version`.
    pub open spec fn version_matched(self) -> Option<bool> {
        match self.go_version_output {
            Some(output) => regex_match(GO_VERSION_PATTERN@, output@),
            None => None,
        }
    }

    /// The file is a native executable.
    pub open spec fn native(self) -> bool {
        native_output(self.file_output@)
    }

    /// The file is a Go program.
    pub open spec fn go(self) -> bool {
        go_output(self.file_output@, self.version_matched())
    }

    /// The file is a Python script.
    pub open spec fn python(self) -> bool {
        has_substring(self.file_output@, "Python"@)
    }

    /// The file is a shim, and the probe calls it a shell script.
    pub open spec fn wrapped_shell(self) -> bool {
        has_substring(self.file_output@, "shell"@) && self.wrapped
    }

    /// Whether the file is a native executable.
    pub fn is_native(&self) -> (native: bool)
        ensures
            native == self.native(),
    {
        contains(self.file_output.as_str(), "ELF") || contains(self.file_output.as_str(), "Mach-O")
    }

    /// Whether the file is a Go program.
    pub fn is_go(&self) -> (go: bool)
        ensures
            go == self.go(),
    {
        let version_matched = match &self.go_version_output {
            Some(output) => regex_is_match(GO_VERSION_PATTERN, output.as_str()),
            None => None,
        };
        is_go_binary(self.file_output.as_str(), version_matched)
    }

    /// Whether the file is a Python script.
    pub fn is_python(&self) -> (python: bool)
        ensures
            python == self.python(),
    {
        contains(self.file_output.as_str(), "Python")
    }

    /// Whether the file is a shim whose backup is to be probed in its place.
    pub fn is_wrapped_shell(&self) -> (shell: bool)
        ensures
            shell == self.wrapped_shell(),
    {
        contains(self.file_output.as_str(), "shell") && self.wrapped
    }
}

} // verus!
