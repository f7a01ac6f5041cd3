//! Source files named by an executable's debug information.
//!
//! The caller reads the debug information and hands over, for each
//! compilation unit, its compilation directory and the file entries of its
//! line program. This module resolves the entries to paths and tests them.

use vstd::prelude::*;
use vstd::string::*;
use crate::error::{DbgeeError, DebugInfoFault};
use crate::path::{appended, is_same_path, is_under, join_path, path_starts_with, same_path};
use crate::text::starts_with;

verus! {

/// What became of a unit's compilation directory.
#[derive(Debug, Clone, PartialEq, Eq)]
pub enum CompDirLookup {
    /// The unit names no compilation directory.
    Absent,
    /// The directory does not exist on this machine.
    Missing,
    /// The directory exists but could not be made canonical.
    Failed,
    /// The canonical form of the directory.
    Canonical(String),
}

/// The directory that a line program lists under a file entry's index.
#[derive(Debug, Clone, PartialEq, Eq)]
pub enum DirectoryEntry {
    /// The line program lists no directory under the index.
    Absent,
    /// The directory's name could not be read.
    Unreadable,
    /// The directory's name.
    Named(String),
}

/// One file entry of a line program.
#[derive(Debug, Clone, PartialEq, Eq)]
pub struct FileEntry {
    /// The file's name, unless it could not be read.
    pub path_name: Option<String>,
    /// Index of the file's directory; 0 is the compilation directory.
    pub directory_index: u64,
    /// The directory listed under that index.
    pub directory: DirectoryEntry,
}

/// One compilation unit.
#[derive(Debug, Clone, PartialEq, Eq)]
pub struct CompilationUnit {
    pub comp_dir: CompDirLookup,
    /// The file entries of the unit's line program, if it has one.
    pub files: Option<Vec<FileEntry>>,
}

/// Which source paths are looked for.
#[derive(Debug, Clone, PartialEq, Eq)]
pub enum SourceFilter {
    /// Any of these paths.
    AnyOf(Vec<String>),
    /// Any path under this directory.
    Under(String),
}

/// Whether a path begins with a slash.
pub open spec fn is_absolute(p: Seq<char>) -> bool {
    p.len() > 0 && p[0] == '/'
}

/// The directory of a file entry, relative names joined to `comp_dir`.
/// `Ok(None)` when the line program lists no such directory.
pub open spec fn resolved_directory(
    comp_dir: Seq<char>,
    directory_index: u64,
    directory: DirectoryEntry,
) -> Result<Option<Seq<char>>, DebugInfoFault> {
    if directory_index == 0 {
        Ok(Some(comp_dir))
    } else {
        match directory {
            DirectoryEntry::Absent => Ok(None),
            DirectoryEntry::Unreadable => Err(DebugInfoFault::DirectoryUnreadable),
            DirectoryEntry::Named(name) => Ok(Some(appended(comp_dir, name@))),
        }
    }
}

/// The path of a file entry: an absolute name as it is, a relative one
/// joined to its directory.
pub open spec fn resolved_file(comp_dir: Seq<char>, file: FileEntry) -> Result<
    Seq<char>,
    DebugInfoFault,
> {
    match file.path_name {
        None => Err(DebugInfoFault::FileNameUnreadable),
        Some(name) => if is_absolute(name@) {
            Ok(name@)
        } else {
            match resolved_directory(comp_dir, file.directory_index, file.directory) {
                Err(fault) => Err(fault),
                Ok(None) => Err(DebugInfoFault::DirectoryAbsent),
                Ok(Some(dir)) => Ok(appended(dir, name@)),
            }
        },
    }
}

impl SourceFilter {
    /// Whether the filter accepts a path.
    pub open spec fn accepts(self, p: Seq<char>) -> bool {
        match self {
            SourceFilter::AnyOf(paths) => exists|j: int|
                0 <= j < paths.len() && is_same_path(#[trigger] paths[j]@, p),
            SourceFilter::Under(dir) => is_under(p, dir@),
        }
    }

    /// Tests one path against the filter.
    #[verifier::loop_isolation(false)]
    pub fn test(&self, p: &str) -> (accepted: bool)
        ensures
            accepted == self.accepts(p@),
    {
        match self {
            SourceFilter::AnyOf(paths) => {
                let mut j: usize = 0;
                while j < paths.len()
                    invariant
                        j <= paths.len(),
                        forall|k: int| 0 <= k < j ==> !is_same_path(#[trigger] paths[k]@, p@),
                    decreases paths.len() - j,
                {
                    if same_path(paths[j].as_str(), p) {
                        assert(is_same_path(paths[j as int]@, p@));
                        return true;
                    }
                    j = j + 1;
                }
                false
            },
            SourceFilter::Under(dir) => path_starts_with(p, dir.as_str()),
        }
    }
}

/// Whether `s` begins with a slash.
fn absolute(s: &str) -> (yes: bool)
    ensures
        yes == is_absolute(s@),
{
    proof {
        reveal_strlit("/");
    }
    let yes = starts_with(s, "/");
    proof {
        if yes {
            assert(s@.subrange(0, 1)[0] == s@[0]);
        } else if s@.len() > 0 && s@[0] == '/' {
            assert(s@.subrange(0, 1) =~= "/"@);
        }
    }
    yes
}

/// Resolves the file entries of one compilation unit against its
/// compilation directory.
#[derive(Debug, Clone, PartialEq, Eq)]
pub struct DwarfPathResolver {
    pub comp_dir: String,
}

impl DwarfPathResolver {
    /// A resolver for a unit, unless the unit names no compilation directory
    /// or names one that does not exist on this machine.
    pub fn build(lookup: &CompDirLookup) -> (built: Result<Option<DwarfPathResolver>, DbgeeError>)
        ensures
            match *lookup {
                CompDirLookup::Absent => built == Ok::<Option<DwarfPathResolver>, DbgeeError>(None),
                CompDirLookup::Missing => built == Ok::<Option<DwarfPathResolver>, DbgeeError>(None),
                CompDirLookup::Failed => built == Err::<Option<DwarfPathResolver>, DbgeeError>(
                    DbgeeError::DebugInfo { fault: DebugInfoFault::CompDirUnresolved },
                ),
                CompDirLookup::Canonical(dir) => built matches Ok(Some(r)) && r.comp_dir@ == dir@,
            },
    {
        match lookup {
            CompDirLookup::Absent => Ok(None),
            CompDirLookup::Missing => Ok(None),
            CompDirLookup::Failed => Err(
                DbgeeError::DebugInfo { fault: DebugInfoFault::CompDirUnresolved },
            ),
            CompDirLookup::Canonical(dir) => Ok(Some(DwarfPathResolver { comp_dir: dir.clone() })),
        }
    }

    /// The directory of a file entry.
    pub fn resolve_directory(&self, directory_index: u64, directory: &DirectoryEntry) -> (out:
        Result<Option<String>, DbgeeError>)
        ensures
            match resolved_directory(self.comp_dir@, directory_index, *directory) {
                Ok(Some(dir)) => out matches Ok(Some(d)) && d@ == dir,
                Ok(None) => out == Ok::<Option<String>, DbgeeError>(None),
                Err(fault) => out == Err::<Option<String>, DbgeeError>(
                    DbgeeError::DebugInfo { fault },
                ),
            },
    {
        if directory_index == 0 {
            return Ok(Some(self.comp_dir.clone()));
        }
        match directory {
            DirectoryEntry::Absent => Ok(None),
            DirectoryEntry::Unreadable => Err(
                DbgeeError::DebugInfo { fault: DebugInfoFault::DirectoryUnreadable },
            ),
            DirectoryEntry::Named(name) => Ok(
                Some(join_path(self.comp_dir.as_str(), name.as_str())),
            ),
        }
    }

    /// The path of a file entry.
    pub fn resolve_file(&self, file: &FileEntry) -> (out: Result<Option<String>, DbgeeError>)
        ensures
            match resolved_file(self.comp_dir@, *file) {
                Ok(p) => out matches Ok(Some(q)) && q@ == p,
                Err(fault) => out == Err::<Option<String>, DbgeeError>(
                    DbgeeError::DebugInfo { fault },
                ),
            },
    {
        let name = match &file.path_name {
            None => {
                return Err(DbgeeError::DebugInfo { fault: DebugInfoFault::FileNameUnreadable });
            },
            Some(name) => name,
        };
        if absolute(name.as_str()) {
            return Ok(Some(name.clone()));
        }
        match self.resolve_directory(file.directory_index, &file.directory) {
            Err(e) => Err(e),
            Ok(None) => Err(DbgeeError::DebugInfo { fault: DebugInfoFault::DirectoryAbsent }),
            Ok(Some(dir)) => Ok(Some(join_path(dir.as_str(), name.as_str()))),
        }
    }
}

/// A file entry resolves to a path that the filter accepts.
pub open spec fn entry_matches(comp_dir: Seq<char>, file: FileEntry, wanted: SourceFilter) -> bool {
    match resolved_file(comp_dir, file) {
        Ok(p) => wanted.accepts(p),
        Err(_) => false,
    }
}

/// A unit has a canonical compilation directory and a line program with an
/// entry that matches.
pub open spec fn unit_matches(unit: CompilationUnit, wanted: SourceFilter) -> bool {
    match (unit.comp_dir, unit.files) {
        (CompDirLookup::Canonical(dir), Some(files)) => exists|i: int|
            0 <= i < files.len() && entry_matches(dir@, #[trigger] files[i], wanted),
        _ => false,
    }
}

/// Some unit matches.
pub open spec fn any_unit_matches(units: Seq<CompilationUnit>, wanted: SourceFilter) -> bool {
    exists|k: int| 0 <= k < units.len() && unit_matches(#[trigger] units[k], wanted)
}

/// Whether one unit names a source file that the filter accepts. Entries
/// that cannot be resolved count as not matching.
#[verifier::loop_isolation(false)]
pub fn unit_names_source(unit: &CompilationUnit, wanted: &SourceFilter) -> (found: bool)
    ensures
        found == unit_matches(*unit, *wanted),
{
    let resolver = match DwarfPathResolver::build(&unit.comp_dir) {
        Ok(Some(resolver)) => resolver,
        _ => {
            return false;
        },
    };
    let files = match &unit.files {
        Some(files) => files,
        None => {
            return false;
        },
    };
    let ghost dir = resolver.comp_dir@;
    let mut i: usize = 0;
    while i < files.len()
        invariant
            i <= files.len(),
            dir == resolver.comp_dir@,
            forall|k: int| 0 <= k < i ==> !entry_matches(dir, #[trigger] files[k], *wanted),
        decreases files.len() - i,
    {
        match resolver.resolve_file(&files[i]) {
            Ok(Some(p)) => {
                if wanted.test(p.as_str()) {
                    assert(entry_matches(dir, files[i as int], *wanted));
                    return true;
                }
            },
            _ => {},
        }
        i = i + 1;
    }
    false
}

/// Whether the debug information names any source file that the filter
/// accepts. A unit that cannot be used is passed over.
pub fn any_in_dwarf_decl_file(units: &Vec<CompilationUnit>, wanted: &SourceFilter) -> (found:
    bool)
    ensures
        found == any_unit_matches(units@, *wanted),
{
    let mut k: usize = 0;
    while k < units.len()
        invariant
            k <= units.len(),
            forall|j: int| 0 <= j < k ==> !unit_matches(#[trigger] units[j], *wanted),
        decreases units.len() - k,
    {
        if unit_names_source(&units[k], wanted) {
            return true;
        }
        k = k + 1;
    }
    false
}

} // verus!
