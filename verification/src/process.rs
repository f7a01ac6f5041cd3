//! The processes of the machine, as far as the launcher looks at them: is
//! one of its ancestors a process of the IDE?

use vstd::prelude::*;
use crate::text::{contains, has_substring, same_text};

verus! {

/// One process of the machine.
#[derive(Debug, Clone, PartialEq, Eq)]
pub struct ProcessInfo {
    pub pid: i32,
    pub name: String,
    /// The words of its command line.
    pub cmd: Vec<String>,
    /// The path of its executable.
    pub exe: String,
    pub parent: Option<i32>,
}

/// A process of the IDE: `node` with `vscode` in a word of its command
/// line, or `Electron` run from the application of the IDE.
pub open spec fn is_ide_process(p: ProcessInfo) -> bool {
    ||| p.name@ == "node"@ && exists|i: int|
        0 <= i < p.cmd@.len() && has_substring(#[trigger] p.cmd@[i]@, "vscode"@)
    ||| p.name@ == "Electron"@ && has_substring(p.exe@, "Visual Studio Code"@)
}

/// The first process of the table with the given number.
pub open spec fn process_of(table: Seq<ProcessInfo>, pid: i32) -> Option<ProcessInfo>
    decreases table.len(),
{
    if table.len() == 0 {
        None
    } else if table[0].pid == pid {
        Some(table[0])
    } else {
        process_of(table.skip(1), pid)
    }
}

/// Some process among the first `steps` of the line of ancestors that
/// begins with `pid` is a process of the IDE. The line ends at a process
/// without a parent and at a number that the table does not have.
pub open spec fn ancestry_has_ide(table: Seq<ProcessInfo>, pid: Option<i32>, steps: nat) -> bool
    decreases steps,
{
    if steps == 0 {
        false
    } else {
        match pid {
            None => false,
            Some(p) => match process_of(table, p) {
                None => false,
                Some(process) => is_ide_process(process) || ancestry_has_ide(
                    table,
                    process.parent,
                    (steps - 1) as nat,
                ),
            },
        }
    }
}

fn find_process(table: &Vec<ProcessInfo>, pid: i32) -> (found: Option<usize>)
    ensures
        match found {
            Some(i) => i < table.len() && process_of(table@, pid) == Some(table@[i as int]),
            None => process_of(table@, pid).is_none(),
        },
{
    let mut i: usize = 0;
    assert(table@.skip(0) =~= table@);
    while i < table.len()
        invariant
            i <= table.len(),
            process_of(table@, pid) == process_of(table@.skip(i as int), pid),
        decreases table.len() - i,
    {
        let ghost rest = table@.skip(i as int);
        assert(rest[0] == table@[i as int]);
        assert(rest.skip(1) =~= table@.skip(i + 1));
        if table[i].pid == pid {
            return Some(i);
        }
        i = i + 1;
    }
    None
}

#[verifier::loop_isolation(false)]
fn ide_process(p: &ProcessInfo) -> (ide: bool)
    ensures
        ide == is_ide_process(*p),
{
    if same_text(p.name.as_str(), "node") {
        let mut i: usize = 0;
        while i < p.cmd.len()
            invariant
                i <= p.cmd.len(),
                forall|k: int| 0 <= k < i ==> !has_substring(#[trigger] p.cmd@[k]@, "vscode"@),
            decreases p.cmd.len() - i,
        {
            if contains(p.cmd[i].as_str(), "vscode") {
                assert(has_substring(p.cmd@[i as int]@, "vscode"@));
                return true;
            }
            i = i + 1;
        }
    }
    if same_text(p.name.as_str(), "Electron") && contains(p.exe.as_str(), "Visual Studio Code") {
        return true;
    }
    false
}

/// Whether the launcher runs in a terminal of the IDE: whether the process
/// with number `current`, or one of its ancestors, is a process of the IDE.
/// The line of ancestors is followed for as many steps as the table has
/// processes.
pub fn is_in_vscode_term(table: &Vec<ProcessInfo>, current: i32) -> (inside: bool)
    ensures
        inside == ancestry_has_ide(table@, Some(current), table@.len()),
{
    let mut steps: usize = table.len();
    let mut pid: Option<i32> = Some(current);
    while steps > 0
        invariant
            steps <= table.len(),
            ancestry_has_ide(table@, Some(current), table@.len()) == ancestry_has_ide(
                table@,
                pid,
                steps as nat,
            ),
        decreases steps,
    {
        let p = match pid {
            None => {
                return false;
            },
            Some(p) => p,
        };
        let index = match find_process(table, p) {
            None => {
                return false;
            },
            Some(index) => index,
        };
        if ide_process(&table[index]) {
            return true;
        }
        pid = table[index].parent;
        steps = steps - 1;
    }
    false
}

} // verus!
