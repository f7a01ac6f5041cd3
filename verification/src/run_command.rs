//! The command line that a shim runs: the `set` invocation of the user,
//! turned into the `run` invocation with the same flags.

use vstd::prelude::*;
use vstd::string::*;
use crate::error::DbgeeError;
use crate::file_helper::{
    get_valid_executable_path, is_executable_stat, is_not_executable, is_path_not_found, FileStat,
    PathLookup,
};
use crate::shim::{backup_name, get_debuggee_backup_name};
use crate::text::{join, joined, push_text, replace, replaced, same_text, texts};

verus! {

/// One flag of a parsed command line: its name and, unless it is a switch,
/// the values given for it.
#[derive(Debug, Clone, PartialEq, Eq)]
pub struct FlagMatch {
    pub name: String,
    pub values: Option<Vec<String>>,
}

/// `s` with every single quote written so that it survives between single
/// quotes in a shell: the quote is closed, a quoted quote follows, and the
/// quote is opened again.
pub open spec fn escaped(s: Seq<char>) -> Seq<char> {
    replaced(s, "'"@, "'\"'\"'"@)
}

/// Escapes the single quotes of `s` for use between single quotes.
pub fn escape_single_quote(s: &str) -> (out: String)
    ensures
        out@ == escaped(s@),
{
    replace(s, "'", "'\"'\"'")
}

/// A value between single quotes, escaped.
pub open spec fn quoted_value(value: Seq<char>) -> Seq<char> {
    "'"@ + escaped(value) + "'"@
}

/// The name of a flag as it is written on a command line: two dashes, and
/// dashes for the underscores of the name.
pub open spec fn flag_word(name: Seq<char>) -> Seq<char> {
    "--"@ + replaced(name, "_"@, "-"@)
}

/// The words for the values of a flag.
pub open spec fn value_words(values: Option<Vec<String>>) -> Seq<Seq<char>> {
    match values {
        Some(v) => v@.map_values(|value: String| quoted_value(value@)),
        None => Seq::empty(),
    }
}

/// The words that stand for the flags, in order, without those named in
/// `positional`.
pub open spec fn flags_words(flags: Seq<FlagMatch>, positional: Seq<Seq<char>>) -> Seq<Seq<char>>
    decreases flags.len(),
{
    if flags.len() == 0 {
        Seq::empty()
    } else {
        let init = flags_words(flags.drop_last(), positional);
        let flag = flags.last();
        if positional.contains(flag.name@) {
            init
        } else {
            init + seq![flag_word(flag.name@)] + value_words(flag.values)
        }
    }
}

/// The flags as one piece of a command line.
pub open spec fn reconstructed(flags: Seq<FlagMatch>, positional: Seq<Seq<char>>) -> Seq<char> {
    joined(flags_words(flags, positional), " "@)
}

fn is_listed(list: &Vec<String>, name: &str) -> (listed: bool)
    ensures
        listed == texts(list@).contains(name@),
{
    let mut i: usize = 0;
    while i < list.len()
        invariant
            i <= list.len(),
            forall|k: int| 0 <= k < i ==> texts(list@)[k] != name@,
        decreases list.len() - i,
    {
        assert(texts(list@)[i as int] == list@[i as int]@);
        if same_text(list[i].as_str(), name) {
            return true;
        }
        i = i + 1;
    }
    false
}

/// Writes the flags of a parsed command line out again, leaving out the
/// positional arguments.
pub fn reconstruct_flags(opts: &Vec<FlagMatch>, positional_args: &Vec<String>) -> (out: String)
    ensures
        out@ == reconstructed(opts@, texts(positional_args@)),
{
    let ghost positional = texts(positional_args@);
    let mut command: Vec<String> = Vec::new();
    let mut i: usize = 0;
    assert(opts@.take(0) =~= Seq::<FlagMatch>::empty());
    assert(texts(command@) =~= Seq::<Seq<char>>::empty());
    while i < opts.len()
        invariant
            i <= opts.len(),
            positional == texts(positional_args@),
            texts(command@) == flags_words(opts@.take(i as int), positional),
        decreases opts.len() - i,
    {
        let ghost before = opts@.take(i as int);
        let ghost after = opts@.take(i + 1);
        let ghost done = texts(command@);
        proof {
            assert(after.drop_last() =~= before);
            assert(after.last() == opts@[i as int]);
        }
        let flag = &opts[i];
        if !is_listed(positional_args, flag.name.as_str()) {
            let word = String::from_str("--").concat(
                replace(flag.name.as_str(), "_", "-").as_str(),
            );
            push_text(&mut command, word.as_str());
            let ghost named = texts(command@);
            match &flag.values {
                Some(values) => {
                    let mut j: usize = 0;
                    assert(value_words(flag.values).take(0) =~= Seq::<Seq<char>>::empty());
                    assert(named + Seq::<Seq<char>>::empty() =~= named);
                    while j < values.len()
                        invariant
                            j <= values.len(),
                            flag.values == Some(*values),
                            texts(command@) == named + value_words(flag.values).take(j as int),
                        decreases values.len() - j,
                    {
                        let value = String::from_str("'").concat(
                            escape_single_quote(values[j].as_str()).as_str(),
                        ).concat("'");
                        push_text(&mut command, value.as_str());
                        j = j + 1;
                        assert(texts(command@) =~= named + value_words(flag.values).take(
                            j as int,
                        )) by {
                            assert(value_words(flag.values).take(j as int) =~= value_words(
                                flag.values,
                            ).take(j - 1).push(quoted_value(values@[j - 1]@)));
                        }
                    }
                    assert(value_words(flag.values).take(values.len() as int) =~= value_words(
                        flag.values,
                    ));
                },
                None => {
                    assert(named + value_words(flag.values) =~= named);
                },
            }
            assert(texts(command@) =~= done + seq![flag_word(flag.name@)] + value_words(
                flag.values,
            ));
        }
        i = i + 1;
    }
    assert(opts@.take(opts.len() as int) =~= opts@);
    join(&command, " ")
}

/// The names of the positional arguments of `set`, which are no flags.
pub open spec fn positional_of_set() -> Seq<Seq<char>> {
    seq!["debuggee"@, "start-cmd"@]
}

/// The names of the positional arguments of `set`.
pub fn setopts_positional_args() -> (names: Vec<String>)
    ensures
        texts(names@) == positional_of_set(),
{
    let mut names: Vec<String> = Vec::new();
    push_text(&mut names, "debuggee");
    push_text(&mut names, "start-cmd");
    assert(texts(names@) =~= positional_of_set());
    names
}

/// The command line of a shim: this program, the global flags, `run`, the
/// flags of `set`, two dashes, the backup of the debuggee, and whatever
/// arguments the shim was started with.
pub open spec fn run_command_text(
    self_path: Seq<char>,
    global_flags: Seq<FlagMatch>,
    set_flags: Seq<FlagMatch>,
    debuggee_path: Seq<char>,
) -> Seq<char> {
    self_path + " "@ + reconstructed(global_flags, Seq::empty()) + " run "@ + reconstructed(
        set_flags,
        positional_of_set(),
    ) + " -- "@ + backup_name(debuggee_path) + " \"$@\""@
}

/// Why no run command is built, if none is: this program or the debuggee
/// does not exist or is no executable file.
pub open spec fn run_command_refusal(
    self_exe: PathLookup,
    self_stat: Option<FileStat>,
    debuggee: PathLookup,
    debuggee_stat: Option<FileStat>,
    e: DbgeeError,
) -> bool {
    if self_exe.canonical.is_none() {
        is_path_not_found(e, "dbgee"@, self_exe.given@)
    } else if !is_executable_stat(self_stat) {
        is_not_executable(e, "dbgee"@, self_exe.canonical->Some_0@)
    } else if debuggee.canonical.is_none() {
        is_path_not_found(e, "debuggee"@, debuggee.given@)
    } else {
        is_not_executable(e, "debuggee"@, debuggee.canonical->Some_0@)
    }
}

/// Builds the command line that the shim of `debuggee` runs, from the flags
/// of the `set` invocation.
pub fn build_run_command(
    self_exe: &PathLookup,
    self_stat: Option<FileStat>,
    global_flags: &Vec<FlagMatch>,
    set_flags: &Vec<FlagMatch>,
    debuggee: &PathLookup,
    debuggee_stat: Option<FileStat>,
) -> (command: Result<String, DbgeeError>)
    ensures
        match command {
            Ok(c) => {
                &&& self_exe.canonical.is_some() && is_executable_stat(self_stat)
                &&& debuggee.canonical.is_some() && is_executable_stat(debuggee_stat)
                &&& c@ == run_command_text(
                    self_exe.canonical->Some_0@,
                    global_flags@,
                    set_flags@,
                    debuggee.canonical->Some_0@,
                )
            },
            Err(e) => {
                &&& !(self_exe.canonical.is_some() && is_executable_stat(self_stat)
                    && debuggee.canonical.is_some() && is_executable_stat(debuggee_stat))
                &&& run_command_refusal(*self_exe, self_stat, *debuggee, debuggee_stat, e)
            },
        },
{
    let self_path = get_valid_executable_path(self_exe, "dbgee", self_stat)?;
    let no_positional: Vec<String> = Vec::new();
    assert(texts(no_positional@) =~= Seq::<Seq<char>>::empty());
    let global_opts = reconstruct_flags(global_flags, &no_positional);
    let positional = setopts_positional_args();
    let attach_opts = reconstruct_flags(set_flags, &positional);
    let debuggee_path = get_valid_executable_path(debuggee, "debuggee", debuggee_stat)?;
    let backup = get_debuggee_backup_name(debuggee_path.as_str());
    Ok(
        self_path.concat(" ").concat(global_opts.as_str()).concat(" run ").concat(
            attach_opts.as_str(),
        ).concat(" -- ").concat(backup.as_str()).concat(" \"$@\""),
    )
}

} // verus!
