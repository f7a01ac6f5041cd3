//! Attach coordinates: what a debugger adapter tells about how to reach the
//! debuggee.

use vstd::prelude::*;
use crate::text::same_text;

verus! {

/// The names under which attach coordinates are kept.
#[derive(Debug, Clone, Copy, PartialEq, Eq, Hash, Structural)]
pub enum AttachInformationKey {
    DebuggerTypeHint,
    Pid,
    DebuggerPort,
    ProgramName,
}

impl AttachInformationKey {
    /// The key as it is written for the IDE, in camel case.
    pub open spec fn name_text(self) -> Seq<char> {
        match self {
            AttachInformationKey::DebuggerTypeHint => "debuggerTypeHint"@,
            AttachInformationKey::Pid => "pid"@,
            AttachInformationKey::DebuggerPort => "debuggerPort"@,
            AttachInformationKey::ProgramName => "programName"@,
        }
    }

    /// The key as it is written for the IDE.
    pub fn name(&self) -> (name: &'static str)
        ensures
            name@ == self.name_text(),
    {
        match self {
            AttachInformationKey::DebuggerTypeHint => "debuggerTypeHint",
            AttachInformationKey::Pid => "pid",
            AttachInformationKey::DebuggerPort => "debuggerPort",
            AttachInformationKey::ProgramName => "programName",
        }
    }

    /// The key with the given name, if there is one.
    pub fn from_name(name: &str) -> (key: Option<AttachInformationKey>)
        ensures
            match key {
                Some(k) => k.name_text() == name@,
                None => forall|k: AttachInformationKey| k.name_text() != name@,
            },
    {
        if same_text(name, "debuggerTypeHint") {
            Some(AttachInformationKey::DebuggerTypeHint)
        } else if same_text(name, "pid") {
            Some(AttachInformationKey::Pid)
        } else if same_text(name, "debuggerPort") {
            Some(AttachInformationKey::DebuggerPort)
        } else if same_text(name, "programName") {
            Some(AttachInformationKey::ProgramName)
        } else {
            None
        }
    }
}

/// Attach coordinates: a value for some of the keys.
#[derive(Debug, Clone, PartialEq, Eq)]
pub struct AttachInformation {
    pub debugger_type_hint: Option<String>,
    pub pid: Option<String>,
    pub debugger_port: Option<String>,
    pub program_name: Option<String>,
}

/// The text of an optional string.
pub open spec fn optional_text(value: Option<String>) -> Option<Seq<char>> {
    match value {
        Some(s) => Some(s@),
        None => None,
    }
}

impl AttachInformation {
    /// The value kept under a key, if any.
    pub open spec fn lookup(self, key: AttachInformationKey) -> Option<Seq<char>> {
        match key {
            AttachInformationKey::DebuggerTypeHint => optional_text(self.debugger_type_hint),
            AttachInformationKey::Pid => optional_text(self.pid),
            AttachInformationKey::DebuggerPort => optional_text(self.debugger_port),
            AttachInformationKey::ProgramName => optional_text(self.program_name),
        }
    }

    /// Coordinates without any key.
    pub fn new() -> (info: AttachInformation)
        ensures
            forall|key: AttachInformationKey| info.lookup(key).is_none(),
    {
        AttachInformation {
            debugger_type_hint: None,
            pid: None,
            debugger_port: None,
            program_name: None,
        }
    }

    /// Puts a value under a key, in place of any earlier one.
    pub fn insert(&mut self, key: AttachInformationKey, value: String)
        ensures
            final(self).lookup(key) == Some(value@),
            forall|other: AttachInformationKey|
                other != key ==> final(self).lookup(other) == old(self).lookup(other),
    {
        match key {
            AttachInformationKey::DebuggerTypeHint => {
                self.debugger_type_hint = Some(value);
            },
            AttachInformationKey::Pid => {
                self.pid = Some(value);
            },
            AttachInformationKey::DebuggerPort => {
                self.debugger_port = Some(value);
            },
            AttachInformationKey::ProgramName => {
                self.program_name = Some(value);
            },
        }
    }

    /// The value kept under a key.
    pub fn get(&self, key: AttachInformationKey) -> (value: Option<&String>)
        ensures
            match value {
                Some(v) => self.lookup(key) == Some(v@),
                None => self.lookup(key).is_none(),
            },
    {
        match key {
            AttachInformationKey::DebuggerTypeHint => self.debugger_type_hint.as_ref(),
            AttachInformationKey::Pid => self.pid.as_ref(),
            AttachInformationKey::DebuggerPort => self.debugger_port.as_ref(),
            AttachInformationKey::ProgramName => self.program_name.as_ref(),
        }
    }
}

} // verus!
