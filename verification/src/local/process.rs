//! A process.

use vstd::prelude::*;
use vstd::string::*;

verus! {

/// A process.
#[derive(Debug, Clone)]
pub struct ProcessInfo {
    pub pid: String,
    pub command: String,
    pub exe_path: String,
    pub full_command: String,
}

/// What a [`ProcessInfo`] holds.
pub struct ProcessInfoView {
    pub pid: Seq<char>,
    pub command: Seq<char>,
    pub exe_path: Seq<char>,
    pub full_command: Seq<char>,
}

impl View for ProcessInfo {
    type V = ProcessInfoView;

    open spec fn view(&self) -> ProcessInfoView {
        ProcessInfoView {
            pid: self.pid@,
            command: self.command@,
            exe_path: self.exe_path@,
            full_command: self.full_command@,
        }
    }
}

impl ProcessInfo {
    pub fn new(pid: &str, command: &str, exe_path: &str, full_command: &str) -> (p: Self)
        ensures
            p@ == (ProcessInfoView {
                pid: pid@,
                command: command@,
                exe_path: exe_path@,
                full_command: full_command@,
            }),
    {
        Self {
            pid: pid.to_owned(),
            command: command.to_owned(),
            exe_path: exe_path.to_owned(),
            full_command: full_command.to_owned(),
        }
    }
}

} // verus!
