//! The processes of the host.

use crate::text::{
    contains, contains_str, from_chars, join, join_chars, pad_left, pad_left_str, pad_right,
    pad_right_str, rows, same_str, strs, to_chars, words, words_chars,
};
use vstd::prelude::*;
use vstd::string::*;

verus! {

/// A process.
#[derive(Debug, Clone)]
pub struct ProcessInfo {
    pub pid: String,
    pub command: String,
    pub exe_path: String,
    pub full_command: String,
}

/// What a [`ProcessInfo`] holds.
pub struct ProcessInfoView {
    pub pid: Seq<char>,
    pub command: Seq<char>,
    pub exe_path: Seq<char>,
    pub full_command: Seq<char>,
}

impl View for ProcessInfo {
    type V = ProcessInfoView;

    open spec fn view(&self) -> ProcessInfoView {
        ProcessInfoView {
            pid: self.pid@,
            command: self.command@,
            exe_path: self.exe_path@,
            full_command: self.full_command@,
        }
    }
}

/// The processes that a vector holds.
pub open spec fn process_views(v: Seq<ProcessInfo>) -> Seq<ProcessInfoView> {
    v.map_values(|p: ProcessInfo| p@)
}

/// A process, as the system gives it.
#[derive(Debug, Clone)]
pub struct RawProcess {
    /// The process number, written out.
    pub pid: String,
    /// The command line, argument by argument.
    pub cmd: Vec<String>,
    /// The path of the executable, where it is known.
    pub exe: Option<String>,
}

/// The process that the system's `raw` comes to: the full command is the
/// arguments with a space between them, the command its first word.
pub open spec fn process_of(raw: RawProcess) -> ProcessInfoView {
    let full = join(strs(raw.cmd@), " "@);
    ProcessInfoView {
        pid: raw.pid@,
        command: if words(full).len() > 0 {
            words(full)[0]
        } else {
            Seq::<char>::empty()
        },
        exe_path: match raw.exe {
            Some(p) => p@,
            None => Seq::<char>::empty(),
        },
        full_command: full,
    }
}

/// The line that shows a process.
pub open spec fn process_text(p: ProcessInfoView) -> Seq<char> {
    pad_left(p.pid, 10) + " "@ + pad_right(p.command, 15) + " "@ + pad_right(p.exe_path, 30)
        + " "@ + p.full_command
}

impl ProcessInfo {
    pub fn new(pid: &str, command: &str, exe_path: &str, full_command: &str) -> (p: Self)
        ensures
            p@ == (ProcessInfoView {
                pid: pid@,
                command: command@,
                exe_path: exe_path@,
                full_command: full_command@,
            }),
    {
        Self {
            pid: pid.to_owned(),
            command: command.to_owned(),
            exe_path: exe_path.to_owned(),
            full_command: full_command.to_owned(),
        }
    }

    /// The line that shows the process.
    pub fn display(&self) -> (out: String)
        ensures
            out@ == process_text(self@),
    {
        let mut out = pad_left_str(self.pid.as_str(), 10);
        out.append(" ");
        let c = pad_right_str(self.command.as_str(), 15);
        out.append(c.as_str());
        out.append(" ");
        let e = pad_right_str(self.exe_path.as_str(), 30);
        out.append(e.as_str());
        out.append(" ");
        out.append(self.full_command.as_str());
        out
    }

    /// A copy of the process.
    pub fn duplicate(&self) -> (p: Self)
        ensures
            p@ == self@,
    {
        Self {
            pid: self.pid.clone(),
            command: self.command.clone(),
            exe_path: self.exe_path.clone(),
            full_command: self.full_command.clone(),
        }
    }
}

fn chars_of_all(v: &Vec<String>) -> (out: Vec<Vec<char>>)
    ensures
        rows(out@) == strs(v@),
{
    let mut out: Vec<Vec<char>> = Vec::new();
    let mut i: usize = 0;
    while i < v.len()
        invariant
            i <= v.len(),
            rows(out@) == strs(v@).take(i as int),
        decreases v.len() - i,
    {
        let ghost before = rows(out@);
        let c = to_chars(v[i].as_str());
        out.push(c);
        assert(rows(out@) =~= before.push(v@[i as int]@));
        assert(strs(v@).take(i + 1) =~= strs(v@).take(i as int).push(v@[i as int]@));
        i += 1;
    }
    assert(strs(v@).take(v.len() as int) =~= strs(v@));
    out
}

/// The processes that the system's `raw` come to, in the order of `raw`.
pub fn gather_process_info(raw: &Vec<RawProcess>) -> (out: Vec<ProcessInfo>)
    ensures
        process_views(out@) == raw@.map_values(|r: RawProcess| process_of(r)),
{
    let ghost all = raw@.map_values(|r: RawProcess| process_of(r));
    let mut out: Vec<ProcessInfo> = Vec::new();
    let mut i: usize = 0;
    assert(process_views(out@) =~= all.take(0));
    while i < raw.len()
        invariant
            i <= raw.len(),
            all == raw@.map_values(|r: RawProcess| process_of(r)),
            process_views(out@) == all.take(i as int),
        decreases raw.len() - i,
    {
        let process = &raw[i];
        let args = chars_of_all(&process.cmd);
        let space = to_chars(" ");
        assert(rows(args@).skip(0) =~= rows(args@));
        let full = join_chars(&args, 0, &space);
        let ws = words_chars(&full);
        let command = if ws.len() > 0 {
            assert(rows(ws@)[0] == ws@[0]@);
            from_chars(&ws[0])
        } else {
            String::new()
        };
        let exe_path = match &process.exe {
            Some(p) => p.clone(),
            None => String::new(),
        };
        let full_command = from_chars(&full);
        let p = ProcessInfo::new(
            process.pid.as_str(),
            command.as_str(),
            exe_path.as_str(),
            full_command.as_str(),
        );
        let ghost before = process_views(out@);
        out.push(p);
        proof {
            assert(p@ == process_of(raw@[i as int]));
            assert(process_views(out@) =~= before.push(p@));
            assert(all.take(i + 1) =~= all.take(i as int).push(p@));
        }
        i += 1;
    }
    assert(all.take(raw.len() as int) =~= all);
    out
}

/// A condition on processes.
#[derive(Debug, Clone)]
pub enum Filter<'a> {
    ByPid(&'a str),
    ByKeyword(&'a str),
    ByMask(&'a str),
}

/// The process `p` passes `filter`: it has the given process number, or
/// the keyword is in its command or in its full command; every process
/// passes a mask, and every process passes where there is no filter.
pub open spec fn passes(p: ProcessInfoView, filter: Option<Filter>) -> bool {
    match filter {
        Some(Filter::ByPid(pid)) => p.pid == pid@,
        Some(Filter::ByKeyword(keyword)) => contains(p.command, keyword@) || contains(
            p.full_command,
            keyword@,
        ),
        Some(Filter::ByMask(_)) => true,
        None => true,
    }
}

/// The process `p` is hidden by `mask`: the mask is a keyword that is in
/// its full command. No other mask hides anything.
pub open spec fn masked(p: ProcessInfoView, mask: Option<Filter>) -> bool {
    match mask {
        Some(Filter::ByKeyword(keyword)) => contains(p.full_command, keyword@),
        _ => false,
    }
}

/// The processes of `all` that pass `filter` and are not hidden by `mask`.
pub open spec fn filtered(all: Seq<ProcessInfoView>, filter: Option<Filter>, mask: Option<Filter>)
    -> Seq<ProcessInfoView> {
    all.filter(|p: ProcessInfoView| passes(p, filter) && !masked(p, mask))
}

/// The processes of `processes` that pass `filter` and are not hidden by
/// `mask`, in order.
pub fn filter_processes(processes: &Vec<ProcessInfo>, filter: Option<Filter>, mask: Option<Filter>)
    -> (out: Vec<ProcessInfo>)
    ensures
        process_views(out@) == filtered(process_views(processes@), filter, mask),
{
    let ghost all = process_views(processes@);
    let ghost keep = |p: ProcessInfoView| passes(p, filter) && !masked(p, mask);
    let mut out: Vec<ProcessInfo> = Vec::new();
    let mut i: usize = 0;
    proof {
        reveal(Seq::filter);
        assert(process_views(out@) =~= all.take(0).filter(keep));
    }
    while i < processes.len()
        invariant
            i <= processes.len(),
            all == process_views(processes@),
            keep == (|p: ProcessInfoView| passes(p, filter) && !masked(p, mask)),
            process_views(out@) == all.take(i as int).filter(keep),
        decreases processes.len() - i,
    {
        let process = &processes[i];
        proof {
            assert(all.take(i + 1) =~= all.take(i as int).push(process@));
            all.take(i as int).lemma_filter_push(process@, keep);
        }
        let passed = match &filter {
            Some(Filter::ByPid(pid)) => same_str(process.pid.as_str(), pid),
            Some(Filter::ByKeyword(keyword)) => contains_str(process.command.as_str(), keyword)
                || contains_str(process.full_command.as_str(), keyword),
            Some(Filter::ByMask(_)) => true,
            None => true,
        };
        let shown = if passed {
            match &mask {
                Some(Filter::ByKeyword(mask_keyword)) => !contains_str(
                    process.full_command.as_str(),
                    mask_keyword,
                ),
                _ => true,
            }
        } else {
            false
        };
        if shown {
            let ghost before = process_views(out@);
            out.push(process.duplicate());
            assert(process_views(out@) =~= before.push(process@));
        }
        i += 1;
    }
    assert(all.take(processes.len() as int) =~= all);
    out
}

/// The processes that the system's `raw` come to, but for those that do not
/// pass `filter` or are hidden by `mask`.
pub fn get_filtered_processes_as_list(
    raw: &Vec<RawProcess>,
    filter: Option<Filter>,
    mask: Option<Filter>,
) -> (out: Vec<ProcessInfo>)
    ensures
        process_views(out@) == filtered(
            raw@.map_values(|r: RawProcess| process_of(r)),
            filter,
            mask,
        ),
{
    let processes = gather_process_info(raw);
    filter_processes(&processes, filter, mask)
}

} // verus!
