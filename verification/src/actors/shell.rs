//! A command line that is run under a deadline, and the record of how it
//! went.
//!
//! Running the program is the caller's part. The caller waits for the
//! worker that runs it and hands over how that wait ended, as a
//! [`Completion`]; what is recorded, and how the run is classified, is
//! decided here.

use crate::common::ds::Result;
use crate::text::{contains, contains_str, trim, trim_str};
use std::time::{Duration, Instant};
use vstd::prelude::*;
use vstd::string::*;

verus! {

#[verifier::external_type_specification]
#[verifier::external_body]
pub struct ExInstant(std::time::Instant);

/// `Instant::now` reads the clock: nothing is claimed of what it returns.
pub assume_specification[ Instant::now ]() -> Instant
;

/// `Instant::duration_since` returns the time from `earlier` to `later`, and
/// zero where `earlier` is the later one: it returns for every pair, and
/// nothing more is claimed here.
pub assume_specification[ Instant::duration_since ](later: &Instant, earlier: Instant) -> Duration
;

/// `Clone::clone` of an `Instant`, which is `Copy`: the same instant.
pub assume_specification[ <Instant as Clone>::clone ](instant: &Instant) -> (copy: Instant)
    ensures
        copy == *instant,
;

/// How the wait for the worker that runs the program ended.
#[derive(Debug, Clone)]
pub enum Completion {
    /// The worker reported the program's end: its exit code, where it has
    /// one, and what it wrote.
    Finished { status: Option<i32>, stdout: String, stderr: String },
    /// The worker reported that the program could not be run.
    StartFailed { message: String },
    /// The deadline passed before the worker reported.
    TimedOut,
    /// The worker went away without reporting.
    Disconnected,
}

/// The exit code that stands for a run that ended without one of its own.
pub const EXIT_TIMED_OUT: i32 = -1;

pub const EXIT_DISCONNECTED: i32 = -2;

pub const EXIT_START_FAILED: i32 = -1;

/// The message recorded for a run that passed its deadline.
pub open spec fn timed_out_text() -> Seq<char> {
    "Command timed out"@
}

/// The message recorded for a run whose worker went away.
pub open spec fn disconnected_text() -> Seq<char> {
    "Receiver disconnected before getting a result"@
}

impl Completion {
    /// The verdict on a run that ended this way, under the check `check`.
    ///
    /// In this order: a passed deadline is a failure; a lost report and a
    /// program that could not be run are errors; an exit code other than zero,
    /// or none, is a failure; with a check, the run succeeds exactly if the
    /// standard output holds the checked text; else it succeeds.
    pub open spec fn verdict(self, check: Option<Seq<char>>) -> Result {
        match self {
            Completion::TimedOut => Result::Failed,
            Completion::Disconnected => Result::Error,
            Completion::StartFailed { .. } => Result::Error,
            Completion::Finished { status, stdout, .. } => {
                if status != Some(0i32) {
                    Result::Failed
                } else {
                    match check {
                        Some(p) => if contains(stdout@, p) {
                            Result::Success
                        } else {
                            Result::Failed
                        },
                        None => Result::Success,
                    }
                }
            },
        }
    }

    /// The exit code recorded for a run that ended this way.
    pub open spec fn exit_code(self) -> Option<i32> {
        match self {
            Completion::TimedOut => Some(EXIT_TIMED_OUT),
            Completion::Disconnected => Some(EXIT_DISCONNECTED),
            Completion::StartFailed { .. } => Some(EXIT_START_FAILED),
            Completion::Finished { status, .. } => status,
        }
    }

    /// The standard error recorded for a run that ended this way.
    pub open spec fn error_text(self) -> Option<Seq<char>> {
        match self {
            Completion::TimedOut => Some(timed_out_text()),
            Completion::Disconnected => Some(disconnected_text()),
            Completion::StartFailed { message } => Some(message@),
            Completion::Finished { stderr, .. } => Some(stderr@),
        }
    }

    /// The standard output recorded for a run that ended this way, where
    /// `before` was recorded before: a program that could not be run leaves
    /// the record as it was.
    pub open spec fn output_text(self, before: Option<Seq<char>>) -> Option<Seq<char>> {
        match self {
            Completion::TimedOut => None,
            Completion::Disconnected => None,
            Completion::StartFailed { .. } => before,
            Completion::Finished { stdout, .. } => Some(stdout@),
        }
    }

    /// The verdict on a run that ended this way.
    pub fn classify(&self, check_str: &Option<String>) -> (r: Result)
        ensures
            r == self.verdict(check_str.deep_view()),
    {
        match self {
            Completion::TimedOut => Result::Failed,
            Completion::Disconnected => Result::Error,
            Completion::StartFailed { .. } => Result::Error,
            Completion::Finished { status, stdout, .. } => {
                let zero = match status {
                    Some(code) => *code == 0,
                    None => false,
                };
                if !zero {
                    Result::Failed
                } else {
                    match check_str {
                        Some(p) => {
                            if contains_str(stdout.as_str(), p.as_str()) {
                                Result::Success
                            } else {
                                Result::Failed
                            }
                        },
                        None => Result::Success,
                    }
                }
            },
        }
    }
}

/// A run that passed its deadline is a failure with exit code -1 and the
/// message "Command timed out", whatever the check.
pub proof fn lemma_timed_out_is_failure(check: Option<Seq<char>>)
    ensures
        Completion::TimedOut.verdict(check) == Result::Failed,
        Completion::TimedOut.exit_code() == Some(-1i32),
        Completion::TimedOut.error_text() == Some("Command timed out"@),
{
}

/// A program that ends with exit code zero, run without a check, succeeded.
pub proof fn lemma_exit_zero_unchecked_succeeds(stdout: String, stderr: String)
    ensures
        (Completion::Finished { status: Some(0), stdout, stderr }).verdict(None)
            == Result::Success,
{
}

/// A program that ends with exit code zero failed when the checked text is
/// not in its standard output.
pub proof fn lemma_exit_zero_check_absent_fails(stdout: String, stderr: String, check: Seq<char>)
    requires
        !contains(stdout@, check),
    ensures
        (Completion::Finished { status: Some(0), stdout, stderr }).verdict(Some(check))
            == Result::Failed,
{
}

/// A program that ends with exit code zero succeeded when the checked text
/// is in its standard output.
pub proof fn lemma_exit_zero_check_present_succeeds(
    stdout: String,
    stderr: String,
    check: Seq<char>,
)
    requires
        contains(stdout@, check),
    ensures
        (Completion::Finished { status: Some(0), stdout, stderr }).verdict(Some(check))
            == Result::Success,
{
}

/// A program that could not be run is an error, whatever the check; the
/// deadline plays no part in any verdict.
pub proof fn lemma_start_failure_is_error(message: String, check: Option<Seq<char>>)
    ensures
        (Completion::StartFailed { message }).verdict(check) == Result::Error,
{
}

/// A run succeeds only where the program ended with exit code zero.
pub proof fn lemma_success_needs_exit_zero(c: Completion, check: Option<Seq<char>>)
    requires
        c.verdict(check) == Result::Success,
    ensures
        c matches Completion::Finished { status, stdout, .. } && status == Some(0i32) && (
        check matches Some(p) ==> contains(stdout@, p)),
{
}

/// A run is recorded in the record it was started for, and in no other: the
/// record keeps its number, its command and its check, and a program that
/// ended with exit code zero, run without a check, is recorded as a success
/// with what it wrote.
pub proof fn lemma_run_is_recorded_where_it_belongs(
    before: ShellView,
    start: Instant,
    stdout: String,
    stderr: String,
    next: ShellView,
)
    requires
        before.check_str is None,
        before.settled(start, Completion::Finished { status: Some(0), stdout, stderr }, next),
    ensures
        next.id == before.id,
        next.cmd == before.cmd,
        next.args == before.args,
        next.status == Some(0i32),
        next.stdout == Some(stdout@),
        next.stderr == Some(stderr@),
        next.result == Some(Result::Success),
{
}

/// A command line and, once it has been run, the record of the run.
#[derive(Debug, Clone)]
pub struct Shell {
    id: u32,
    cmd: String,
    timeout_sec: u64,
    args: Option<Vec<String>>,
    check_str: Option<String>,
    status: Option<i32>,
    stdout: Option<String>,
    stderr: Option<String>,
    result: Option<Result>,
    start: Option<Instant>,
    end: Option<Instant>,
    cost: Option<Duration>,
}

/// What a [`Shell`] holds.
pub struct ShellView {
    /// The serial number of the command.
    pub id: u32,
    /// The program to run.
    pub cmd: Seq<char>,
    /// The deadline, in seconds.
    pub timeout_sec: u64,
    /// The arguments, in order.
    pub args: Option<Seq<Seq<char>>>,
    /// The text that the standard output must hold for the run to succeed.
    pub check_str: Option<Seq<char>>,
    /// The exit code.
    pub status: Option<i32>,
    /// The standard output.
    pub stdout: Option<Seq<char>>,
    /// The standard error.
    pub stderr: Option<Seq<char>>,
    /// The verdict.
    pub result: Option<Result>,
    /// When the run began.
    pub start: Option<Instant>,
    /// When the run was settled.
    pub end: Option<Instant>,
    /// How long the run took.
    pub cost: Option<Duration>,
}

impl ShellView {
    /// The command is named and has a deadline.
    pub open spec fn is_spec(self) -> bool {
        trim(self.cmd).len() > 0 && self.timeout_sec > 0
    }

    /// No run has been recorded.
    pub open spec fn is_fresh(self) -> bool {
        &&& self.status is None
        &&& self.stdout is None
        &&& self.stderr is None
        &&& self.result is None
        &&& self.start is None
        &&& self.end is None
        &&& self.cost is None
    }

    /// The record after a run that began at `start` and ended as `c`, but
    /// for the two readings of the clock that close it.
    pub open spec fn settled(self, start: Instant, c: Completion, next: ShellView) -> bool {
        &&& next.id == self.id
        &&& next.cmd == self.cmd
        &&& next.timeout_sec == self.timeout_sec
        &&& next.args == self.args
        &&& next.check_str == self.check_str
        &&& next.status == c.exit_code()
        &&& next.stdout == c.output_text(self.stdout)
        &&& next.stderr == c.error_text()
        &&& next.result == Some(c.verdict(self.check_str))
        &&& next.start == Some(start)
        &&& next.end is Some
        &&& next.cost is Some
    }
}

impl View for Shell {
    type V = ShellView;

    closed spec fn view(&self) -> ShellView {
        ShellView {
            id: self.id,
            cmd: self.cmd@,
            timeout_sec: self.timeout_sec,
            args: self.args.deep_view(),
            check_str: self.check_str.deep_view(),
            status: self.status,
            stdout: self.stdout.deep_view(),
            stderr: self.stderr.deep_view(),
            result: self.result,
            start: self.start,
            end: self.end,
            cost: self.cost,
        }
    }
}

/// The arguments as they are kept: each without the white space around it.
pub open spec fn trimmed_args(args: Seq<&str>) -> Seq<Seq<char>> {
    args.map_values(|a: &str| trim(a@))
}

fn trim_all(args: &[&str]) -> (out: Vec<String>)
    ensures
        out.deep_view() == trimmed_args(args@),
{
    let mut out: Vec<String> = Vec::new();
    let mut i: usize = 0;
    while i < args.len()
        invariant
            i <= args.len(),
            out.len() == i,
            forall|j: int| 0 <= j < i ==> out@[j]@ == trim(#[trigger] args@[j]@),
        decreases args.len() - i,
    {
        out.push(trim_str(args[i]));
        i += 1;
    }
    assert(out.deep_view() =~= trimmed_args(args@));
    out
}

impl Shell {
    /// A command that has not been run: `cmd` with the arguments `cmd_args`,
    /// to be given `timeout_sec` seconds, and to be checked for `check_str`
    /// in its standard output. The arguments are kept without the white
    /// space around them; the checked text is kept as it is given, so that
    /// the check is for exactly that text.
    pub fn new(
        id: &u32,
        cmd: &str,
        cmd_args: Option<&[&str]>,
        timeout_sec: &u64,
        check_str: Option<&str>,
    ) -> (shell: Self)
        requires
            trim(cmd@).len() > 0,
            *timeout_sec > 0,
        ensures
            shell@.is_spec(),
            shell@.is_fresh(),
            shell@.id == *id,
            shell@.cmd == cmd@,
            shell@.timeout_sec == *timeout_sec,
            shell@.args == match cmd_args {
                Some(a) => Some(trimmed_args(a@)),
                None => None,
            },
            shell@.check_str == match check_str {
                Some(s) => Some(s@),
                None => None,
            },
    {
        let args = match cmd_args {
            Some(a) => Some(trim_all(a)),
            None => None,
        };
        let check = match check_str {
            Some(s) => Some(s.to_owned()),
            None => None,
        };
        Self {
            id: *id,
            cmd: cmd.to_owned(),
            timeout_sec: *timeout_sec,
            args,
            check_str: check,
            status: None,
            stdout: None,
            stderr: None,
            result: None,
            start: None,
            end: None,
            cost: None,
        }
    }

    pub fn id(&self) -> (r: &u32)
        ensures
            *r == self@.id,
    {
        &self.id
    }

    pub fn cmd(&self) -> (r: &str)
        ensures
            r@ == self@.cmd,
    {
        self.cmd.as_str()
    }

    pub fn args(&self) -> (r: &Option<Vec<String>>)
        ensures
            r.deep_view() == self@.args,
    {
        &self.args
    }

    pub fn timeout_sec(&self) -> (r: &u64)
        ensures
            *r == self@.timeout_sec,
    {
        &self.timeout_sec
    }

    pub fn check_str(&self) -> (r: &Option<String>)
        ensures
            r.deep_view() == self@.check_str,
    {
        &self.check_str
    }

    pub fn status(&self) -> (r: &Option<i32>)
        ensures
            *r == self@.status,
    {
        &self.status
    }

    pub fn stdout(&self) -> (r: &Option<String>)
        ensures
            r.deep_view() == self@.stdout,
    {
        &self.stdout
    }

    pub fn stderr(&self) -> (r: &Option<String>)
        ensures
            r.deep_view() == self@.stderr,
    {
        &self.stderr
    }

    pub fn result(&self) -> (r: &Option<Result>)
        ensures
            *r == self@.result,
    {
        &self.result
    }

    pub fn start(&self) -> (r: &Option<Instant>)
        ensures
            *r == self@.start,
    {
        &self.start
    }

    pub fn end(&self) -> (r: &Option<Instant>)
        ensures
            *r == self@.end,
    {
        &self.end
    }

    pub fn cost(&self) -> (r: &Option<Duration>)
        ensures
            *r == self@.cost,
    {
        &self.cost
    }

    /// Records the run that began at `start` and whose worker was waited for
    /// until `completion`: exit code, output and verdict as `completion`
    /// gives them, then the time of settling and the time taken.
    pub fn execute(&mut self, start: Instant, completion: Completion)
        ensures
            old(self)@.settled(start, completion, final(self)@),
            final(self)@.is_spec() == old(self)@.is_spec(),
    {
        self.start = Some(start);
        self.result = Some(completion.classify(&self.check_str));
        match completion {
            Completion::Finished { status, stdout, stderr } => {
                self.status = status;
                self.stdout = Some(stdout);
                self.stderr = Some(stderr);
            },
            Completion::StartFailed { message } => {
                self.status = Some(EXIT_START_FAILED);
                self.stderr = Some(message);
            },
            Completion::TimedOut => {
                self.status = Some(EXIT_TIMED_OUT);
                self.stdout = None;
                self.stderr = Some("Command timed out".to_owned());
            },
            Completion::Disconnected => {
                self.status = Some(EXIT_DISCONNECTED);
                self.stdout = None;
                self.stderr = Some("Receiver disconnected before getting a result".to_owned());
            },
        }
        let end = Instant::now();
        self.cost = Some(end.duration_since(start));
        self.end = Some(end);
    }
}

} // verus!
