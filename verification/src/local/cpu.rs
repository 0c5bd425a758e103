//! The processor.
//!
//! On Windows the report is that of `wmic cpu get
//! NumberOfCores,NumberOfLogicalProcessors`, on Linux that of `lscpu`, on
//! macOS that of `sysctl -n machdep.cpu.core_count
//! machdep.cpu.thread_count`.

use crate::common::paint::green;
use crate::common::parse::{
    last_colon_field, last_word_field, number_at, read_last_colon_field, read_last_word_field,
    read_number_at,
};
use crate::text::{
    decimal, decimal_string, lines, lines_chars, parse_uint, parse_uint_chars, rows, same_str,
    to_chars, words, words_chars,
};
use vstd::prelude::*;
use vstd::string::*;

verus! {

/// What a [`CpuInfo`] holds: three counts, written in decimal, or three
/// empty texts for a platform that is not known.
pub struct CpuInfoView {
    pub cpu_socket_count: Seq<char>,
    pub cpu_core_count: Seq<char>,
    pub cpu_thread_count: Seq<char>,
}

/// The largest count that is kept.
pub open spec fn count_limit() -> nat {
    usize::MAX as nat
}

/// The sum, as it is kept, of the numbers in column `i` of the lines of
/// `ls` that have three words; a word that is no number counts as 0.
pub open spec fn column_sum(ls: Seq<Seq<char>>, i: int) -> usize
    decreases ls.len(),
{
    if ls.len() == 0 {
        0
    } else {
        let w = words(ls.last());
        let n = if w.len() == 3 {
            number_at(w, i, count_limit()) as usize
        } else {
            0usize
        };
        column_sum(ls.drop_last(), i).wrapping_add(n)
    }
}

/// The count that `found` gives, and 0 where it gives none.
pub open spec fn count_or_zero(found: Option<nat>) -> usize {
    match found {
        Some(n) => n as usize,
        None => 0,
    }
}

/// The processor that `report` describes on the platform `os`.
pub open spec fn cpu_of(os: Seq<char>, report: Seq<char>) -> CpuInfoView {
    let ls = lines(report);
    if os == "windows"@ {
        CpuInfoView {
            cpu_socket_count: decimal(1),
            cpu_core_count: decimal(column_sum(ls, 1) as nat),
            cpu_thread_count: decimal(column_sum(ls, 2) as nat),
        }
    } else if os == "linux"@ {
        let sockets = count_or_zero(last_colon_field(ls, "Socket(s)"@, count_limit()));
        let cores = count_or_zero(
            last_colon_field(ls, "Core(s) per socket"@, count_limit()),
        ).wrapping_mul(sockets);
        let threads = count_or_zero(
            last_colon_field(ls, "Thread(s) per core"@, count_limit()),
        ).wrapping_mul(cores);
        CpuInfoView {
            cpu_socket_count: decimal(sockets as nat),
            cpu_core_count: decimal(cores as nat),
            cpu_thread_count: decimal(threads as nat),
        }
    } else if os == "macos"@ {
        CpuInfoView {
            cpu_socket_count: decimal(1),
            cpu_core_count: decimal(
                count_or_zero(last_word_field(ls, "machdep.cpu.core_count:"@, count_limit()))
                    as nat,
            ),
            cpu_thread_count: decimal(
                count_or_zero(last_word_field(ls, "machdep.cpu.thread_count:"@, count_limit()))
                    as nat,
            ),
        }
    } else {
        CpuInfoView {
            cpu_socket_count: Seq::<char>::empty(),
            cpu_core_count: Seq::<char>::empty(),
            cpu_thread_count: Seq::<char>::empty(),
        }
    }
}

/// The text that shows the three counts, each as it was painted.
pub open spec fn cpu_text(sockets: Seq<char>, cores: Seq<char>, threads: Seq<char>) -> Seq<char> {
    "CPU Socket Count: "@ + sockets + "\nCPU Core Count: "@ + cores + "\nCPU Thread Count: "@
        + threads + "\n"@
}

fn sum_column(ls: &Vec<Vec<char>>, i: usize) -> (sum: usize)
    ensures
        sum == column_sum(rows(ls@), i as int),
{
    let ghost all = rows(ls@);
    let mut sum: usize = 0;
    let mut k: usize = 0;
    assert(all.take(0) =~= Seq::<Seq<char>>::empty());
    while k < ls.len()
        invariant
            k <= ls.len(),
            all == rows(ls@),
            sum == column_sum(all.take(k as int), i as int),
        decreases ls.len() - k,
    {
        proof {
            let t = all.take(k + 1);
            assert(t.drop_last() =~= all.take(k as int));
            assert(t.last() == ls@[k as int]@);
        }
        let w = words_chars(&ls[k]);
        let n: usize = if w.len() == 3 {
            read_number_at(&w, i, usize::MAX as u128) as usize
        } else {
            0
        };
        sum = sum.wrapping_add(n);
        k += 1;
    }
    assert(all.take(ls.len() as int) =~= all);
    sum
}

/// The three counts that `report` gives on the platform `os`.
pub fn get_cpu_info(os: &str, report: &str) -> (r: (String, String, String))
    ensures
        (CpuInfoView { cpu_socket_count: r.0@, cpu_core_count: r.1@, cpu_thread_count: r.2@ })
            == cpu_of(os@, report@),
{
    let text = to_chars(report);
    let ls = lines_chars(&text);
    let max: u128 = usize::MAX as u128;
    if same_str(os, "windows") {
        let core_count = sum_column(&ls, 1);
        let thread_count = sum_column(&ls, 2);
        (decimal_string(1), decimal_string(core_count as u128), decimal_string(thread_count as u128))
    } else if same_str(os, "linux") {
        let socket_key = to_chars("Socket(s)");
        let core_key = to_chars("Core(s) per socket");
        let thread_key = to_chars("Thread(s) per core");
        let socket_count: usize = match read_last_colon_field(&ls, &socket_key, max) {
            Some(n) => n as usize,
            None => 0,
        };
        let core: usize = match read_last_colon_field(&ls, &core_key, max) {
            Some(n) => n as usize,
            None => 0,
        };
        let thread: usize = match read_last_colon_field(&ls, &thread_key, max) {
            Some(n) => n as usize,
            None => 0,
        };
        let core_count = core.wrapping_mul(socket_count);
        let thread_count = thread.wrapping_mul(core_count);
        (
            decimal_string(socket_count as u128),
            decimal_string(core_count as u128),
            decimal_string(thread_count as u128),
        )
    } else if same_str(os, "macos") {
        let core_key = to_chars("machdep.cpu.core_count:");
        let thread_key = to_chars("machdep.cpu.thread_count:");
        let core_count: usize = match read_last_word_field(&ls, &core_key, max) {
            Some(n) => n as usize,
            None => 0,
        };
        let thread_count: usize = match read_last_word_field(&ls, &thread_key, max) {
            Some(n) => n as usize,
            None => 0,
        };
        (decimal_string(1), decimal_string(core_count as u128), decimal_string(thread_count as u128))
    } else {
        (String::new(), String::new(), String::new())
    }
}

/// The processor of the host.
#[derive(Debug, Clone)]
pub struct CpuInfo {
    cpu_socket_count: String,
    cpu_core_count: String,
    cpu_thread_count: String,
}

impl View for CpuInfo {
    type V = CpuInfoView;

    closed spec fn view(&self) -> CpuInfoView {
        CpuInfoView {
            cpu_socket_count: self.cpu_socket_count@,
            cpu_core_count: self.cpu_core_count@,
            cpu_thread_count: self.cpu_thread_count@,
        }
    }
}

/// The text that shows the three counts, each as it was painted.
pub fn cpu_display(sockets: &str, cores: &str, threads: &str) -> (out: String)
    ensures
        out@ == cpu_text(sockets@, cores@, threads@),
{
    let mut out = "CPU Socket Count: ".to_owned();
    out.append(sockets);
    out.append("\nCPU Core Count: ");
    out.append(cores);
    out.append("\nCPU Thread Count: ");
    out.append(threads);
    out.append("\n");
    out
}

impl CpuInfo {
    /// The processor that `report` describes on the platform `os`.
    pub fn new(os: &str, report: &str) -> (cpu: CpuInfo)
        ensures
            cpu@ == cpu_of(os@, report@),
    {
        let (cpu_socket_count, cpu_core_count, cpu_thread_count) = get_cpu_info(os, report);
        CpuInfo { cpu_socket_count, cpu_core_count, cpu_thread_count }
    }

    pub fn get_cpu_socket_count(&self) -> (r: &str)
        ensures
            r@ == self@.cpu_socket_count,
    {
        self.cpu_socket_count.as_str()
    }

    pub fn get_cpu_core_count(&self) -> (r: &str)
        ensures
            r@ == self@.cpu_core_count,
    {
        self.cpu_core_count.as_str()
    }

    pub fn get_cpu_thread_count(&self) -> (r: &str)
        ensures
            r@ == self@.cpu_thread_count,
    {
        self.cpu_thread_count.as_str()
    }

    /// The number of threads as a number, where it is one: the number of
    /// workers that a parallel run gets unless it is told otherwise.
    pub fn thread_count(&self) -> (r: Option<usize>)
        ensures
            match r {
                Some(n) => parse_uint(self@.cpu_thread_count, count_limit()) == Some(n as nat),
                None => parse_uint(self@.cpu_thread_count, count_limit()) is None,
            },
    {
        let v = to_chars(self.cpu_thread_count.as_str());
        match parse_uint_chars(&v, usize::MAX as u128) {
            Some(n) => Some(n as usize),
            None => None,
        }
    }

    /// The text that shows the processor: the three counts, painted green,
    /// laid out by [`cpu_display`].
    pub fn display(&self) -> (out: String)
        ensures
            exists|a: Seq<char>, b: Seq<char>, c: Seq<char>| out@ == #[trigger] cpu_text(a, b, c),
    {
        let a = green(self.cpu_socket_count.as_str());
        let b = green(self.cpu_core_count.as_str());
        let c = green(self.cpu_thread_count.as_str());
        cpu_display(a.as_str(), b.as_str(), c.as_str())
    }
}

} // verus!
