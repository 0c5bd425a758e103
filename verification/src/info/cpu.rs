//! The processor, as `lscpu` reports it.

use crate::common::paint::green;
use crate::common::parse::{last_colon_field, read_last_colon_field};
use crate::text::{decimal, decimal_string, lines, lines_chars, to_chars};
use vstd::prelude::*;
use vstd::string::*;

verus! {

/// The largest count that is kept.
pub open spec fn count_limit() -> nat {
    0xffff_ffff
}

/// The number that the report gives for `key`, and 0 where it gives none.
pub open spec fn count_of(report: Seq<char>, key: Seq<char>) -> nat {
    match last_colon_field(lines(report), key, count_limit()) {
        Some(n) => n,
        None => 0,
    }
}

/// The product of two counts as it is kept, in 32 bits.
pub open spec fn count_product(a: nat, b: nat) -> nat {
    (a * b) % 0x1_0000_0000
}

/// What a [`CpuInfo`] holds: three counts, written in decimal.
pub struct CpuInfoView {
    pub cpu_socket_count: Seq<char>,
    pub cpu_core_count: Seq<char>,
    pub cpu_thread_count: Seq<char>,
}

/// The counts that the report of `lscpu` gives: the sockets; the cores,
/// which are the sockets times the cores per socket; the threads, which are
/// the cores times the threads per core.
pub open spec fn cpu_of(report: Seq<char>) -> CpuInfoView {
    let sockets = count_of(report, "Socket(s)"@);
    let cores = count_product(sockets, count_of(report, "Core(s) per socket"@));
    let threads = count_product(cores, count_of(report, "Thread(s) per core"@));
    CpuInfoView {
        cpu_socket_count: decimal(sockets),
        cpu_core_count: decimal(cores),
        cpu_thread_count: decimal(threads),
    }
}

/// The text that shows the three counts, each as it was painted.
pub open spec fn cpu_text(sockets: Seq<char>, cores: Seq<char>, threads: Seq<char>) -> Seq<char> {
    "CPU:\n  Socket(s): "@ + sockets + "\n  Core(s): "@ + cores + "\n  Thread(s): "@ + threads
}

/// The processor of the host.
#[derive(Debug, Clone)]
pub struct CpuInfo {
    cpu_socket_count: String,
    cpu_core_count: String,
    cpu_thread_count: String,
}

impl View for CpuInfo {
    type V = CpuInfoView;

    closed spec fn view(&self) -> CpuInfoView {
        CpuInfoView {
            cpu_socket_count: self.cpu_socket_count@,
            cpu_core_count: self.cpu_core_count@,
            cpu_thread_count: self.cpu_thread_count@,
        }
    }
}

fn read_count(ls: &Vec<Vec<char>>, key: &str, Ghost(report): Ghost<Seq<char>>) -> (n: u32)
    requires
        crate::text::rows(ls@) == lines(report),
    ensures
        n == count_of(report, key@),
{
    let k = to_chars(key);
    match read_last_colon_field(ls, &k, 0xffff_ffff) {
        Some(n) => n as u32,
        None => 0,
    }
}

fn multiply(a: u32, b: u32) -> (r: u32)
    ensures
        r == count_product(a as nat, b as nat),
{
    assert(a as u64 * b as u64 <= 0xffff_ffff * 0xffff_ffff) by (nonlinear_arith)
        requires
            a <= 0xffff_ffff,
            b <= 0xffff_ffff,
    ;
    ((a as u64 * b as u64) % 0x1_0000_0000) as u32
}

/// The three counts that the report of `lscpu` gives.
pub fn get_cpu_info(lscpu_output: &str) -> (r: (String, String, String))
    ensures
        r.0@ == cpu_of(lscpu_output@).cpu_socket_count,
        r.1@ == cpu_of(lscpu_output@).cpu_core_count,
        r.2@ == cpu_of(lscpu_output@).cpu_thread_count,
{
    let text = to_chars(lscpu_output);
    let ls = lines_chars(&text);
    let sockets = read_count(&ls, "Socket(s)", Ghost(lscpu_output@));
    let core = read_count(&ls, "Core(s) per socket", Ghost(lscpu_output@));
    let thread = read_count(&ls, "Thread(s) per core", Ghost(lscpu_output@));
    let cores = multiply(sockets, core);
    let threads = multiply(cores, thread);
    (decimal_string(sockets as u128), decimal_string(cores as u128), decimal_string(threads as u128))
}

/// The text that shows the three counts, each as it was painted.
pub fn cpu_display(sockets: &str, cores: &str, threads: &str) -> (out: String)
    ensures
        out@ == cpu_text(sockets@, cores@, threads@),
{
    let mut out = "CPU:\n  Socket(s): ".to_owned();
    out.append(sockets);
    out.append("\n  Core(s): ");
    out.append(cores);
    out.append("\n  Thread(s): ");
    out.append(threads);
    out
}

impl CpuInfo {
    /// The processor that the report of `lscpu` describes.
    pub fn new(lscpu_output: &str) -> (cpu: CpuInfo)
        ensures
            cpu@ == cpu_of(lscpu_output@),
    {
        let (cpu_socket_count, cpu_core_count, cpu_thread_count) = get_cpu_info(lscpu_output);
        CpuInfo { cpu_socket_count, cpu_core_count, cpu_thread_count }
    }

    pub fn cpu_socket_count(&self) -> (r: &str)
        ensures
            r@ == self@.cpu_socket_count,
    {
        self.cpu_socket_count.as_str()
    }

    pub fn cpu_core_count(&self) -> (r: &str)
        ensures
            r@ == self@.cpu_core_count,
    {
        self.cpu_core_count.as_str()
    }

    pub fn cpu_thread_count(&self) -> (r: &str)
        ensures
            r@ == self@.cpu_thread_count,
    {
        self.cpu_thread_count.as_str()
    }

    /// The text that shows the processor: the three counts, painted green,
    /// laid out by [`cpu_display`].
    pub fn display(&self) -> (out: String)
        ensures
            exists|a: Seq<char>, b: Seq<char>, c: Seq<char>| out@ == #[trigger] cpu_text(a, b, c),
    {
        let a = green(self.cpu_socket_count.as_str());
        let b = green(self.cpu_core_count.as_str());
        let c = green(self.cpu_thread_count.as_str());
        cpu_display(a.as_str(), b.as_str(), c.as_str())
    }
}

} // verus!
