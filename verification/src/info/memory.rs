//! The memory, as `free --bytes` reports it.

use crate::common::api::{format_size, size_text};
use crate::common::paint::{blue, green, yellow};
use crate::common::parse::{last_row, number_at, read_last_row, read_number_at};
use crate::text::{
    decimal, decimal_string, lines, lines_chars, parse_uint, parse_uint_chars, rows, to_chars,
};
use vstd::prelude::*;
use vstd::string::*;

verus! {

/// The largest number of bytes that is read.
pub open spec fn byte_limit() -> nat {
    0xffff_ffff_ffff_ffff_ffff_ffff_ffff_ffff
}

/// The largest number of bytes that is shown.
pub open spec fn shown_limit() -> nat {
    0xffff_ffff_ffff_ffff
}

/// The number in column `i` of the row `key` of the report, and 0 where the
/// report has no such row, the row no such column, or the column no number.
pub open spec fn bytes_of(report: Seq<char>, key: Seq<char>, i: int) -> nat {
    match last_row(lines(report), key) {
        Some(ws) => number_at(ws, i, byte_limit()),
        None => 0,
    }
}

/// What a [`MemInfo`] holds: six numbers of bytes, written in decimal.
pub struct MemInfoView {
    pub memory_total: Seq<char>,
    pub memory_using: Seq<char>,
    pub memory_free: Seq<char>,
    pub swap_total: Seq<char>,
    pub swap_using: Seq<char>,
    pub swap_free: Seq<char>,
}

/// The memory that the report of `free --bytes` describes: total, used and
/// free are the first three numbers of the row `Mem:`, and of the row
/// `Swap:`.
pub open spec fn memory_of(report: Seq<char>) -> MemInfoView {
    MemInfoView {
        memory_total: decimal(bytes_of(report, "Mem:"@, 1)),
        memory_using: decimal(bytes_of(report, "Mem:"@, 2)),
        memory_free: decimal(bytes_of(report, "Mem:"@, 3)),
        swap_total: decimal(bytes_of(report, "Swap:"@, 1)),
        swap_using: decimal(bytes_of(report, "Swap:"@, 2)),
        swap_free: decimal(bytes_of(report, "Swap:"@, 3)),
    }
}

/// The size in words that the text `s` writes in bytes, where it writes one
/// that can be shown.
pub open spec fn shown_size(s: Seq<char>) -> Option<Seq<char>> {
    match parse_uint(s, shown_limit()) {
        Some(n) => Some(size_text(n)),
        None => None,
    }
}

/// The text that shows the memory, each of the six sizes as it was painted.
pub open spec fn memory_text(
    free: Seq<char>,
    using: Seq<char>,
    total: Seq<char>,
    swap_free: Seq<char>,
    swap_using: Seq<char>,
    swap_total: Seq<char>,
) -> Seq<char> {
    "Memory:\n  "@ + free + " free "@ + using + " using "@ + total + " total\n  swap "@
        + swap_free + " free "@ + swap_using + " using "@ + swap_total + " total"@
}

/// The memory of the host.
#[derive(Debug, Clone)]
pub struct MemInfo {
    memory_total: String,
    memory_using: String,
    memory_free: String,
    swap_total: String,
    swap_using: String,
    swap_free: String,
}

impl View for MemInfo {
    type V = MemInfoView;

    closed spec fn view(&self) -> MemInfoView {
        MemInfoView {
            memory_total: self.memory_total@,
            memory_using: self.memory_using@,
            memory_free: self.memory_free@,
            swap_total: self.swap_total@,
            swap_using: self.swap_using@,
            swap_free: self.swap_free@,
        }
    }
}

fn read_row(ls: &Vec<Vec<char>>, key: &str, Ghost(report): Ghost<Seq<char>>) -> (r: (
    String,
    String,
    String,
))
    requires
        rows(ls@) == lines(report),
    ensures
        r.0@ == decimal(bytes_of(report, key@, 1)),
        r.1@ == decimal(bytes_of(report, key@, 2)),
        r.2@ == decimal(bytes_of(report, key@, 3)),
{
    let k = to_chars(key);
    let max: u128 = 0xffff_ffff_ffff_ffff_ffff_ffff_ffff_ffff;
    match read_last_row(ls, &k) {
        Some(ws) => (
            decimal_string(read_number_at(&ws, 1, max)),
            decimal_string(read_number_at(&ws, 2, max)),
            decimal_string(read_number_at(&ws, 3, max)),
        ),
        None => (decimal_string(0), decimal_string(0), decimal_string(0)),
    }
}

/// The six numbers that the report of `free --bytes` gives: memory total,
/// used and free, then swap total, used and free.
pub fn get_memory_info(free_output: &str) -> (r: (String, String, String, String, String, String))
    ensures
        (MemInfoView {
            memory_total: r.0@,
            memory_using: r.1@,
            memory_free: r.2@,
            swap_total: r.3@,
            swap_using: r.4@,
            swap_free: r.5@,
        }) == memory_of(free_output@),
{
    let text = to_chars(free_output);
    let ls = lines_chars(&text);
    let (mem_total, mem_using, mem_free) = read_row(&ls, "Mem:", Ghost(free_output@));
    let (swap_total, swap_using, swap_free) = read_row(&ls, "Swap:", Ghost(free_output@));
    (mem_total, mem_using, mem_free, swap_total, swap_using, swap_free)
}

/// The size in words that the text `s` writes in bytes.
pub fn show_size(s: &str) -> (r: Option<String>)
    ensures
        r.deep_view() == shown_size(s@),
{
    let v = to_chars(s);
    match parse_uint_chars(&v, 0xffff_ffff_ffff_ffff) {
        Some(n) => Some(format_size(n as u64)),
        None => None,
    }
}

/// The text that shows the memory, each of the six sizes as it was painted.
pub fn memory_display(
    free: &str,
    using: &str,
    total: &str,
    swap_free: &str,
    swap_using: &str,
    swap_total: &str,
) -> (out: String)
    ensures
        out@ == memory_text(free@, using@, total@, swap_free@, swap_using@, swap_total@),
{
    let mut out = "Memory:\n  ".to_owned();
    out.append(free);
    out.append(" free ");
    out.append(using);
    out.append(" using ");
    out.append(total);
    out.append(" total\n  swap ");
    out.append(swap_free);
    out.append(" free ");
    out.append(swap_using);
    out.append(" using ");
    out.append(swap_total);
    out.append(" total");
    out
}

impl MemInfo {
    /// The memory that the report of `free --bytes` describes.
    pub fn new(free_output: &str) -> (mem: MemInfo)
        ensures
            mem@ == memory_of(free_output@),
    {
        let (memory_total, memory_using, memory_free, swap_total, swap_using, swap_free) =
            get_memory_info(free_output);
        MemInfo { memory_total, memory_using, memory_free, swap_total, swap_using, swap_free }
    }

    pub fn memory_total(&self) -> (r: &str)
        ensures
            r@ == self@.memory_total,
    {
        self.memory_total.as_str()
    }

    pub fn memory_using(&self) -> (r: &str)
        ensures
            r@ == self@.memory_using,
    {
        self.memory_using.as_str()
    }

    pub fn memory_free(&self) -> (r: &str)
        ensures
            r@ == self@.memory_free,
    {
        self.memory_free.as_str()
    }

    pub fn swap_total(&self) -> (r: &str)
        ensures
            r@ == self@.swap_total,
    {
        self.swap_total.as_str()
    }

    pub fn swap_using(&self) -> (r: &str)
        ensures
            r@ == self@.swap_using,
    {
        self.swap_using.as_str()
    }

    pub fn swap_free(&self) -> (r: &str)
        ensures
            r@ == self@.swap_free,
    {
        self.swap_free.as_str()
    }

    /// Every size of the memory can be shown: each is a number of bytes
    /// below 2^64.
    pub open spec fn can_be_shown(v: MemInfoView) -> bool {
        &&& shown_size(v.memory_free) is Some
        &&& shown_size(v.memory_using) is Some
        &&& shown_size(v.memory_total) is Some
        &&& shown_size(v.swap_free) is Some
        &&& shown_size(v.swap_using) is Some
        &&& shown_size(v.swap_total) is Some
    }

    /// The text that shows the memory, where every size can be shown: the
    /// six sizes in words, painted, laid out by [`memory_display`].
    pub fn display(&self) -> (r: Option<String>)
        ensures
            r is Some <==> Self::can_be_shown(self@),
            r matches Some(out) ==> exists|
                a: Seq<char>,
                b: Seq<char>,
                c: Seq<char>,
                d: Seq<char>,
                e: Seq<char>,
                f: Seq<char>,
            | out@ == #[trigger] memory_text(a, b, c, d, e, f),
    {
        let free = show_size(self.memory_free.as_str());
        let using = show_size(self.memory_using.as_str());
        let total = show_size(self.memory_total.as_str());
        let swap_free = show_size(self.swap_free.as_str());
        let swap_using = show_size(self.swap_using.as_str());
        let swap_total = show_size(self.swap_total.as_str());
        match (free, using, total, swap_free, swap_using, swap_total) {
            (Some(a), Some(b), Some(c), Some(d), Some(e), Some(f)) => {
                let a = green(a.as_str());
                let b = yellow(b.as_str());
                let c = blue(c.as_str());
                let d = green(d.as_str());
                let e = yellow(e.as_str());
                let f = blue(f.as_str());
                Some(
                    memory_display(
                        a.as_str(),
                        b.as_str(),
                        c.as_str(),
                        d.as_str(),
                        e.as_str(),
                        f.as_str(),
                    ),
                )
            },
            _ => None,
        }
    }
}

} // verus!
