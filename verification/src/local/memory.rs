//! The memory.
//!
//! On Windows the report is that of `wmic OS get
//! TotalVisibleMemorySize,FreePhysicalMemory,TotalVirtualMemorySize,FreeVirtualMemory`,
//! on Linux that of `free --mega`, on macOS that of `sysctl -n hw.memsize
//! vm.swapusage`.

use crate::common::paint::green;
use crate::common::parse::last_row;
use crate::common::parse::read_last_row;
use crate::text::{
    lines, lines_chars, parse_i32_chars, parse_int, rows, same_chars, same_str, signed_decimal,
    signed_decimal_string, to_chars, words, words_chars,
};
use vstd::prelude::*;
use vstd::string::*;

verus! {

/// What a [`MemInfo`] holds: four sizes in words, or four empty texts for a
/// platform that is not known.
pub struct MemInfoView {
    pub memory_total: Seq<char>,
    pub memory_using: Seq<char>,
    pub swap_total: Seq<char>,
    pub swap_using: Seq<char>,
}

/// The number that the word `i` of `ws` writes, and 0 where there is no
/// such word or it writes no number that fits in 32 bits with a sign.
pub open spec fn amount_at(ws: Seq<Seq<char>>, i: int) -> i32 {
    if 0 <= i < ws.len() {
        match parse_int(ws[i], 0x8000_0000, 0x7fff_ffff) {
            Some(n) => n as i32,
            None => 0,
        }
    } else {
        0
    }
}

/// The number in column `i` of the last line of `ls` that has two words or
/// more and `key` for its first, and 0 where there is none.
pub open spec fn amount_of(ls: Seq<Seq<char>>, key: Seq<char>, i: int) -> i32 {
    match last_row(ls, key) {
        Some(ws) => amount_at(ws, i),
        None => 0,
    }
}

/// The number after `key` in the last line of `ls` that is `key` and one
/// more word, and 0 where there is none.
pub open spec fn pair_amount(ls: Seq<Seq<char>>, key: Seq<char>) -> i32
    decreases ls.len(),
{
    if ls.len() == 0 {
        0
    } else {
        let w = words(ls.last());
        if w.len() == 2 && w[0] == key {
            amount_at(w, 1)
        } else {
            pair_amount(ls.drop_last(), key)
        }
    }
}

/// `n` divided by 1024, rounded towards zero.
pub open spec fn kilo(n: i32) -> int {
    if n >= 0 {
        n / 1024
    } else {
        -((-n) / 1024)
    }
}

/// A size of `n` megabytes in words.
pub open spec fn mbytes(n: int) -> Seq<char> {
    signed_decimal(n) + " MBytes"@
}

/// The memory that `report` describes on the platform `os`.
pub open spec fn memory_of(os: Seq<char>, report: Seq<char>) -> MemInfoView {
    let ls = lines(report);
    if os == "windows"@ {
        let mem_total = pair_amount(ls, "TotalVisibleMemorySize"@);
        let mem_free = pair_amount(ls, "FreePhysicalMemory"@);
        let swap_total = pair_amount(ls, "TotalVirtualMemorySize"@);
        let swap_free = pair_amount(ls, "FreeVirtualMemory"@);
        MemInfoView {
            memory_total: mbytes(kilo(mem_total)),
            memory_using: mbytes(kilo(mem_total.wrapping_sub(mem_free))),
            swap_total: mbytes(kilo(swap_total)),
            swap_using: mbytes(kilo(swap_total.wrapping_sub(swap_free))),
        }
    } else if os == "linux"@ {
        MemInfoView {
            memory_total: mbytes(amount_of(ls, "Mem:"@, 1) as int),
            memory_using: mbytes(amount_of(ls, "Mem:"@, 2) as int),
            swap_total: mbytes(amount_of(ls, "Swap:"@, 1) as int),
            swap_using: mbytes(amount_of(ls, "Swap:"@, 2) as int),
        }
    } else if os == "macos"@ {
        MemInfoView {
            memory_total: mbytes(amount_of(ls, "hw.memsize:"@, 1) as int),
            memory_using: mbytes(0),
            swap_total: mbytes(amount_of(ls, "vm.swapusage:"@, 1) as int),
            swap_using: mbytes(amount_of(ls, "vm.swapusage:"@, 2) as int),
        }
    } else {
        MemInfoView {
            memory_total: Seq::<char>::empty(),
            memory_using: Seq::<char>::empty(),
            swap_total: Seq::<char>::empty(),
            swap_using: Seq::<char>::empty(),
        }
    }
}

fn read_amount_at(ws: &Vec<Vec<char>>, i: usize) -> (n: i32)
    ensures
        n == amount_at(rows(ws@), i as int),
{
    if i < ws.len() {
        assert(rows(ws@)[i as int] == ws@[i as int]@);
        match parse_i32_chars(&ws[i]) {
            Some(n) => n,
            None => 0,
        }
    } else {
        0
    }
}

fn read_amount(ls: &Vec<Vec<char>>, key: &str, i: usize) -> (n: i32)
    ensures
        n == amount_of(rows(ls@), key@, i as int),
{
    let k = to_chars(key);
    match read_last_row(ls, &k) {
        Some(ws) => read_amount_at(&ws, i),
        None => 0,
    }
}

fn read_pair_amount(ls: &Vec<Vec<char>>, key: &str) -> (n: i32)
    ensures
        n == pair_amount(rows(ls@), key@),
{
    let k = to_chars(key);
    let ghost all = rows(ls@);
    let mut found: i32 = 0;
    let mut i: usize = 0;
    assert(all.take(0) =~= Seq::<Seq<char>>::empty());
    while i < ls.len()
        invariant
            i <= ls.len(),
            all == rows(ls@),
            k@ == key@,
            found == pair_amount(all.take(i as int), key@),
        decreases ls.len() - i,
    {
        proof {
            let t = all.take(i + 1);
            assert(t.drop_last() =~= all.take(i as int));
            assert(t.last() == ls@[i as int]@);
        }
        let w = words_chars(&ls[i]);
        if w.len() == 2 {
            assert(rows(w@)[0] == w@[0]@);
            if same_chars(&w[0], &k) {
                found = read_amount_at(&w, 1);
            }
        }
        i += 1;
    }
    assert(all.take(ls.len() as int) =~= all);
    found
}

fn divide_kilo(n: i32) -> (r: i64)
    ensures
        r == kilo(n),
{
    if n >= 0 {
        (n as i64) / 1024
    } else {
        let m: i64 = 0 - (n as i64);
        0 - (m / 1024)
    }
}

fn show_mbytes(n: i64) -> (out: String)
    ensures
        out@ == mbytes(n as int),
{
    let mut out = signed_decimal_string(n);
    out.append(" MBytes");
    out
}

/// The four sizes that `report` gives on the platform `os`: memory total
/// and used, then swap total and used.
pub fn get_memory_info(os: &str, report: &str) -> (r: (String, String, String, String))
    ensures
        (MemInfoView { memory_total: r.0@, memory_using: r.1@, swap_total: r.2@, swap_using: r.3@ })
            == memory_of(os@, report@),
{
    let text = to_chars(report);
    let ls = lines_chars(&text);
    if same_str(os, "windows") {
        let mem_total = read_pair_amount(&ls, "TotalVisibleMemorySize");
        let mem_free = read_pair_amount(&ls, "FreePhysicalMemory");
        let swap_total = read_pair_amount(&ls, "TotalVirtualMemorySize");
        let swap_free = read_pair_amount(&ls, "FreeVirtualMemory");
        let mem_using = mem_total.wrapping_sub(mem_free);
        let swap_using = swap_total.wrapping_sub(swap_free);
        (
            show_mbytes(divide_kilo(mem_total)),
            show_mbytes(divide_kilo(mem_using)),
            show_mbytes(divide_kilo(swap_total)),
            show_mbytes(divide_kilo(swap_using)),
        )
    } else if same_str(os, "linux") {
        (
            show_mbytes(read_amount(&ls, "Mem:", 1) as i64),
            show_mbytes(read_amount(&ls, "Mem:", 2) as i64),
            show_mbytes(read_amount(&ls, "Swap:", 1) as i64),
            show_mbytes(read_amount(&ls, "Swap:", 2) as i64),
        )
    } else if same_str(os, "macos") {
        (
            show_mbytes(read_amount(&ls, "hw.memsize:", 1) as i64),
            show_mbytes(0),
            show_mbytes(read_amount(&ls, "vm.swapusage:", 1) as i64),
            show_mbytes(read_amount(&ls, "vm.swapusage:", 2) as i64),
        )
    } else {
        (String::new(), String::new(), String::new(), String::new())
    }
}

/// The text that shows the four sizes, each as it was painted.
pub open spec fn memory_text(
    total: Seq<char>,
    using: Seq<char>,
    swap_total: Seq<char>,
    swap_using: Seq<char>,
) -> Seq<char> {
    "Memory Total: "@ + total + "\nMemory Using: "@ + using + "\nSwap Total: "@ + swap_total
        + "\nSwap Using: "@ + swap_using + "\n"@
}

/// The text that shows the four sizes, each as it was painted.
pub fn memory_display(total: &str, using: &str, swap_total: &str, swap_using: &str) -> (out: String)
    ensures
        out@ == memory_text(total@, using@, swap_total@, swap_using@),
{
    let mut out = "Memory Total: ".to_owned();
    out.append(total);
    out.append("\nMemory Using: ");
    out.append(using);
    out.append("\nSwap Total: ");
    out.append(swap_total);
    out.append("\nSwap Using: ");
    out.append(swap_using);
    out.append("\n");
    out
}

/// The memory of the host.
#[derive(Debug, Clone)]
pub struct MemInfo {
    memory_total: String,
    memory_using: String,
    swap_total: String,
    swap_using: String,
}

impl View for MemInfo {
    type V = MemInfoView;

    closed spec fn view(&self) -> MemInfoView {
        MemInfoView {
            memory_total: self.memory_total@,
            memory_using: self.memory_using@,
            swap_total: self.swap_total@,
            swap_using: self.swap_using@,
        }
    }
}

impl MemInfo {
    /// The memory that `report` describes on the platform `os`.
    pub fn new(os: &str, report: &str) -> (mem: MemInfo)
        ensures
            mem@ == memory_of(os@, report@),
    {
        let (memory_total, memory_using, swap_total, swap_using) = get_memory_info(os, report);
        MemInfo { memory_total, memory_using, swap_total, swap_using }
    }

    pub fn get_memory_total(&self) -> (r: &str)
        ensures
            r@ == self@.memory_total,
    {
        self.memory_total.as_str()
    }

    pub fn get_memory_using(&self) -> (r: &str)
        ensures
            r@ == self@.memory_using,
    {
        self.memory_using.as_str()
    }

    pub fn get_swap_total(&self) -> (r: &str)
        ensures
            r@ == self@.swap_total,
    {
        self.swap_total.as_str()
    }

    pub fn get_swap_using(&self) -> (r: &str)
        ensures
            r@ == self@.swap_using,
    {
        self.swap_using.as_str()
    }

    /// The text that shows the memory: the four sizes, painted green, laid
    /// out by [`memory_display`].
    pub fn display(&self) -> (out: String)
        ensures
            exists|a: Seq<char>, b: Seq<char>, c: Seq<char>, d: Seq<char>|
                out@ == #[trigger] memory_text(a, b, c, d),
    {
        let a = green(self.memory_total.as_str());
        let b = green(self.memory_using.as_str());
        let c = green(self.swap_total.as_str());
        let d = green(self.swap_using.as_str());
        memory_display(a.as_str(), b.as_str(), c.as_str(), d.as_str())
    }
}

} // verus!
