//! The disks and the partitions.
//!
//! On Windows both come of the report of `wmic logicaldisk get
//! size,freespace,caption`; on Linux and macOS the disks come of the report
//! of `lsblk -d -o NAME,SIZE` and the partitions of the report of `df -H`.

use crate::common::paint::green;
use crate::common::parse::{after, number_at, read_number_at};
use crate::text::{
    decimal, decimal_string, from_chars, lines, lines_chars, rows, same_str, strs, to_chars,
    words, words_chars,
};
use vstd::prelude::*;
use vstd::string::*;

verus! {

/// What a [`DiskInfo`] holds: a line for every disk and a line for every
/// partition.
pub struct DiskInfoView {
    pub disk_size_info: Seq<Seq<char>>,
    pub part_size_info: Seq<Seq<char>>,
}

/// The largest number of bytes that is read.
pub open spec fn byte_limit() -> nat {
    0xffff_ffff_ffff_ffff
}

/// The number of whole megabytes in the number of bytes that the word `i`
/// of `w` writes.
pub open spec fn megabytes_at(w: Seq<Seq<char>>, i: int) -> nat {
    number_at(w, i, byte_limit()) / 1024 / 1024
}

/// The line of the disk that a line of the report of `wmic` describes: the
/// line is three words, the caption, the free bytes and the size in bytes.
pub open spec fn windows_disk(line: Seq<char>) -> Option<Seq<char>> {
    let w = words(line);
    if w.len() == 3 {
        Some("Block "@ + w[0] + ": "@ + decimal(megabytes_at(w, 2)) + " MBytes"@)
    } else {
        None
    }
}

/// The line of the partition that a line of the report of `wmic`
/// describes.
pub open spec fn windows_partition(line: Seq<char>) -> Option<Seq<char>> {
    let w = words(line);
    if w.len() == 3 {
        Some(
            w[0] + ": "@ + decimal(megabytes_at(w, 1)) + " MBytes free, "@ + decimal(
                megabytes_at(w, 2),
            ) + " MBytes total"@,
        )
    } else {
        None
    }
}

/// The line of the disk that a line of the report of `lsblk` describes:
/// the line is two words, the name and the size.
pub open spec fn unix_disk(line: Seq<char>) -> Option<Seq<char>> {
    let w = words(line);
    if w.len() == 2 {
        Some("Block "@ + w[0] + ": "@ + w[1])
    } else {
        None
    }
}

/// The line of the partition that a line of the report of `df` describes:
/// the line has six words or more; the second is the size, the third what
/// is used, the fourth what is available, the sixth where it is mounted.
pub open spec fn unix_partition(line: Seq<char>) -> Option<Seq<char>> {
    let w = words(line);
    if w.len() >= 6 {
        Some(w[5] + ": "@ + w[2] + " used, "@ + w[3] + " available, "@ + w[1] + " total"@)
    } else {
        None
    }
}

/// What the lines of `ls` after the heading come to under `pick`.
pub open spec fn picked(ls: Seq<Seq<char>>, pick: spec_fn(Seq<char>) -> Option<Seq<char>>) -> Seq<
    Seq<char>,
> {
    after(ls, 1).filter_map(pick)
}

/// The disks and the partitions that the reports describe on the platform
/// `os`. On Windows `disks` is the one report there is, and `partitions`
/// is not looked at.
pub open spec fn disk_of(os: Seq<char>, disks: Seq<char>, partitions: Seq<char>) -> DiskInfoView {
    if os == "windows"@ {
        DiskInfoView {
            disk_size_info: picked(lines(disks), |l: Seq<char>| windows_disk(l)),
            part_size_info: picked(lines(disks), |l: Seq<char>| windows_partition(l)),
        }
    } else if os == "linux"@ || os == "macos"@ {
        DiskInfoView {
            disk_size_info: picked(lines(disks), |l: Seq<char>| unix_disk(l)),
            part_size_info: picked(lines(partitions), |l: Seq<char>| unix_partition(l)),
        }
    } else {
        DiskInfoView {
            disk_size_info: Seq::<Seq<char>>::empty(),
            part_size_info: Seq::<Seq<char>>::empty(),
        }
    }
}

/// Which kind of line is read.
#[derive(Clone, Copy, PartialEq, Eq, Structural)]
enum Kind {
    WindowsDisk,
    WindowsPartition,
    UnixDisk,
    UnixPartition,
}

impl Kind {
    spec fn pick(self) -> spec_fn(Seq<char>) -> Option<Seq<char>> {
        match self {
            Kind::WindowsDisk => |l: Seq<char>| windows_disk(l),
            Kind::WindowsPartition => |l: Seq<char>| windows_partition(l),
            Kind::UnixDisk => |l: Seq<char>| unix_disk(l),
            Kind::UnixPartition => |l: Seq<char>| unix_partition(l),
        }
    }
}

fn read_line(line: &Vec<char>, kind: Kind) -> (r: Option<String>)
    ensures
        r.deep_view() == (kind.pick())(line@),
{
    let w = words_chars(line);
    proof {
        if w.len() >= 1 {
            assert(rows(w@)[0] == w@[0]@);
        }
        if w.len() >= 2 {
            assert(rows(w@)[1] == w@[1]@);
        }
        if w.len() >= 3 {
            assert(rows(w@)[2] == w@[2]@);
        }
        if w.len() >= 6 {
            assert(rows(w@)[3] == w@[3]@);
            assert(rows(w@)[5] == w@[5]@);
        }
    }
    let max: u128 = 0xffff_ffff_ffff_ffff;
    match kind {
        Kind::WindowsDisk => {
            if w.len() == 3 {
                let size = read_number_at(&w, 2, max);
                let mut out = "Block ".to_owned();
                let caption = from_chars(&w[0]);
                out.append(caption.as_str());
                out.append(": ");
                let s = decimal_string(size / 1024 / 1024);
                out.append(s.as_str());
                out.append(" MBytes");
                Some(out)
            } else {
                None
            }
        },
        Kind::WindowsPartition => {
            if w.len() == 3 {
                let freespace = read_number_at(&w, 1, max);
                let size = read_number_at(&w, 2, max);
                let mut out = from_chars(&w[0]);
                out.append(": ");
                let f = decimal_string(freespace / 1024 / 1024);
                out.append(f.as_str());
                out.append(" MBytes free, ");
                let s = decimal_string(size / 1024 / 1024);
                out.append(s.as_str());
                out.append(" MBytes total");
                Some(out)
            } else {
                None
            }
        },
        Kind::UnixDisk => {
            if w.len() == 2 {
                let mut out = "Block ".to_owned();
                let name = from_chars(&w[0]);
                out.append(name.as_str());
                out.append(": ");
                let size = from_chars(&w[1]);
                out.append(size.as_str());
                Some(out)
            } else {
                None
            }
        },
        Kind::UnixPartition => {
            if w.len() >= 6 {
                let mut out = from_chars(&w[5]);
                out.append(": ");
                let used = from_chars(&w[2]);
                out.append(used.as_str());
                out.append(" used, ");
                let available = from_chars(&w[3]);
                out.append(available.as_str());
                out.append(" available, ");
                let size = from_chars(&w[1]);
                out.append(size.as_str());
                out.append(" total");
                Some(out)
            } else {
                None
            }
        },
    }
}

fn read_lines(report: &str, kind: Kind) -> (out: Vec<String>)
    ensures
        strs(out@) == picked(lines(report@), kind.pick()),
{
    let mut out: Vec<String> = Vec::new();
    let text = to_chars(report);
    let ls = lines_chars(&text);
    if ls.len() >= 1 {
        let ghost body = rows(ls@).skip(1);
        let ghost pick = kind.pick();
        let mut i: usize = 1;
        assert(strs(out@) =~= body.take(0).filter_map(pick));
        while i < ls.len()
            invariant
                1 <= i <= ls.len(),
                body == rows(ls@).skip(1),
                pick == kind.pick(),
                strs(out@) == body.take(i - 1).filter_map(pick),
            decreases ls.len() - i,
        {
            proof {
                let t = body.take(i as int);
                assert(t.drop_last() =~= body.take(i - 1));
                assert(t.last() == ls@[i as int]@);
            }
            match read_line(&ls[i], kind) {
                Some(text) => {
                    let ghost before = strs(out@);
                    out.push(text);
                    assert(strs(out@) =~= before + seq![text@]);
                },
                None => {},
            }
            i += 1;
        }
        assert(body.take(ls.len() - 1) =~= body);
    } else {
        assert(strs(out@) =~= picked(lines(report@), kind.pick()));
    }
    out
}

/// The lines of the disks and of the partitions that the reports describe
/// on the platform `os`.
pub fn get_disk_info(os: &str, disks: &str, partitions: &str) -> (r: (Vec<String>, Vec<String>))
    ensures
        (DiskInfoView { disk_size_info: strs(r.0@), part_size_info: strs(r.1@) }) == disk_of(
            os@,
            disks@,
            partitions@,
        ),
{
    if same_str(os, "windows") {
        (read_lines(disks, Kind::WindowsDisk), read_lines(disks, Kind::WindowsPartition))
    } else if same_str(os, "linux") || same_str(os, "macos") {
        (read_lines(disks, Kind::UnixDisk), read_lines(partitions, Kind::UnixPartition))
    } else {
        let a: Vec<String> = Vec::new();
        let b: Vec<String> = Vec::new();
        assert(strs(a@) =~= Seq::<Seq<char>>::empty());
        assert(strs(b@) =~= Seq::<Seq<char>>::empty());
        (a, b)
    }
}

/// The text that shows the disks and the partitions, every line as it was
/// painted.
pub open spec fn disk_text(disks: Seq<Seq<char>>, partitions: Seq<Seq<char>>) -> Seq<char> {
    "Disk Size Info:\n"@ + indented(disks) + "Part Size Info:\n"@ + indented(partitions)
}

/// The lines of `ls`, each after two spaces and before a line feed.
pub open spec fn indented(ls: Seq<Seq<char>>) -> Seq<char>
    decreases ls.len(),
{
    if ls.len() == 0 {
        Seq::<char>::empty()
    } else {
        indented(ls.drop_last()) + "  "@ + ls.last() + "\n"@
    }
}

fn append_indented(out: &mut String, ls: &Vec<String>)
    ensures
        final(out)@ == old(out)@ + indented(strs(ls@)),
{
    let ghost all = strs(ls@);
    let mut i: usize = 0;
    assert(all.take(0) =~= Seq::<Seq<char>>::empty());
    assert(out@ =~= old(out)@ + indented(all.take(0)));
    while i < ls.len()
        invariant
            i <= ls.len(),
            all == strs(ls@),
            out@ == old(out)@ + indented(all.take(i as int)),
        decreases ls.len() - i,
    {
        proof {
            let t = all.take(i + 1);
            assert(t.drop_last() =~= all.take(i as int));
            assert(t.last() == ls@[i as int]@);
        }
        out.append("  ");
        out.append(ls[i].as_str());
        out.append("\n");
        assert(out@ =~= old(out)@ + indented(all.take(i + 1)));
        i += 1;
    }
    assert(all.take(ls.len() as int) =~= all);
}

/// The text that shows the disks and the partitions, every line as it was
/// painted.
pub fn disk_display(disks: &Vec<String>, partitions: &Vec<String>) -> (out: String)
    ensures
        out@ == disk_text(strs(disks@), strs(partitions@)),
{
    let mut out = "Disk Size Info:\n".to_owned();
    append_indented(&mut out, disks);
    out.append("Part Size Info:\n");
    append_indented(&mut out, partitions);
    assert(out@ =~= disk_text(strs(disks@), strs(partitions@)));
    out
}

/// The disks and the partitions of the host.
#[derive(Debug, Clone)]
pub struct DiskInfo {
    disk_size_info: Vec<String>,
    part_size_info: Vec<String>,
}

impl View for DiskInfo {
    type V = DiskInfoView;

    closed spec fn view(&self) -> DiskInfoView {
        DiskInfoView {
            disk_size_info: strs(self.disk_size_info@),
            part_size_info: strs(self.part_size_info@),
        }
    }
}

fn paint_all(ls: &Vec<String>) -> (out: Vec<String>)
    ensures
        out.len() == ls.len(),
{
    let mut out: Vec<String> = Vec::new();
    let mut i: usize = 0;
    while i < ls.len()
        invariant
            i <= ls.len(),
            out.len() == i,
        decreases ls.len() - i,
    {
        out.push(green(ls[i].as_str()));
        i += 1;
    }
    out
}

impl DiskInfo {
    /// The disks and the partitions that the reports describe on the
    /// platform `os`.
    pub fn new(os: &str, disks: &str, partitions: &str) -> (disk: DiskInfo)
        ensures
            disk@ == disk_of(os@, disks@, partitions@),
    {
        let (disk_size_info, part_size_info) = get_disk_info(os, disks, partitions);
        DiskInfo { disk_size_info, part_size_info }
    }

    pub fn get_disk_size_info(&self) -> (r: &Vec<String>)
        ensures
            strs(r@) == self@.disk_size_info,
    {
        &self.disk_size_info
    }

    pub fn get_part_size_info(&self) -> (r: &Vec<String>)
        ensures
            strs(r@) == self@.part_size_info,
    {
        &self.part_size_info
    }

    /// The text that shows the disks and the partitions: every line
    /// painted green, laid out by [`disk_display`].
    pub fn display(&self) -> (out: String)
        ensures
            exists|a: Seq<Seq<char>>, b: Seq<Seq<char>>|
                out@ == #[trigger] disk_text(a, b) && a.len() == self@.disk_size_info.len()
                    && b.len() == self@.part_size_info.len(),
    {
        let a = paint_all(&self.disk_size_info);
        let b = paint_all(&self.part_size_info);
        let out = disk_display(&a, &b);
        assert(out@ == disk_text(strs(a@), strs(b@)));
        out
    }
}

} // verus!
