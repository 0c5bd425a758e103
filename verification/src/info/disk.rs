//! The disks, as `lsblk` reports them, and the partitions, as `df` does.

use crate::common::paint::{blue, green, yellow};
use crate::common::parse::after;
use crate::text::{
    from_chars, join, join_chars, lines, lines_chars, pad_left, pad_left_str, pad_right,
    pad_right_str, rows, same_str, strs, to_chars, words, words_chars,
};
use vstd::prelude::*;
use vstd::string::*;

verus! {

/// A disk.
#[derive(Debug, Clone)]
pub struct BlockDevice {
    pub name: String,
    pub total: String,
    pub kind: String,
    pub model: String,
}

/// A mounted partition.
#[derive(Debug, Clone)]
pub struct Partition {
    pub partition: String,
    pub free: String,
    pub total: String,
    pub use_percent: String,
}

/// What a [`BlockDevice`] holds.
pub struct BlockDeviceView {
    pub name: Seq<char>,
    pub total: Seq<char>,
    pub kind: Seq<char>,
    pub model: Seq<char>,
}

/// What a [`Partition`] holds.
pub struct PartitionView {
    pub partition: Seq<char>,
    pub free: Seq<char>,
    pub total: Seq<char>,
    pub use_percent: Seq<char>,
}

impl View for BlockDevice {
    type V = BlockDeviceView;

    open spec fn view(&self) -> BlockDeviceView {
        BlockDeviceView {
            name: self.name@,
            total: self.total@,
            kind: self.kind@,
            model: self.model@,
        }
    }
}

impl View for Partition {
    type V = PartitionView;

    open spec fn view(&self) -> PartitionView {
        PartitionView {
            partition: self.partition@,
            free: self.free@,
            total: self.total@,
            use_percent: self.use_percent@,
        }
    }
}

impl BlockDeviceView {
    /// The value that the disk has under `key`: one of `name`, `total`,
    /// `type` and `model`.
    pub open spec fn field(self, key: Seq<char>) -> Option<Seq<char>> {
        if key == "name"@ {
            Some(self.name)
        } else if key == "total"@ {
            Some(self.total)
        } else if key == "type"@ {
            Some(self.kind)
        } else if key == "model"@ {
            Some(self.model)
        } else {
            None
        }
    }
}

impl PartitionView {
    /// The value that the partition has under `key`: one of `partition`,
    /// `free`, `total` and `use%`.
    pub open spec fn field(self, key: Seq<char>) -> Option<Seq<char>> {
        if key == "partition"@ {
            Some(self.partition)
        } else if key == "free"@ {
            Some(self.free)
        } else if key == "total"@ {
            Some(self.total)
        } else if key == "use%"@ {
            Some(self.use_percent)
        } else {
            None
        }
    }
}

impl BlockDevice {
    /// The value that the disk has under `key`.
    pub fn get(&self, key: &str) -> (r: Option<&String>)
        ensures
            r.deep_view() == self@.field(key@),
    {
        if same_str(key, "name") {
            Some(&self.name)
        } else if same_str(key, "total") {
            Some(&self.total)
        } else if same_str(key, "type") {
            Some(&self.kind)
        } else if same_str(key, "model") {
            Some(&self.model)
        } else {
            None
        }
    }
}

impl Partition {
    /// The value that the partition has under `key`.
    pub fn get(&self, key: &str) -> (r: Option<&String>)
        ensures
            r.deep_view() == self@.field(key@),
    {
        if same_str(key, "partition") {
            Some(&self.partition)
        } else if same_str(key, "free") {
            Some(&self.free)
        } else if same_str(key, "total") {
            Some(&self.total)
        } else if same_str(key, "use%") {
            Some(&self.use_percent)
        } else {
            None
        }
    }
}

/// The disks that a vector holds.
pub open spec fn device_views(v: Seq<BlockDevice>) -> Seq<BlockDeviceView> {
    v.map_values(|d: BlockDevice| d@)
}

/// The partitions that a vector holds.
pub open spec fn partition_views(v: Seq<Partition>) -> Seq<PartitionView> {
    v.map_values(|p: Partition| p@)
}

/// The disk that a line of `lsblk -d -o NAME,SIZE,TYPE,MODEL` describes:
/// the line has four words or more, the model being the fourth and all
/// that follow it.
pub open spec fn device_in_line(line: Seq<char>) -> Option<BlockDeviceView> {
    let w = words(line);
    if w.len() >= 4 {
        Some(BlockDeviceView { name: w[0], total: w[1], kind: w[2], model: join(w.skip(3), " "@) })
    } else {
        None
    }
}

/// The partition that a line of `df` describes: the line has six words or
/// more; the sixth is where the partition is mounted, the second its size,
/// the fourth what is free, the fifth the share in use.
pub open spec fn partition_in_line(line: Seq<char>) -> Option<PartitionView> {
    let w = words(line);
    if w.len() >= 6 {
        Some(PartitionView { partition: w[5], free: w[3], total: w[1], use_percent: w[4] })
    } else {
        None
    }
}

/// The disks of the report of `lsblk`, whose first line is a heading.
pub open spec fn devices_of(report: Seq<char>) -> Seq<BlockDeviceView> {
    after(lines(report), 1).filter_map(|l: Seq<char>| device_in_line(l))
}

/// The partitions of the report of `df`, whose first line is a heading.
pub open spec fn partitions_of(report: Seq<char>) -> Seq<PartitionView> {
    after(lines(report), 1).filter_map(|l: Seq<char>| partition_in_line(l))
}

fn read_device(line: &Vec<char>) -> (r: Option<BlockDevice>)
    ensures
        match r {
            Some(d) => device_in_line(line@) == Some(d@),
            None => device_in_line(line@) is None,
        },
{
    let w = words_chars(line);
    if w.len() >= 4 {
        proof {
            assert(rows(w@)[0] == w@[0]@);
            assert(rows(w@)[1] == w@[1]@);
            assert(rows(w@)[2] == w@[2]@);
        }
        let space = to_chars(" ");
        let model = join_chars(&w, 3, &space);
        Some(
            BlockDevice {
                name: from_chars(&w[0]),
                total: from_chars(&w[1]),
                kind: from_chars(&w[2]),
                model: from_chars(&model),
            },
        )
    } else {
        None
    }
}

fn read_partition(line: &Vec<char>) -> (r: Option<Partition>)
    ensures
        match r {
            Some(p) => partition_in_line(line@) == Some(p@),
            None => partition_in_line(line@) is None,
        },
{
    let w = words_chars(line);
    if w.len() >= 6 {
        proof {
            assert(rows(w@)[5] == w@[5]@);
            assert(rows(w@)[3] == w@[3]@);
            assert(rows(w@)[1] == w@[1]@);
            assert(rows(w@)[4] == w@[4]@);
        }
        Some(
            Partition {
                partition: from_chars(&w[5]),
                free: from_chars(&w[3]),
                total: from_chars(&w[1]),
                use_percent: from_chars(&w[4]),
            },
        )
    } else {
        None
    }
}

/// The disks of the report of `lsblk` and the partitions of the report of
/// `df`.
pub fn get_disk_info(lsblk_output: &str, df_output: &str) -> (r: (Vec<BlockDevice>, Vec<Partition>))
    ensures
        device_views(r.0@) == devices_of(lsblk_output@),
        partition_views(r.1@) == partitions_of(df_output@),
{
    let mut devices: Vec<BlockDevice> = Vec::new();
    let text = to_chars(lsblk_output);
    let ls = lines_chars(&text);
    if ls.len() >= 1 {
        let ghost body = rows(ls@).skip(1);
        let ghost pick = |l: Seq<char>| device_in_line(l);
        let mut i: usize = 1;
        assert(device_views(devices@) =~= body.take(0).filter_map(pick));
        while i < ls.len()
            invariant
                1 <= i <= ls.len(),
                body == rows(ls@).skip(1),
                pick == (|l: Seq<char>| device_in_line(l)),
                device_views(devices@) == body.take(i - 1).filter_map(pick),
            decreases ls.len() - i,
        {
            proof {
                let t = body.take(i as int);
                assert(t.drop_last() =~= body.take(i - 1));
                assert(t.last() == ls@[i as int]@);
            }
            match read_device(&ls[i]) {
                Some(d) => {
                    let ghost before = device_views(devices@);
                    devices.push(d);
                    assert(device_views(devices@) =~= before + seq![d@]);
                },
                None => {},
            }
            i += 1;
        }
        assert(body.take(ls.len() - 1) =~= body);
    } else {
        assert(device_views(devices@) =~= devices_of(lsblk_output@));
    }
    let mut partitions: Vec<Partition> = Vec::new();
    let text = to_chars(df_output);
    let ls = lines_chars(&text);
    if ls.len() >= 1 {
        let ghost body = rows(ls@).skip(1);
        let ghost pick = |l: Seq<char>| partition_in_line(l);
        let mut i: usize = 1;
        assert(partition_views(partitions@) =~= body.take(0).filter_map(pick));
        while i < ls.len()
            invariant
                1 <= i <= ls.len(),
                body == rows(ls@).skip(1),
                pick == (|l: Seq<char>| partition_in_line(l)),
                partition_views(partitions@) == body.take(i - 1).filter_map(pick),
            decreases ls.len() - i,
        {
            proof {
                let t = body.take(i as int);
                assert(t.drop_last() =~= body.take(i - 1));
                assert(t.last() == ls@[i as int]@);
            }
            match read_partition(&ls[i]) {
                Some(p) => {
                    let ghost before = partition_views(partitions@);
                    partitions.push(p);
                    assert(partition_views(partitions@) =~= before + seq![p@]);
                },
                None => {},
            }
            i += 1;
        }
        assert(body.take(ls.len() - 1) =~= body);
    } else {
        assert(partition_views(partitions@) =~= partitions_of(df_output@));
    }
    (devices, partitions)
}

/// The line that shows a disk: its name, then its size and its model as
/// they were painted.
pub open spec fn device_text(name: Seq<char>, total: Seq<char>, model: Seq<char>) -> Seq<char> {
    "\n  disk "@ + pad_right(name, 4) + ": "@ + pad_left(total, 10) + " total ("@ + model + ")"@
}

/// The line that shows a partition: where it is mounted, then what is
/// free, its size and the share in use as they were painted.
pub open spec fn partition_text(
    partition: Seq<char>,
    free: Seq<char>,
    total: Seq<char>,
    percentage: Seq<char>,
) -> Seq<char> {
    "\n  "@ + pad_right(partition, 15) + ":"@ + pad_left(free, 20) + " free"@ + pad_left(
        total,
        20,
    ) + " total, use "@ + pad_left(percentage, 4)
}

/// What comes before the lines of the disks.
pub open spec fn devices_heading() -> Seq<char> {
    "Disk Size Info:"@
}

/// What comes before the lines of the partitions.
pub open spec fn partitions_heading() -> Seq<char> {
    "\n\nPartition (Linux/MacOS 1k-blocks) / (Windows Size) Info:"@
}

/// The line that shows a disk.
pub fn device_line(name: &str, total: &str, model: &str) -> (out: String)
    ensures
        out@ == device_text(name@, total@, model@),
{
    let mut out = "\n  disk ".to_owned();
    let n = pad_right_str(name, 4);
    out.append(n.as_str());
    out.append(": ");
    let t = pad_left_str(total, 10);
    out.append(t.as_str());
    out.append(" total (");
    out.append(model);
    out.append(")");
    out
}

/// The line that shows a partition.
pub fn partition_line(partition: &str, free: &str, total: &str, percentage: &str) -> (out: String)
    ensures
        out@ == partition_text(partition@, free@, total@, percentage@),
{
    let mut out = "\n  ".to_owned();
    let p = pad_right_str(partition, 15);
    out.append(p.as_str());
    out.append(":");
    let f = pad_left_str(free, 20);
    out.append(f.as_str());
    out.append(" free");
    let t = pad_left_str(total, 20);
    out.append(t.as_str());
    out.append(" total, use ");
    let u = pad_left_str(percentage, 4);
    out.append(u.as_str());
    out
}

/// The disks and the partitions of the host.
#[derive(Debug, Clone)]
pub struct DiskInfo {
    block_device_info: Vec<BlockDevice>,
    partition_info: Vec<Partition>,
}

/// What a [`DiskInfo`] holds.
pub struct DiskInfoView {
    pub block_device_info: Seq<BlockDeviceView>,
    pub partition_info: Seq<PartitionView>,
}

impl View for DiskInfo {
    type V = DiskInfoView;

    closed spec fn view(&self) -> DiskInfoView {
        DiskInfoView {
            block_device_info: device_views(self.block_device_info@),
            partition_info: partition_views(self.partition_info@),
        }
    }
}

impl DiskInfo {
    /// The disks that the report of `lsblk` describes and the partitions
    /// that the report of `df` describes.
    pub fn new(lsblk_output: &str, df_output: &str) -> (disk: DiskInfo)
        ensures
            disk@.block_device_info == devices_of(lsblk_output@),
            disk@.partition_info == partitions_of(df_output@),
    {
        let (block_device_info, partition_info) = get_disk_info(lsblk_output, df_output);
        DiskInfo { block_device_info, partition_info }
    }

    pub fn block_device_info(&self) -> (r: &Vec<BlockDevice>)
        ensures
            device_views(r@) == self@.block_device_info,
    {
        &self.block_device_info
    }

    pub fn partition_info(&self) -> (r: &Vec<Partition>)
        ensures
            partition_views(r@) == self@.partition_info,
    {
        &self.partition_info
    }

    /// The text that shows the disks and the partitions: names as they
    /// are, sizes, models and shares painted, laid out by
    /// [`disk_display`].
    pub fn display(&self) -> (out: String)
        ensures
            exists|painted: Painted| #[trigger]
                painted.fits(self@) && out@ == disk_text(self@, painted),
    {
        let mut totals: Vec<String> = Vec::new();
        let mut models: Vec<String> = Vec::new();
        let mut i: usize = 0;
        while i < self.block_device_info.len()
            invariant
                i <= self.block_device_info.len(),
                totals.len() == i,
                models.len() == i,
            decreases self.block_device_info.len() - i,
        {
            totals.push(green(self.block_device_info[i].total.as_str()));
            models.push(blue(self.block_device_info[i].model.as_str()));
            i += 1;
        }
        let mut frees: Vec<String> = Vec::new();
        let mut sizes: Vec<String> = Vec::new();
        let mut shares: Vec<String> = Vec::new();
        let mut j: usize = 0;
        while j < self.partition_info.len()
            invariant
                j <= self.partition_info.len(),
                frees.len() == j,
                sizes.len() == j,
                shares.len() == j,
            decreases self.partition_info.len() - j,
        {
            frees.push(green(self.partition_info[j].free.as_str()));
            sizes.push(blue(self.partition_info[j].total.as_str()));
            shares.push(yellow(self.partition_info[j].use_percent.as_str()));
            j += 1;
        }
        let out = disk_display(self, &totals, &models, &frees, &sizes, &shares);
        proof {
            let painted = Painted {
                totals: strs(totals@),
                models: strs(models@),
                frees: strs(frees@),
                sizes: strs(sizes@),
                shares: strs(shares@),
            };
            assert(painted.fits(self@) && out@ == disk_text(self@, painted));
        }
        out
    }
}

/// The sizes, models and shares of a [`DiskInfo`] as they were painted, disk
/// by disk and partition by partition.
pub struct Painted {
    pub totals: Seq<Seq<char>>,
    pub models: Seq<Seq<char>>,
    pub frees: Seq<Seq<char>>,
    pub sizes: Seq<Seq<char>>,
    pub shares: Seq<Seq<char>>,
}

impl Painted {
    /// There is a painted text for every disk and every partition of `d`.
    pub open spec fn fits(self, d: DiskInfoView) -> bool {
        &&& self.totals.len() == d.block_device_info.len()
        &&& self.models.len() == d.block_device_info.len()
        &&& self.frees.len() == d.partition_info.len()
        &&& self.sizes.len() == d.partition_info.len()
        &&& self.shares.len() == d.partition_info.len()
    }
}

/// The lines of the first `n` disks of `d`.
pub open spec fn device_lines(d: DiskInfoView, painted: Painted, n: nat) -> Seq<char>
    decreases n,
{
    if n == 0 {
        Seq::<char>::empty()
    } else {
        let i = n - 1;
        device_lines(d, painted, i as nat) + device_text(
            d.block_device_info[i].name,
            painted.totals[i],
            painted.models[i],
        )
    }
}

/// The lines of the first `n` partitions of `d`.
pub open spec fn partition_lines(d: DiskInfoView, painted: Painted, n: nat) -> Seq<char>
    decreases n,
{
    if n == 0 {
        Seq::<char>::empty()
    } else {
        let i = n - 1;
        partition_lines(d, painted, i as nat) + partition_text(
            d.partition_info[i].partition,
            painted.frees[i],
            painted.sizes[i],
            painted.shares[i],
        )
    }
}

/// The text that shows the disks and the partitions of `d`: a heading, a
/// line for every disk, a heading, a line for every partition.
pub open spec fn disk_text(d: DiskInfoView, painted: Painted) -> Seq<char> {
    devices_heading() + device_lines(d, painted, d.block_device_info.len())
        + partitions_heading() + partition_lines(d, painted, d.partition_info.len())
}

/// The text that shows the disks and the partitions of `disk`, where
/// `totals` and `models` are the painted sizes and models of its disks, and
/// `frees`, `sizes` and `shares` the painted free space, sizes and shares
/// in use of its partitions.
pub fn disk_display(
    disk: &DiskInfo,
    totals: &Vec<String>,
    models: &Vec<String>,
    frees: &Vec<String>,
    sizes: &Vec<String>,
    shares: &Vec<String>,
) -> (out: String)
    requires
        (Painted {
            totals: strs(totals@),
            models: strs(models@),
            frees: strs(frees@),
            sizes: strs(sizes@),
            shares: strs(shares@),
        }).fits(disk@),
    ensures
        out@ == disk_text(
            disk@,
            Painted {
                totals: strs(totals@),
                models: strs(models@),
                frees: strs(frees@),
                sizes: strs(sizes@),
                shares: strs(shares@),
            },
        ),
{
    let ghost painted = Painted {
        totals: strs(totals@),
        models: strs(models@),
        frees: strs(frees@),
        sizes: strs(sizes@),
        shares: strs(shares@),
    };
    let devices = disk.block_device_info();
    let partitions = disk.partition_info();
    let mut out = "Disk Size Info:".to_owned();
    let mut i: usize = 0;
    assert(out@ =~= devices_heading() + device_lines(disk@, painted, 0));
    while i < devices.len()
        invariant
            i <= devices.len(),
            painted.fits(disk@),
            device_views(devices@) == disk@.block_device_info,
            painted.totals == strs(totals@),
            painted.models == strs(models@),
            out@ == devices_heading() + device_lines(disk@, painted, i as nat),
        decreases devices.len() - i,
    {
        assert(device_views(devices@)[i as int] == devices@[i as int]@);
        let line = device_line(devices[i].name.as_str(), totals[i].as_str(), models[i].as_str());
        out.append(line.as_str());
        assert(out@ =~= devices_heading() + device_lines(disk@, painted, (i + 1) as nat));
        i += 1;
    }
    let ghost top = out@;
    out.append("\n\nPartition (Linux/MacOS 1k-blocks) / (Windows Size) Info:");
    let mut j: usize = 0;
    assert(out@ =~= top + partitions_heading() + partition_lines(disk@, painted, 0));
    while j < partitions.len()
        invariant
            j <= partitions.len(),
            painted.fits(disk@),
            partition_views(partitions@) == disk@.partition_info,
            painted.frees == strs(frees@),
            painted.sizes == strs(sizes@),
            painted.shares == strs(shares@),
            out@ == top + partitions_heading() + partition_lines(disk@, painted, j as nat),
        decreases partitions.len() - j,
    {
        assert(partition_views(partitions@)[j as int] == partitions@[j as int]@);
        let line = partition_line(
            partitions[j].partition.as_str(),
            frees[j].as_str(),
            sizes[j].as_str(),
            shares[j].as_str(),
        );
        out.append(line.as_str());
        assert(out@ =~= top + partitions_heading() + partition_lines(
            disk@,
            painted,
            (j + 1) as nat,
        ));
        j += 1;
    }
    out
}

} // verus!
