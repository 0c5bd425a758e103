//! The check of how full the partitions are.

use crate::info::disk::{partition_views, DiskInfo, Partition, PartitionView};
use crate::monitor::event::{Event, Priority, Severity};
use crate::text::{
    decimal, decimal_string, parse_uint, parse_uint_chars, to_chars, trim_end_matches,
    trim_end_matches_chars,
};
use vstd::prelude::*;
use vstd::string::*;

verus! {

/// Why the check could not be made.
#[derive(Debug, Clone, Copy, PartialEq, Eq, Structural)]
pub enum DiskCheckError {
    /// The share in use of a partition is not a number up to 255, followed
    /// by percent signs or not.
    BadUsage,
}

/// What the check says of one partition under the threshold `threshold`:
/// where it is mounted, a dash, the share in use and a percent sign where
/// the share reaches the threshold, nothing where it does not.
pub open spec fn partition_alert(p: PartitionView, threshold: u8) -> Result<
    Seq<char>,
    DiskCheckError,
> {
    match parse_uint(trim_end_matches(p.use_percent, "%"@), 255) {
        None => Err(DiskCheckError::BadUsage),
        Some(percentage) => if percentage >= threshold {
            Ok(p.partition + "-"@ + decimal(percentage) + "%"@)
        } else {
            Ok(Seq::<char>::empty())
        },
    }
}

/// What the check says of the partitions `ps`: what it says of each, one
/// after the other; and of the first partition that cannot be checked, why.
pub open spec fn usage_alert(ps: Seq<PartitionView>, threshold: u8) -> Result<
    Seq<char>,
    DiskCheckError,
>
    decreases ps.len(),
{
    if ps.len() == 0 {
        Ok(Seq::<char>::empty())
    } else {
        match usage_alert(ps.drop_last(), threshold) {
            Err(e) => Err(e),
            Ok(text) => match partition_alert(ps.last(), threshold) {
                Err(e) => Err(e),
                Ok(more) => Ok(text + more),
            },
        }
    }
}

/// The description of the event that reports `alert` under `threshold`.
pub open spec fn usage_description(threshold: u8, alert: Seq<char>) -> Seq<char> {
    "使用率达到告警阈值"@ + decimal(threshold as nat) + "%: "@ + alert
}

/// `event` is the new event that reports `alert` under `threshold`: a
/// warning where the check is active, and for debugging where it is not.
pub open spec fn is_usage_event(
    event: crate::monitor::event::EventView,
    threshold: u8,
    alert: Seq<char>,
    is_active: bool,
) -> bool {
    &&& event.is_new()
    &&& event.name == "磁盘使用率监控"@
    &&& event.description == usage_description(threshold, alert)
    &&& event.priority == Priority::Low
    &&& event.severity == if is_active {
        Severity::Warning
    } else {
        Severity::Debug
    }
    &&& event.category == "本地主机监控"@
}

fn check_partition(p: &Partition, threshold: u8) -> (r: Result<String, DiskCheckError>)
    ensures
        match r {
            Ok(text) => partition_alert(p@, threshold) == Ok::<Seq<char>, DiskCheckError>(text@),
            Err(e) => partition_alert(p@, threshold) == Err::<Seq<char>, DiskCheckError>(e),
        },
{
    let name = &p.partition;
    let u = to_chars(p.use_percent.as_str());
    let sign = to_chars("%");
    let digits = trim_end_matches_chars(&u, &sign);
    match parse_uint_chars(&digits, 255) {
        None => Err(DiskCheckError::BadUsage),
        Some(percentage) => {
            if percentage >= threshold as u128 {
                let mut text = name.clone();
                text.append("-");
                let d = decimal_string(percentage);
                text.append(d.as_str());
                text.append("%");
                Ok(text)
            } else {
                Ok(String::new())
            }
        },
    }
}

/// The event, if any, that reports the partitions of `disk_info` that are
/// in use to `threshold_max` percent or more. The event is a warning where
/// the check is active, and for debugging where it is not.
pub fn check_disk_usage(threshold_max: &u8, is_active: &bool, disk_info: &DiskInfo) -> (r: Result<
    Option<Event>,
    DiskCheckError,
>)
    ensures
        match usage_alert(disk_info@.partition_info, *threshold_max) {
            Err(e) => r == Err::<Option<Event>, DiskCheckError>(e),
            Ok(alert) => r matches Ok(found) && (found is Some <==> alert.len() > 0) && (
            found matches Some(event) ==> is_usage_event(
                event@,
                *threshold_max,
                alert,
                *is_active,
            )),
        },
{
    let partitions = disk_info.partition_info();
    let ghost all = partition_views(partitions@);
    let mut alert_contens = String::new();
    let mut i: usize = 0;
    assert(all.take(0) =~= Seq::<PartitionView>::empty());
    while i < partitions.len()
        invariant
            i <= partitions.len(),
            all == partition_views(partitions@),
            all == disk_info@.partition_info,
            usage_alert(all.take(i as int), *threshold_max) == Ok::<Seq<char>, DiskCheckError>(
                alert_contens@,
            ),
        decreases partitions.len() - i,
    {
        proof {
            let t = all.take(i + 1);
            assert(t.drop_last() =~= all.take(i as int));
            assert(t.last() == partitions@[i as int]@);
        }
        match check_partition(&partitions[i], *threshold_max) {
            Err(e) => {
                proof {
                    lemma_failure_stays(all, i + 1, *threshold_max);
                }
                return Err(e);
            },
            Ok(more) => {
                alert_contens.append(more.as_str());
            },
        }
        i += 1;
    }
    assert(all.take(partitions.len() as int) =~= all);
    if alert_contens.as_str().unicode_len() == 0 {
        Ok(None)
    } else {
        let mut description = "使用率达到告警阈值".to_owned();
        let t = decimal_string(*threshold_max as u128);
        description.append(t.as_str());
        description.append("%: ");
        description.append(alert_contens.as_str());
        let severity = if *is_active {
            Severity::Warning
        } else {
            Severity::Debug
        };
        Ok(
            Some(
                Event::new(
                    "磁盘使用率监控",
                    description.as_str(),
                    Priority::Low,
                    severity,
                    "本地主机监控",
                ),
            ),
        )
    }
}

/// The check of the first `k` partitions failing, the check of all fails
/// for the same reason.
proof fn lemma_failure_stays(ps: Seq<PartitionView>, k: int, threshold: u8)
    requires
        0 <= k <= ps.len(),
        usage_alert(ps.take(k), threshold) is Err,
    ensures
        usage_alert(ps, threshold) == usage_alert(ps.take(k), threshold),
    decreases ps.len() - k,
{
    if k < ps.len() {
        let t = ps.take(k + 1);
        assert(t.drop_last() =~= ps.take(k));
        lemma_failure_stays(ps, k + 1, threshold);
    } else {
        assert(ps.take(k) =~= ps);
    }
}

} // verus!
