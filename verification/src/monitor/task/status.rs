//! The check of the states of tasks.

use crate::common::config::TaskListMonitorConfig;
use crate::common::ds::TaskStatus;
use crate::monitor::event::Event;
use vstd::prelude::*;

verus! {

/// The event, if any, that reports the tasks whose state is among those to
/// report. No task is watched yet, so there is never one.
pub fn check_task_status(
    default_statuses: &Vec<TaskStatus>,
    task_status_list: &Vec<TaskListMonitorConfig>,
    is_active: &bool,
) -> (r: Option<Event>)
    ensures
        r is None,
{
    None
}

} // verus!
