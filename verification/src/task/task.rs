//! A task and the record of its run.

use crate::common::ds::{Result, TaskStatus};
use crate::common::stamp::fresh_id;
use std::time::{Duration, Instant};
use vstd::prelude::*;
use vstd::string::*;

verus! {

/// What a [`Task`] holds.
pub struct TaskView {
    pub id: Seq<char>,
    pub name: Seq<char>,
    pub description: Seq<char>,
    pub status: TaskStatus,
    pub create: Instant,
    pub log_file: Seq<char>,
    pub start: Option<Instant>,
    pub end: Option<Instant>,
    pub cost: Option<Duration>,
    pub result: Option<Result>,
}

/// A task.
#[derive(Debug, Clone)]
pub struct Task {
    id: String,
    name: String,
    description: String,
    status: TaskStatus,
    create: Instant,
    log_file: String,
    start: Option<Instant>,
    end: Option<Instant>,
    cost: Option<Duration>,
    result: Option<Result>,
}

impl View for Task {
    type V = TaskView;

    closed spec fn view(&self) -> TaskView {
        TaskView {
            id: self.id@,
            name: self.name@,
            description: self.description@,
            status: self.status,
            create: self.create,
            log_file: self.log_file@,
            start: self.start,
            end: self.end,
            cost: self.cost,
            result: self.result,
        }
    }
}

/// Where the log of the task `id` is kept unless another place is given.
pub open spec fn default_log_file(id: Seq<char>) -> Seq<char> {
    "/var/log/minirobot/task/"@ + id
}

impl Task {
    /// The task `id`, created at `create` and not run yet, whose log is
    /// kept in `log_file`, or in its default place where none is given.
    pub fn with(id: String, create: Instant, name: &str, description: &str, log_file: Option<&str>)
        -> (task: Task)
        ensures
            task@ == (TaskView {
                id: id@,
                name: name@,
                description: description@,
                status: TaskStatus::Created,
                create,
                log_file: match log_file {
                    Some(path) => path@,
                    None => default_log_file(id@),
                },
                start: None,
                end: None,
                cost: None,
                result: None,
            }),
    {
        let log_file = match log_file {
            Some(path) => path.to_owned(),
            None => {
                let mut path = "/var/log/minirobot/task/".to_owned();
                path.append(id.as_str());
                path
            },
        };
        Task {
            id,
            name: name.to_owned(),
            description: description.to_owned(),
            status: TaskStatus::Created,
            create,
            log_file,
            start: None,
            end: None,
            cost: None,
            result: None,
        }
    }

    /// A new task, created now, with a random identifier.
    pub fn new(name: &str, description: &str, log_file: Option<&str>) -> (task: Task)
        ensures
            task@.name == name@,
            task@.description == description@,
            task@.status == TaskStatus::Created,
            task@.log_file == match log_file {
                Some(path) => path@,
                None => default_log_file(task@.id),
            },
            task@.start is None,
            task@.end is None,
            task@.cost is None,
            task@.result is None,
    {
        Self::with(fresh_id(), Instant::now(), name, description, log_file)
    }

    pub fn id(&self) -> (r: &str)
        ensures
            r@ == self@.id,
    {
        self.id.as_str()
    }

    pub fn name(&self) -> (r: &str)
        ensures
            r@ == self@.name,
    {
        self.name.as_str()
    }

    pub fn description(&self) -> (r: &str)
        ensures
            r@ == self@.description,
    {
        self.description.as_str()
    }

    pub fn status(&self) -> (r: &TaskStatus)
        ensures
            *r == self@.status,
    {
        &self.status
    }

    pub fn log_file(&self) -> (r: &str)
        ensures
            r@ == self@.log_file,
    {
        self.log_file.as_str()
    }
}

} // verus!
