//! Shared enumerations.

use vstd::prelude::*;

verus! {

/// How a bounded operation ended.
#[derive(Debug, Clone, Copy, PartialEq, Eq, Structural)]
pub enum Result {
    /// It ran and passed every check.
    Success,
    /// It ran and did not pass, or ran out of time.
    Failed,
    /// It could not be run, or its report was lost.
    Error,
}

/// Where a task stands.
#[derive(Debug, Clone, Copy, PartialEq, Eq, Structural)]
pub enum TaskStatus {
    Created,
    Wait,
    Running,
    Finished,
    Timeout,
    Stopped,
    Cancelled,
    Unavailable,
}

/// The part a running instance plays.
#[derive(Debug, Clone, Copy, PartialEq, Eq, Structural)]
pub enum RunningRole {
    Actor,
    AssetManager,
    EnvManager,
    TaskManager,
    Inquirer,
}

/// How a run is started.
#[derive(Debug, Clone, Copy, PartialEq, Eq, Structural)]
pub enum RunningMode {
    Manaul,
    Auto,
}

/// A calendar date as the user wrote it.
#[derive(Debug, Clone)]
pub struct UserDate {
    pub year: String,
    pub month: String,
    pub day: String,
}

/// A time of day as the user wrote it.
#[derive(Debug, Clone)]
pub struct UserTime {
    pub hh: String,
    pub mm: String,
    pub ss: String,
}

/// When a time trigger fires.
#[derive(Debug, Clone)]
pub enum TimeTrigger {
    Daily,
    Hourly,
    Minutely,
    Secondly,
    SpecificTime { date: UserDate, time: UserTime },
}

/// Which events fire an event trigger.
#[derive(Debug, Clone)]
pub enum EventTrigger {
    SingleEvent(String),
    /// The names of the events.
    MultipleEvents(Vec<String>),
}

/// What starts a task.
#[derive(Debug, Clone)]
pub enum Trigger {
    TimeBased(TimeTrigger),
    EventBased(EventTrigger),
    EventAndTimeBased { event: EventTrigger, time: TimeTrigger },
}

} // verus!
