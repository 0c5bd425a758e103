//! Events.

use crate::common::stamp::{fresh_id, present_moment};
use vstd::prelude::*;
use vstd::string::*;

verus! {

/// How urgent an event is.
#[derive(Debug, Clone, Copy, PartialEq, Eq, Structural)]
pub enum Priority {
    Low,
    Medium,
    High,
}

/// How grave an event is.
#[derive(Debug, Clone, Copy, PartialEq, Eq, Structural)]
pub enum Severity {
    Debug,
    Info,
    Warning,
    Critical,
}

/// How far an event has been dealt with.
#[derive(Debug, Clone, Copy, PartialEq, Eq, Structural)]
pub enum Status {
    Pending,
    InProgress,
    Resolved,
    Closed,
}

/// What an [`Event`] holds.
pub struct EventView {
    pub id: Seq<char>,
    pub name: Seq<char>,
    pub timestamp: Seq<char>,
    pub description: Seq<char>,
    pub priority: Priority,
    pub severity: Severity,
    pub category: Seq<char>,
    pub status: Status,
    pub progress: Seq<char>,
}

/// An event.
#[derive(Debug)]
pub struct Event {
    id: String,
    name: String,
    timestamp: String,
    description: String,
    priority: Priority,
    severity: Severity,
    category: String,
    status: Status,
    progress: String,
}

impl View for Event {
    type V = EventView;

    closed spec fn view(&self) -> EventView {
        EventView {
            id: self.id@,
            name: self.name@,
            timestamp: self.timestamp@,
            description: self.description@,
            priority: self.priority,
            severity: self.severity,
            category: self.category@,
            status: self.status,
            progress: self.progress@,
        }
    }
}

/// The events that a vector holds.
pub open spec fn event_views(v: Seq<Event>) -> Seq<EventView> {
    v.map_values(|e: Event| e@)
}

/// The note that is added to the progress of an event at the moment
/// `moment`.
pub open spec fn progress_note(moment: Seq<char>, progress: Seq<char>) -> Seq<char> {
    "\n"@ + moment + " 更新进展:\n"@ + progress
}

impl EventView {
    /// The event is new: nothing has been done about it.
    pub open spec fn is_new(self) -> bool {
        self.status == Status::Pending && self.progress.len() == 0
    }
}

impl Event {
    /// The new event with the identifier `id`, noted at `timestamp`.
    pub fn with(
        id: String,
        timestamp: String,
        name: &str,
        description: &str,
        priority: Priority,
        severity: Severity,
        category: &str,
    ) -> (e: Self)
        ensures
            e@ == (EventView {
                id: id@,
                name: name@,
                timestamp: timestamp@,
                description: description@,
                priority,
                severity,
                category: category@,
                status: Status::Pending,
                progress: Seq::<char>::empty(),
            }),
    {
        Self {
            id,
            name: name.to_owned(),
            timestamp,
            description: description.to_owned(),
            priority,
            severity,
            category: category.to_owned(),
            status: Status::Pending,
            progress: String::new(),
        }
    }

    /// A new event, noted now, with a random identifier.
    pub fn new(
        name: &str,
        description: &str,
        priority: Priority,
        severity: Severity,
        category: &str,
    ) -> (e: Self)
        ensures
            e@.is_new(),
            e@.name == name@,
            e@.description == description@,
            e@.priority == priority,
            e@.severity == severity,
            e@.category == category@,
    {
        Self::with(fresh_id(), present_moment(), name, description, priority, severity, category)
    }

    pub fn id(&self) -> (r: &str)
        ensures
            r@ == self@.id,
    {
        self.id.as_str()
    }

    pub fn name(&self) -> (r: &str)
        ensures
            r@ == self@.name,
    {
        self.name.as_str()
    }

    pub fn timestamp(&self) -> (r: &str)
        ensures
            r@ == self@.timestamp,
    {
        self.timestamp.as_str()
    }

    pub fn description(&self) -> (r: &str)
        ensures
            r@ == self@.description,
    {
        self.description.as_str()
    }

    pub fn priority(&self) -> (r: &Priority)
        ensures
            *r == self@.priority,
    {
        &self.priority
    }

    pub fn severity(&self) -> (r: &Severity)
        ensures
            *r == self@.severity,
    {
        &self.severity
    }

    pub fn category(&self) -> (r: &str)
        ensures
            r@ == self@.category,
    {
        self.category.as_str()
    }

    pub fn status(&self) -> (r: &Status)
        ensures
            *r == self@.status,
    {
        &self.status
    }

    pub fn progress(&self) -> (r: &str)
        ensures
            r@ == self@.progress,
    {
        self.progress.as_str()
    }

    pub fn set_name(&mut self, name: &str)
        ensures
            final(self)@ == (EventView { name: name@, ..old(self)@ }),
    {
        self.name = name.to_owned();
    }

    pub fn set_description(&mut self, description: &str)
        ensures
            final(self)@ == (EventView { description: description@, ..old(self)@ }),
    {
        self.description = description.to_owned();
    }

    pub fn set_priority(&mut self, priority: Priority)
        ensures
            final(self)@ == (EventView { priority, ..old(self)@ }),
    {
        self.priority = priority;
    }

    pub fn set_severity(&mut self, severity: Severity)
        ensures
            final(self)@ == (EventView { severity, ..old(self)@ }),
    {
        self.severity = severity;
    }

    pub fn set_category(&mut self, category: &str)
        ensures
            final(self)@ == (EventView { category: category@, ..old(self)@ }),
    {
        self.category = category.to_owned();
    }

    pub fn set_status(&mut self, status: Status)
        ensures
            final(self)@ == (EventView { status, ..old(self)@ }),
    {
        self.status = status;
    }

    /// Adds to the progress of the event the note that `progress` was made
    /// at `moment`.
    pub fn note_progress(&mut self, moment: &str, progress: &str)
        ensures
            final(self)@ == (EventView {
                progress: old(self)@.progress + progress_note(moment@, progress@),
                ..old(self)@
            }),
    {
        self.progress.append("\n");
        self.progress.append(moment);
        self.progress.append(" 更新进展:\n");
        self.progress.append(progress);
        assert(self.progress@ =~= old(self)@.progress + progress_note(moment@, progress@));
    }

    /// Adds to the progress of the event the note that `progress` was made
    /// now.
    pub fn set_progress(&mut self, progress: &str)
        ensures
            exists|moment: Seq<char>|
                final(self)@ == (EventView {
                    progress: old(self)@.progress + #[trigger] progress_note(moment, progress@),
                    ..old(self)@
                }),
    {
        let moment = present_moment();
        self.note_progress(moment.as_str(), progress);
    }
}

} // verus!
