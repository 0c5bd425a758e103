//! Alerts on the desktop.
//!
//! An alert is sent by the notifier of the desktop, `notify-send`. Starting
//! it is the caller's part; whether one is due, what it says, and what the
//! attempt comes to is decided here.

use crate::monitor::event::{Event, EventView, Severity};
use vstd::prelude::*;
use vstd::string::*;

verus! {

/// `s` as the formatter of std writes a text for debugging: between double
/// quotes, with what cannot be shown escaped.
pub uninterp spec fn debug_text(s: Seq<char>) -> Seq<char>;

/// The `Debug` form of a text, through the `format` macro of std. It is the
/// text that [`debug_text`] names.
#[verifier::external_body]
fn quoted(s: &str) -> (out: String)
    ensures
        out@ == debug_text(s@),
{
    format!("{:?}", s)
}

/// How the attempt to notify went.
#[derive(Debug, Clone, Copy, PartialEq, Eq, Structural)]
pub enum Notifier {
    /// No notifier is installed.
    Missing,
    /// The notifier ran; `success` says whether it reported success.
    Ran { success: bool },
}

/// The event calls for an alert: every event does but those for
/// debugging.
pub open spec fn needs_alert(e: EventView) -> bool {
    e.severity != Severity::Debug
}

/// What the alert for the event says.
pub open spec fn alert_text(e: EventView) -> Seq<char> {
    debug_text(e.category) + ": "@ + e.description + " at "@ + e.timestamp + "!"@
}

/// The event calls for an alert.
pub fn alert_needed(e: &Event) -> (b: bool)
    ensures
        b == needs_alert(e@),
{
    match e.severity() {
        Severity::Debug => false,
        _ => true,
    }
}

/// What the alert for the event says.
pub fn alert_message(e: &Event) -> (out: String)
    ensures
        out@ == alert_text(e@),
{
    let mut out = quoted(e.category());
    out.append(": ");
    out.append(e.description());
    out.append(" at ");
    out.append(e.timestamp());
    out.append("!");
    out
}

/// Whether the event is taken care of: an event for debugging is, without
/// an alert; any other is exactly if the notifier ran and reported
/// success. `notifier` is looked at only where an alert is needed.
pub fn os_send_alert(e: Event, notifier: Notifier) -> (done: bool)
    ensures
        done == (!needs_alert(e@) || notifier == (Notifier::Ran { success: true })),
{
    if !alert_needed(&e) {
        return true;
    }
    match notifier {
        Notifier::Missing => false,
        Notifier::Ran { success } => success,
    }
}

} // verus!
