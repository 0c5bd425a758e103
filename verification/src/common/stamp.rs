//! What marks a thing as this one and no other: a random identifier, the
//! present moment.
//!
//! Both come from outside the program, so nothing is claimed of either: the
//! functions that use them say what holds whatever they return.

use chrono::Utc;
use uuid::Uuid;
use vstd::prelude::*;

verus! {

/// `Uuid::new_v4`, written out: a random identifier. Nothing is claimed of
/// what it returns. It does not return where the system has no random
/// bytes to give.
#[verifier::external_body]
pub(crate) fn fresh_id() -> String {
    Uuid::new_v4().to_string()
}

/// `Utc::now`, reduced to date and time by `DateTime::naive_utc` and
/// written out: the present moment, as the clock of the host has it.
/// Nothing is claimed of what it returns. It does not return where the
/// clock stands before 1970.
#[verifier::external_body]
pub(crate) fn present_moment() -> String {
    Utc::now().naive_utc().to_string()
}

} // verus!
