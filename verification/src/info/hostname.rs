//! The name of the host, as `/etc/hostname` gives it.

use crate::text::{trim, trim_str};
use vstd::prelude::*;
use vstd::string::*;

verus! {

/// The name that the text of `/etc/hostname` gives: the text without the
/// white space around it, and the empty name where the file could not be
/// read.
pub open spec fn hostname_of(content: Option<Seq<char>>) -> Seq<char> {
    match content {
        Some(text) => trim(text),
        None => Seq::<char>::empty(),
    }
}

/// The name of the host, from the text of `/etc/hostname`.
pub fn hostname(content: Option<&str>) -> (name: String)
    ensures
        name@ == hostname_of(
            match content {
                Some(text) => Some(text@),
                None => None,
            },
        ),
{
    match content {
        Some(text) => trim_str(text),
        None => String::new(),
    }
}

} // verus!
