//! Colours for what is shown on a terminal.
//!
//! Whether a text is coloured at all depends on the terminal and on the
//! environment, so nothing is claimed of what these functions return: the
//! functions that lay out a display take the painted texts as they come.

use colored::Colorize;
use vstd::prelude::*;

verus! {

/// `Colorize::green`, written out: `s` as it is, or `s` between the escape
/// sequences that make a terminal show it in green.
#[verifier::external_body]
pub(crate) fn green(s: &str) -> String {
    s.green().to_string()
}

/// `Colorize::blue`, written out: `s` as it is, or `s` between the escape
/// sequences that make a terminal show it in blue.
#[verifier::external_body]
pub(crate) fn blue(s: &str) -> String {
    s.blue().to_string()
}

/// `Colorize::yellow`, written out: `s` as it is, or `s` between the escape
/// sequences that make a terminal show it in yellow.
#[verifier::external_body]
pub(crate) fn yellow(s: &str) -> String {
    s.yellow().to_string()
}

/// `Colorize::red`, written out: `s` as it is, or `s` between the escape
/// sequences that make a terminal show it in red.
#[verifier::external_body]
pub(crate) fn red(s: &str) -> String {
    s.red().to_string()
}

/// `Colorize::bold`, written out: `s` as it is, or `s` between the escape
/// sequences that make a terminal show it in bold.
#[verifier::external_body]
pub(crate) fn bold(s: &str) -> String {
    s.bold().to_string()
}

/// `Colorize::green` and then `Colorize::bold`, written out: `s` as it is,
/// or `s` between the escape sequences that make a terminal show it in
/// bold green.
#[verifier::external_body]
pub(crate) fn bold_green(s: &str) -> String {
    s.green().bold().to_string()
}

} // verus!
