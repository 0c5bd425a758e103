//! The order in which cases are run.

use vstd::prelude::*;

verus! {

/// How the cases of a run are scheduled.
#[derive(Debug, Clone, Copy, PartialEq, Eq, Structural)]
pub enum TestOrder {
    /// One case after another, in the order of discovery.
    Sequential,
    /// On a pool of workers, in no promised order.
    Parallel,
}

} // verus!
