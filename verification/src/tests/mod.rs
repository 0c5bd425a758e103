//! The self-test runner: suites of modules of cases, found by a naming
//! convention in a directory tree and run with setup and teardown hooks.

pub mod test_order;
