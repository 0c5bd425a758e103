//! The host and the part this instance plays on it.

use crate::common::ds::RunningRole;
use crate::info::hostinfo::{HostInfo, HostInfoView};
use vstd::prelude::*;

verus! {

/// The host.
#[derive(Debug)]
pub struct Host {
    info: HostInfo,
    role: RunningRole,
}

impl Host {
    /// What the host holds: what is known of it.
    pub closed spec fn info_view(&self) -> HostInfoView {
        self.info@
    }

    /// What the host holds: the part this instance plays.
    pub closed spec fn role_view(&self) -> RunningRole {
        self.role
    }

    /// The host of which `info` is known, with this instance as an
    /// inquirer.
    pub fn new(info: HostInfo) -> (host: Host)
        ensures
            host.info_view() == info@,
            host.role_view() == RunningRole::Inquirer,
    {
        Host { info, role: RunningRole::Inquirer }
    }

    pub fn hostinfo(&self) -> (r: &HostInfo)
        ensures
            r@ == self.info_view(),
    {
        &self.info
    }

    pub fn role(&self) -> (r: &RunningRole)
        ensures
            *r == self.role_view(),
    {
        &self.role
    }
}

} // verus!
