//! Everything that is known of the host.

use crate::common::paint::bold_green;
use crate::info::cpu::{CpuInfo, CpuInfoView};
use crate::info::disk::{DiskInfo, DiskInfoView};
use crate::info::memory::{MemInfo, MemInfoView};
use crate::info::network::{interface_views, NetworkInterface, NetworkInterfaceView};
use crate::info::os::{OSInfo, OSInfoView};
use crate::info::process::{process_views, ProcessInfo, ProcessInfoView};
use crate::info::service::{service_views, Service, ServiceView};
use vstd::prelude::*;
use vstd::string::*;

verus! {

/// What a [`HostInfo`] holds.
pub struct HostInfoView {
    pub hostname: Seq<char>,
    pub os_info: OSInfoView,
    pub cpu_info: CpuInfoView,
    pub disk_info: DiskInfoView,
    pub mem_info: MemInfoView,
    pub net_info: Seq<NetworkInterfaceView>,
    pub active_net_info: Seq<NetworkInterfaceView>,
    pub process_info: Seq<ProcessInfoView>,
    pub service_info: Seq<ServiceView>,
}

/// What is known of the host.
#[derive(Debug, Clone)]
pub struct HostInfo {
    hostname: String,
    os_info: OSInfo,
    cpu_info: CpuInfo,
    disk_info: DiskInfo,
    mem_info: MemInfo,
    net_info: Vec<NetworkInterface>,
    active_net_info: Vec<NetworkInterface>,
    process_info: Vec<ProcessInfo>,
    service_info: Vec<Service>,
}

impl View for HostInfo {
    type V = HostInfoView;

    closed spec fn view(&self) -> HostInfoView {
        HostInfoView {
            hostname: self.hostname@,
            os_info: self.os_info@,
            cpu_info: self.cpu_info@,
            disk_info: self.disk_info@,
            mem_info: self.mem_info@,
            net_info: interface_views(self.net_info@),
            active_net_info: interface_views(self.active_net_info@),
            process_info: process_views(self.process_info@),
            service_info: service_views(self.service_info@),
        }
    }
}

/// What the text that shows a host begins with, the name as it was
/// painted.
pub open spec fn hostname_text(name: Seq<char>) -> Seq<char> {
    "\nHostname: "@ + name
}

/// The text that shows a host: the line of its name, then the texts of its
/// parts one after the other.
pub open spec fn host_text(name: Seq<char>, parts: Seq<Seq<char>>) -> Seq<char> {
    hostname_text(name) + parts.flatten()
}

/// The text that shows a host.
pub fn host_display(name: &str, parts: &Vec<String>) -> (out: String)
    ensures
        out@ == host_text(name@, crate::text::strs(parts@)),
{
    let ghost all = crate::text::strs(parts@);
    let mut out = "\nHostname: ".to_owned();
    out.append(name);
    let mut i: usize = 0;
    assert(all.take(0).flatten() =~= Seq::<char>::empty());
    assert(out@ =~= hostname_text(name@) + all.take(0).flatten());
    while i < parts.len()
        invariant
            i <= parts.len(),
            all == crate::text::strs(parts@),
            out@ == hostname_text(name@) + all.take(i as int).flatten(),
        decreases parts.len() - i,
    {
        proof {
            assert(all.take(i + 1) =~= all.take(i as int).push(parts@[i as int]@));
            all.take(i as int).lemma_flatten_push(parts@[i as int]@);
        }
        out.append(parts[i].as_str());
        assert(out@ =~= hostname_text(name@) + all.take(i + 1).flatten());
        i += 1;
    }
    assert(all.take(parts.len() as int) =~= all);
    out
}

impl HostInfo {
    /// What is known of a host, from its parts.
    pub fn new(
        hostname: String,
        os_info: OSInfo,
        cpu_info: CpuInfo,
        disk_info: DiskInfo,
        mem_info: MemInfo,
        nics: (Vec<NetworkInterface>, Vec<NetworkInterface>),
        process_info: Vec<ProcessInfo>,
        service_info: Vec<Service>,
    ) -> (host: Self)
        ensures
            host@ == (HostInfoView {
                hostname: hostname@,
                os_info: os_info@,
                cpu_info: cpu_info@,
                disk_info: disk_info@,
                mem_info: mem_info@,
                net_info: interface_views(nics.0@),
                active_net_info: interface_views(nics.1@),
                process_info: process_views(process_info@),
                service_info: service_views(service_info@),
            }),
    {
        let (net_info, active_net_info) = nics;
        HostInfo {
            hostname,
            os_info,
            cpu_info,
            disk_info,
            mem_info,
            net_info,
            active_net_info,
            process_info,
            service_info,
        }
    }

    pub fn hostname(&self) -> (r: &str)
        ensures
            r@ == self@.hostname,
    {
        self.hostname.as_str()
    }

    pub fn os_info(&self) -> (r: &OSInfo)
        ensures
            r@ == self@.os_info,
    {
        &self.os_info
    }

    pub fn cpu_info(&self) -> (r: &CpuInfo)
        ensures
            r@ == self@.cpu_info,
    {
        &self.cpu_info
    }

    pub fn disk_info(&self) -> (r: &DiskInfo)
        ensures
            r@ == self@.disk_info,
    {
        &self.disk_info
    }

    pub fn mem_info(&self) -> (r: &MemInfo)
        ensures
            r@ == self@.mem_info,
    {
        &self.mem_info
    }

    pub fn net_info(&self) -> (r: &Vec<NetworkInterface>)
        ensures
            interface_views(r@) == self@.net_info,
    {
        &self.net_info
    }

    pub fn active_net_info(&self) -> (r: &Vec<NetworkInterface>)
        ensures
            interface_views(r@) == self@.active_net_info,
    {
        &self.active_net_info
    }

    pub fn process_info(&self) -> (r: &Vec<ProcessInfo>)
        ensures
            process_views(r@) == self@.process_info,
    {
        &self.process_info
    }

    pub fn service_info(&self) -> (r: &Vec<Service>)
        ensures
            service_views(r@) == self@.service_info,
    {
        &self.service_info
    }

    /// The text that shows the host, where its memory can be shown: the
    /// name, painted, then the texts of the system, the processor, the
    /// memory, the disks, every interface and every service, laid out by
    /// [`host_display`].
    pub fn display(&self) -> (r: Option<String>)
        ensures
            r is Some <==> MemInfo::can_be_shown(self@.mem_info),
            r matches Some(out) ==> exists|name: Seq<char>, parts: Seq<Seq<char>>|
                out@ == #[trigger] host_text(name, parts) && parts.len() == 4
                    + self@.net_info.len() + self@.service_info.len(),
    {
        let memory = match self.mem_info.display() {
            Some(m) => m,
            None => {
                return None;
            },
        };
        let name = bold_green(self.hostname.as_str());
        let mut parts: Vec<String> = Vec::new();
        parts.push(self.os_info.display());
        parts.push(self.cpu_info.display());
        parts.push(memory);
        parts.push(self.disk_info.display());
        let mut i: usize = 0;
        while i < self.net_info.len()
            invariant
                i <= self.net_info.len(),
                parts.len() == 4 + i,
            decreases self.net_info.len() - i,
        {
            parts.push(self.net_info[i].display());
            i += 1;
        }
        let mut j: usize = 0;
        while j < self.service_info.len()
            invariant
                j <= self.service_info.len(),
                parts.len() == 4 + self.net_info.len() + j,
            decreases self.service_info.len() - j,
        {
            parts.push(self.service_info[j].display());
            j += 1;
        }
        let out = host_display(name.as_str(), &parts);
        proof {
            assert(out@ == host_text(name@, crate::text::strs(parts@)));
        }
        Some(out)
    }
}

} // verus!
