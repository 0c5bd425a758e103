//! The monitor: it makes its checks and keeps the events they give.

use crate::common::config::MonitorConfig;
use crate::info::disk::DiskInfo;
use crate::info::service::{service_views, Service};
use crate::monitor::event::{event_views, Event, EventView};
use crate::monitor::system::disk_usage::{
    check_disk_usage, is_usage_event, usage_alert, DiskCheckError,
};
use crate::monitor::system::open_port::{check_open_port, is_port_event, ports_alert};
use crate::monitor::task::status::check_task_status;
use vstd::prelude::*;

verus! {

/// The monitor.
#[derive(Debug)]
pub struct Monitor {
    config: MonitorConfig,
    events: Vec<Event>,
}

impl Monitor {
    /// The settings of the monitor.
    pub closed spec fn config_view(&self) -> MonitorConfig {
        self.config
    }

    /// The events that the monitor keeps, oldest first.
    pub closed spec fn events_view(&self) -> Seq<EventView> {
        event_views(self.events@)
    }

    /// A monitor with the settings `config` that keeps no event yet.
    pub fn new(config: MonitorConfig) -> (m: Self)
        ensures
            m.config_view() == config,
            m.events_view().len() == 0,
    {
        Monitor { config, events: Vec::new() }
    }

    pub fn config(&self) -> (r: &MonitorConfig)
        ensures
            *r == self.config_view(),
    {
        &self.config
    }

    pub fn events(&self) -> (r: &Vec<Event>)
        ensures
            event_views(r@) == self.events_view(),
    {
        &self.events
    }

    /// The events `added` are those that the checks on `disk_info` and
    /// `services` give under these settings: that of the disks, if the
    /// check of the disks gives one, then that of the ports, if the check of
    /// the ports gives one.
    pub open spec fn gives(self, disk_info: DiskInfo, services: Seq<Service>, added: Seq<EventView>)
        -> bool {
        let config = self.config_view();
        let ports = ports_alert(service_views(services), config.open_port.high_risk_ports@);
        match usage_alert(disk_info@.partition_info, config.disk_usage.threshold) {
            Err(_) => added.len() == 0,
            Ok(usage) => {
                let first: int = if usage.len() > 0 {
                    1
                } else {
                    0
                };
                let second: int = if ports.len() > 0 {
                    1
                } else {
                    0
                };
                &&& added.len() == first + second
                &&& usage.len() > 0 ==> is_usage_event(
                    added[0],
                    config.disk_usage.threshold,
                    usage,
                    config.disk_usage.is_active,
                )
                &&& ports.len() > 0 ==> is_port_event(
                    added[first],
                    ports,
                    config.open_port.is_active,
                )
            },
        }
    }

    /// Makes the checks on `disk_info` and `services` and keeps the events
    /// they give, after those kept before: that of the disks, then that of
    /// the ports. Where the disks cannot be checked, nothing is kept and
    /// the reason is returned.
    pub fn start(&mut self, disk_info: &DiskInfo, services: &Vec<Service>) -> (r: Result<
        (),
        DiskCheckError,
    >)
        ensures
            final(self).config_view() == old(self).config_view(),
            old(self).events_view().is_prefix_of(final(self).events_view()),
            old(self).gives(
                *disk_info,
                services@,
                final(self).events_view().skip(old(self).events_view().len() as int),
            ),
            match usage_alert(
                disk_info@.partition_info,
                old(self).config_view().disk_usage.threshold,
            ) {
                Err(e) => r == Err::<(), DiskCheckError>(e),
                Ok(_) => r is Ok,
            },
    {
        let ghost before = event_views(self.events@);
        let disk_event = match check_disk_usage(
            &self.config.disk_usage.threshold,
            &self.config.disk_usage.is_active,
            disk_info,
        ) {
            Ok(found) => found,
            Err(e) => {
                return Err(e);
            },
        };
        match disk_event {
            Some(event) => {
                let ghost then = event_views(self.events@);
                self.events.push(event);
                assert(event_views(self.events@) =~= then.push(event@));
            },
            None => {},
        }
        match check_open_port(
            &self.config.open_port.high_risk_ports,
            &self.config.open_port.is_active,
            services,
        ) {
            Some(event) => {
                let ghost then = event_views(self.events@);
                self.events.push(event);
                assert(event_views(self.events@) =~= then.push(event@));
            },
            None => {},
        }
        match check_task_status(
            &self.config.task_status.default_statuses,
            &self.config.task_status.task_list,
            &self.config.task_status.is_active,
        ) {
            Some(event) => {
                let ghost then = event_views(self.events@);
                self.events.push(event);
                assert(event_views(self.events@) =~= then.push(event@));
            },
            None => {},
        }
        Ok(())
    }
}

} // verus!
