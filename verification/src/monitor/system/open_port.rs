//! The check of which risky ports are open.

use crate::info::service::{service_views, Service, ServiceView};
use crate::monitor::event::{Event, Priority, Severity};
use crate::text::{decimal, decimal_string};
use vstd::prelude::*;
use vstd::string::*;

verus! {

/// What the check says of an open port.
pub open spec fn port_alert(port: u16) -> Seq<char> {
    "Port"@ + decimal(port as nat) + " OPEN"@
}

/// What the check says of the services `ss`: of each whose port is among
/// `risky`, that the port is open, in the order of the services.
pub open spec fn ports_alert(ss: Seq<ServiceView>, risky: Seq<u16>) -> Seq<char>
    decreases ss.len(),
{
    if ss.len() == 0 {
        Seq::<char>::empty()
    } else if risky.contains(ss.last().port) {
        ports_alert(ss.drop_last(), risky) + port_alert(ss.last().port)
    } else {
        ports_alert(ss.drop_last(), risky)
    }
}

/// `event` is the new event that reports `alert`: a warning where the
/// check is active, and for debugging where it is not.
pub open spec fn is_port_event(
    event: crate::monitor::event::EventView,
    alert: Seq<char>,
    is_active: bool,
) -> bool {
    &&& event.is_new()
    &&& event.name == "本地开放端口监控"@
    &&& event.description == alert
    &&& event.priority == Priority::High
    &&& event.severity == if is_active {
        Severity::Warning
    } else {
        Severity::Debug
    }
    &&& event.category == "本地主机监控"@
}

fn is_risky(ports: &Vec<u16>, port: u16) -> (b: bool)
    ensures
        b == ports@.contains(port),
{
    let mut i: usize = 0;
    while i < ports.len()
        invariant
            i <= ports.len(),
            forall|j: int| 0 <= j < i ==> ports@[j] != port,
        decreases ports.len() - i,
    {
        if ports[i] == port {
            return true;
        }
        i += 1;
    }
    false
}

/// The event, if any, that reports the services of `services` whose port
/// is among `high_risk_ports`. The event is a warning where the check is
/// active, and for debugging where it is not.
pub fn check_open_port(high_risk_ports: &Vec<u16>, is_active: &bool, services: &Vec<Service>) -> (r:
    Option<Event>)
    ensures
        r is Some <==> ports_alert(service_views(services@), high_risk_ports@).len() > 0,
        r matches Some(event) ==> is_port_event(
            event@,
            ports_alert(service_views(services@), high_risk_ports@),
            *is_active,
        ),
{
    let ghost all = service_views(services@);
    let mut alert_contents = String::new();
    let mut i: usize = 0;
    assert(all.take(0) =~= Seq::<ServiceView>::empty());
    while i < services.len()
        invariant
            i <= services.len(),
            all == service_views(services@),
            alert_contents@ == ports_alert(all.take(i as int), high_risk_ports@),
        decreases services.len() - i,
    {
        proof {
            let t = all.take(i + 1);
            assert(t.drop_last() =~= all.take(i as int));
            assert(t.last() == services@[i as int]@);
        }
        let s = &services[i];
        if is_risky(high_risk_ports, s.port()) {
            alert_contents.append("Port");
            let p = decimal_string(s.port() as u128);
            alert_contents.append(p.as_str());
            alert_contents.append(" OPEN");
            assert(alert_contents@ =~= ports_alert(all.take(i + 1), high_risk_ports@));
        }
        i += 1;
    }
    assert(all.take(services.len() as int) =~= all);
    if alert_contents.as_str().unicode_len() == 0 {
        None
    } else {
        let severity = if *is_active {
            Severity::Warning
        } else {
            Severity::Debug
        };
        Some(
            Event::new(
                "本地开放端口监控",
                alert_contents.as_str(),
                Priority::High,
                severity,
                "本地主机监控",
            ),
        )
    }
}

} // verus!
