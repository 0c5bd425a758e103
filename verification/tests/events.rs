use minirobot::info::disk::DiskInfo;
use minirobot::info::service::{get_services, Service};
use minirobot::common::config::{
    DiskUsageMonitorConfig, MonitorConfig, OpenPortMonitorConfig, TaskStatusMonitorConfig,
};
use minirobot::monitor::desktop_inform::{alert_message, alert_needed, os_send_alert, Notifier};
use minirobot::monitor::event::{Event, Priority, Severity, Status};
use minirobot::monitor::monitor::Monitor;
use minirobot::monitor::system::disk_usage::{check_disk_usage, DiskCheckError};
use minirobot::monitor::system::open_port::check_open_port;
use minirobot::monitor::task::status::check_task_status;

#[test]
fn test_events_01() {
    let mut event = Event::new(
        "user_login",
        "User logged into the system",
        Priority::High,
        Severity::Info,
        "authentication",
    );
    println!("Event: {:?}", event);
    event.set_status(Status::Resolved);
    println!("Updated Event: {:?}", event);
}

#[test]
fn new_event_is_pending() {
    let event = Event::new("n", "d", Priority::Low, Severity::Critical, "c");
    assert_eq!(event.name(), "n");
    assert_eq!(event.description(), "d");
    assert_eq!(*event.priority(), Priority::Low);
    assert_eq!(*event.severity(), Severity::Critical);
    assert_eq!(event.category(), "c");
    assert_eq!(*event.status(), Status::Pending);
    assert_eq!(event.progress(), "");
    assert_eq!(event.id().len(), 36);
    assert!(!event.timestamp().is_empty());
    let other = Event::new("n", "d", Priority::Low, Severity::Critical, "c");
    assert_ne!(event.id(), other.id());
}

#[test]
fn setters_change_one_field() {
    let mut event = Event::with(
        "id-1".to_string(),
        "2024-01-01 00:00:00".to_string(),
        "n",
        "d",
        Priority::Low,
        Severity::Info,
        "c",
    );
    event.set_name("n2");
    event.set_description("d2");
    event.set_priority(Priority::Medium);
    event.set_severity(Severity::Warning);
    event.set_category("c2");
    event.set_status(Status::InProgress);
    assert_eq!(event.id(), "id-1");
    assert_eq!(event.timestamp(), "2024-01-01 00:00:00");
    assert_eq!(event.name(), "n2");
    assert_eq!(event.description(), "d2");
    assert_eq!(*event.priority(), Priority::Medium);
    assert_eq!(*event.severity(), Severity::Warning);
    assert_eq!(event.category(), "c2");
    assert_eq!(*event.status(), Status::InProgress);
    event.note_progress("t1", "half");
    event.note_progress("t2", "done");
    assert_eq!(event.progress(), "\nt1 更新进展:\nhalf\nt2 更新进展:\ndone");
    event.set_progress("later");
    assert!(event.progress().starts_with("\nt1 更新进展:\nhalf\nt2 更新进展:\ndone\n"));
    assert!(event.progress().ends_with(" 更新进展:\nlater"));
}

#[test]
fn alerts_are_for_all_but_debugging() {
    let event = Event::with(
        "i".to_string(),
        "2024-01-01 00:00:00".to_string(),
        "n",
        "disk is full",
        Priority::Low,
        Severity::Warning,
        "host \"a\"",
    );
    assert!(alert_needed(&event));
    assert_eq!(alert_message(&event), "\"host \\\"a\\\"\": disk is full at 2024-01-01 00:00:00!");
    let quiet = Event::new("n", "d", Priority::Low, Severity::Debug, "c");
    assert!(!alert_needed(&quiet));
    assert!(os_send_alert(quiet, Notifier::Missing));
    let make = || Event::new("n", "d", Priority::Low, Severity::Info, "c");
    assert!(!os_send_alert(make(), Notifier::Missing));
    assert!(!os_send_alert(make(), Notifier::Ran { success: false }));
    assert!(os_send_alert(make(), Notifier::Ran { success: true }));
}

const NETSTAT: &str = "Active Internet connections (servers and established)\nProto Recv-Q Send-Q Local Address           Foreign Address         State       PID/Program name\ntcp        0      0 0.0.0.0:22              0.0.0.0:*               LISTEN      812/sshd\ntcp        0      0 127.0.0.1:631           0.0.0.0:*               LISTEN      900/cupsd\ntcp6       0      0 :::8080                 :::*                    LISTEN      -\nudp        0      0 0.0.0.0:68              0.0.0.0:*                           700/dhclient x\ntcp        0      0 10.0.0.2:51234          127.0.0.53:53           ESTABLISHED 1200/curl\ntcp        0      0 nocolon                 1.1.1.1:1               LISTEN      5/x\nshort\n";

#[test]
fn services_are_read_row_by_row() {
    let services = get_services(NETSTAT).unwrap();
    assert_eq!(services.len(), 3);
    let ssh = &services[0];
    assert_eq!(ssh.ip_address(), "0.0.0.0");
    assert_eq!(ssh.port(), 22);
    assert_eq!(ssh.protocol(), "tcp");
    assert_eq!(ssh.status(), "LISTEN");
    assert_eq!(ssh.pid(), 812);
    assert_eq!(ssh.remote_address(), "0.0.0.0:*");
    let web = &services[1];
    assert_eq!(web.ip_address(), "::");
    assert_eq!(web.port(), 8080);
    assert_eq!(web.protocol(), "tcp6");
    assert_eq!(web.status(), "LISTEN");
    assert_eq!(web.pid(), 0);
    let dhcp = &services[2];
    assert_eq!(dhcp.port(), 68);
    assert_eq!(dhcp.status(), "");
    assert_eq!(dhcp.pid(), 700);
    assert_eq!(ssh.local_end(), "0.0.0.0:22 / tcp");
    assert!(ssh.display().contains("[PID] "));
    assert_eq!(get_services("").unwrap().len(), 0);
    assert_eq!(get_services("a\nb\n").unwrap().len(), 0);
}

#[test]
fn a_port_that_is_no_number_spoils_the_report() {
    let report = "h1\nh2\ntcp 0 0 0.0.0.0:22 0.0.0.0:* LISTEN 812/sshd\ntcp 0 0 0.0.0.0:* 0.0.0.0:* LISTEN 1/x\n";
    assert!(get_services(report).is_none());
    let report = "h1\nh2\ntcp 0 0 0.0.0.0:65536 0.0.0.0:* LISTEN 1/x\n";
    assert!(get_services(report).is_none());
    let report = "h1\nh2\ntcp 0 0 0.0.0.0:65535 0.0.0.0:* LISTEN 1/x\n";
    assert_eq!(get_services(report).unwrap()[0].port(), 65535);
}

#[test]
fn service_line_is_laid_out_in_columns() {
    assert_eq!(
        minirobot::info::service::service_display("7", "l", "r", "s"),
        "[PID] 7  [L] l  [R] r  [STATUS] s"
    );
    let s = Service::new("1.2.3.4", &80, "tcp", "LISTEN", &0, "0.0.0.0:*");
    assert!(s.display().starts_with("[PID] 0       [L] "));
}

#[test]
fn open_ports_are_reported() {
    let services = get_services(NETSTAT).unwrap();
    let event = check_open_port(&vec![8080, 22, 23], &true, &services).unwrap();
    assert_eq!(event.name(), "本地开放端口监控");
    assert_eq!(event.description(), "Port22 OPENPort8080 OPEN");
    assert_eq!(*event.priority(), Priority::High);
    assert_eq!(*event.severity(), Severity::Warning);
    assert_eq!(event.category(), "本地主机监控");
    let event = check_open_port(&vec![68], &false, &services).unwrap();
    assert_eq!(*event.severity(), Severity::Debug);
    assert!(check_open_port(&vec![23], &true, &services).is_none());
    assert!(check_open_port(&vec![22], &true, &Vec::new()).is_none());
}

#[test]
fn full_partitions_are_reported() {
    let disk = DiskInfo::new(
        "",
        "h\n/dev/sda1 100 42 58 42% /\n/dev/sda2 10 9 1 90% /boot\n/dev/sda3 10 8 2 80%% /var\n",
    );
    assert_eq!(disk.partition_info().len(), 3);
    let event = check_disk_usage(&80, &true, &disk).unwrap().unwrap();
    assert_eq!(event.name(), "磁盘使用率监控");
    assert_eq!(event.description(), "使用率达到告警阈值80%: /boot-90%/var-80%");
    assert_eq!(*event.priority(), Priority::Low);
    assert_eq!(*event.severity(), Severity::Warning);
    assert_eq!(event.category(), "本地主机监控");
    let event = check_disk_usage(&42, &false, &disk).unwrap().unwrap();
    assert_eq!(event.description(), "使用率达到告警阈值42%: /-42%/boot-90%/var-80%");
    assert_eq!(*event.severity(), Severity::Debug);
    assert!(check_disk_usage(&91, &true, &disk).unwrap().is_none());
    let none = DiskInfo::new("", "");
    assert!(check_disk_usage(&0, &true, &none).unwrap().is_none());
}

#[test]
fn a_share_that_is_no_number_cannot_be_checked() {
    for usage in ["-", "x%", "256%", "%", "1e1%", "-1%"] {
        let report = format!("h\n/dev/sda1 100 99 1 99% /\n/dev/sda2 10 9 1 {} /boot\n", usage);
        let disk = DiskInfo::new("", &report);
        if disk.partition_info().len() == 2 {
            assert_eq!(
                check_disk_usage(&80, &true, &disk).err(),
                Some(DiskCheckError::BadUsage),
                "{}",
                usage
            );
        }
    }
    let disk = DiskInfo::new("", "h\n/dev/sda1 100 99 1 255% /\n");
    assert!(check_disk_usage(&255, &true, &disk).unwrap().is_some());
}

#[test]
fn task_status_is_never_reported() {
    assert!(check_task_status(&Vec::new(), &Vec::new(), &true).is_none());
}

fn config(ports: Vec<u16>) -> MonitorConfig {
    MonitorConfig {
        disk_usage: DiskUsageMonitorConfig { threshold: 80, is_active: true },
        open_port: OpenPortMonitorConfig { high_risk_ports: ports, is_active: true },
        task_status: TaskStatusMonitorConfig {
            default_statuses: Vec::new(),
            task_list: Vec::new(),
            is_active: true,
        },
    }
}

#[test]
fn monitor_keeps_what_its_checks_give() {
    let services = get_services(NETSTAT).unwrap();
    let none = DiskInfo::new("", "");
    let mut monitor = Monitor::new(config(vec![22]));
    assert_eq!(monitor.events().len(), 0);
    assert!(monitor.start(&none, &services).is_ok());
    assert_eq!(monitor.events().len(), 1);
    assert_eq!(monitor.events()[0].description(), "Port22 OPEN");
    assert!(monitor.start(&none, &services).is_ok());
    assert_eq!(monitor.events().len(), 2);
    let bad = DiskInfo::new("", "h\n/dev/sda1 100 42 58 full /\n");
    assert_eq!(monitor.start(&bad, &services), Err(DiskCheckError::BadUsage));
    assert_eq!(monitor.events().len(), 2);
    let disk = DiskInfo::new("", "h\n/dev/sda1 100 90 10 90% /\n");
    assert!(monitor.start(&disk, &services).is_ok());
    assert_eq!(monitor.events().len(), 4);
    assert_eq!(monitor.events()[2].description(), "使用率达到告警阈值80%: /-90%");
    assert_eq!(monitor.events()[3].description(), "Port22 OPEN");
    let mut quiet = Monitor::new(config(vec![]));
    assert!(quiet.start(&none, &services).is_ok());
    assert_eq!(quiet.events().len(), 0);
    assert_eq!(quiet.config().disk_usage.threshold, 80);
}
