use minirobot::common::ds::{RunningRole, TaskStatus};
use minirobot::host::Host;
use minirobot::info::cpu::CpuInfo;
use minirobot::info::disk::DiskInfo;
use minirobot::info::hostinfo::HostInfo;
use minirobot::info::memory::MemInfo;
use minirobot::info::network::{get_nics, RawInterface};
use minirobot::info::os::OSInfo;
use minirobot::info::process::{
    filter_processes, gather_process_info, get_filtered_processes_as_list, Filter, ProcessInfo,
    RawProcess,
};
use minirobot::info::service::get_services;
use minirobot::network::peer_manager::{PeerInfo, PeerManager};
use minirobot::network::peer_node_communication::{MessageRequest, MyPeerNodeCommunication};
use minirobot::task::task::Task;

fn raw(pid: &str, cmd: &[&str], exe: Option<&str>) -> RawProcess {
    RawProcess {
        pid: pid.to_string(),
        cmd: cmd.iter().map(|s| s.to_string()).collect(),
        exe: exe.map(|s| s.to_string()),
    }
}

fn raws() -> Vec<RawProcess> {
    vec![
        raw("1", &["/sbin/init", "splash"], Some("/sbin/init")),
        raw("20", &[], None),
        raw("300", &["  python3 -m", "http.server"], Some("/usr/bin/python3")),
        raw("301", &["sshd:", "alice"], None),
    ]
}

fn pids(v: &Vec<ProcessInfo>) -> Vec<String> {
    v.iter().map(|p| p.pid.clone()).collect()
}

#[test]
fn processes_are_gathered() {
    let found = gather_process_info(&raws());
    assert_eq!(found.len(), 4);
    assert_eq!(found[0].command, "/sbin/init");
    assert_eq!(found[0].full_command, "/sbin/init splash");
    assert_eq!(found[0].exe_path, "/sbin/init");
    assert_eq!(found[1].command, "");
    assert_eq!(found[1].full_command, "");
    assert_eq!(found[1].exe_path, "");
    assert_eq!(found[2].command, "python3");
    assert_eq!(found[2].full_command, "  python3 -m http.server");
    assert_eq!(
        found[0].display(),
        format!("{:>10} {:<15} {:<30} {:<}", "1", "/sbin/init", "/sbin/init", "/sbin/init splash")
    );
}

#[test]
fn processes_are_filtered() {
    let all = gather_process_info(&raws());
    assert_eq!(pids(&filter_processes(&all, None, None)), vec!["1", "20", "300", "301"]);
    assert_eq!(pids(&filter_processes(&all, Some(Filter::ByPid("300")), None)), vec!["300"]);
    assert_eq!(pids(&filter_processes(&all, Some(Filter::ByPid("30")), None)), Vec::<String>::new());
    assert_eq!(
        pids(&filter_processes(&all, Some(Filter::ByKeyword("s")), None)),
        vec!["1", "300", "301"]
    );
    assert_eq!(
        pids(&filter_processes(&all, Some(Filter::ByKeyword("s")), Some(Filter::ByKeyword("ssh")))),
        vec!["1", "300"]
    );
    assert_eq!(
        pids(&filter_processes(&all, Some(Filter::ByMask("x")), Some(Filter::ByMask("init")))),
        vec!["1", "20", "300", "301"]
    );
    assert_eq!(
        pids(&filter_processes(&all, None, Some(Filter::ByPid("1")))),
        vec!["1", "20", "300", "301"]
    );
    assert_eq!(pids(&filter_processes(&all, None, Some(Filter::ByKeyword("")))), Vec::<String>::new());
    assert_eq!(
        pids(&get_filtered_processes_as_list(&raws(), Some(Filter::ByKeyword("http")), None)),
        vec!["300"]
    );
}

fn host_info(free: &str) -> HostInfo {
    let raw_nics = vec![RawInterface {
        name: "lo".to_string(),
        mac: None,
        is_up: true,
        ips: Vec::new(),
    }];
    HostInfo::new(
        "box".to_string(),
        OSInfo::new("linux", "x86_64", Some("NAME=L\nVERSION=1\n")),
        CpuInfo::new("Socket(s): 1\n"),
        DiskInfo::new("h\nsda 1G disk M\n", "h\n/dev/sda1 10 4 6 40% /\n"),
        MemInfo::new(free),
        get_nics(&raw_nics),
        gather_process_info(&raws()),
        get_services("h1\nh2\ntcp 0 0 0.0.0.0:22 0.0.0.0:* LISTEN 812/sshd\n").unwrap(),
    )
}

#[test]
fn a_host_is_the_sum_of_its_parts() {
    let info = host_info("Mem: 4096 2048 2048\nSwap: 0 0 0\n");
    assert_eq!(info.hostname(), "box");
    assert_eq!(info.os_info().os_name(), "L");
    assert_eq!(info.cpu_info().cpu_socket_count(), "1");
    assert_eq!(info.disk_info().partition_info().len(), 1);
    assert_eq!(info.mem_info().memory_total(), "4096");
    assert_eq!(info.net_info().len(), 1);
    assert_eq!(info.active_net_info().len(), 0);
    assert_eq!(info.process_info().len(), 4);
    assert_eq!(info.service_info().len(), 1);
    let text = info.display().unwrap();
    assert!(text.starts_with("\nHostname: "));
    for part in ["box", "OS:\n", "CPU:\n", "Memory:\n", "Disk Size Info:", "NIC ", "[PID] "] {
        assert!(text.contains(part), "{}", part);
    }
    assert_eq!(
        minirobot::info::hostinfo::host_display("n", &vec!["a".to_string(), "bc".to_string()]),
        "\nHostname: nabc"
    );
    let host = Host::new(info);
    assert_eq!(host.hostinfo().hostname(), "box");
    assert_eq!(*host.role(), RunningRole::Inquirer);
    assert!(host_info("Mem: 4096 x 18446744073709551616\n").display().is_none());
}

#[test]
fn peers_are_kept_in_order() {
    let mut peers = PeerManager::new("peers.json");
    assert_eq!(peers.file_path(), "peers.json");
    assert!(peers.peers().is_empty());
    peers.add_peer("10.0.0.1:5000".to_string(), true);
    peers.add_peer("10.0.0.2:5000".to_string(), false);
    assert_eq!(peers.peers().len(), 2);
    assert_eq!(peers.peers()[0].address, "10.0.0.1:5000");
    assert!(peers.peers()[0].success);
    assert_eq!(peers.peers()[1].address, "10.0.0.2:5000");
    assert!(!peers.peers()[1].success);
    peers.refresh();
    assert!(peers.peers().is_empty());
    assert_eq!(peers.file_path(), "peers.json");
    peers.load(vec![PeerInfo { address: "a".to_string(), success: true }]);
    assert_eq!(peers.peers().len(), 1);
}

#[test]
fn a_message_is_answered() {
    let service = MyPeerNodeCommunication::default();
    let request = MessageRequest {
        message: "ping".to_string(),
        sender_id: "a".to_string(),
        recipient_id: "b".to_string(),
        timestamp: 5,
    };
    let reply = service.send_message(&request, 1700000000000);
    assert_eq!(reply.response, "Received your message: ping");
    assert_eq!(reply.received_timestamp, 1700000000000);
    assert!(reply.success);
    assert_eq!(reply.error_message, "");
}

#[test]
fn a_new_task_is_created() {
    let task = Task::new("backup", "nightly", None);
    assert_eq!(task.name(), "backup");
    assert_eq!(task.description(), "nightly");
    assert_eq!(*task.status(), TaskStatus::Created);
    assert_eq!(task.id().len(), 36);
    assert_eq!(task.log_file(), format!("/var/log/minirobot/task/{}", task.id()));
    let task = Task::new("backup", "nightly", Some("/tmp/b.log"));
    assert_eq!(task.log_file(), "/tmp/b.log");
    assert_ne!(task.id(), Task::new("backup", "nightly", None).id());
}
