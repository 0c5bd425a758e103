use minirobot::local::cpu::CpuInfo;
use minirobot::local::disk::DiskInfo;
use minirobot::local::memory::MemInfo;
use minirobot::local::network::NetworkInterface;
use minirobot::local::os::OSInfo;
use minirobot::local::process::ProcessInfo;

#[test]
fn processor_on_linux() {
    let cpu = CpuInfo::new(
        "linux",
        "Socket(s): 2\nCore(s) per socket: 4\nThread(s) per core: 2\nSocket(s): 2\n",
    );
    assert_eq!(cpu.get_cpu_socket_count(), "2");
    assert_eq!(cpu.get_cpu_core_count(), "8");
    assert_eq!(cpu.get_cpu_thread_count(), "16");
    assert_eq!(cpu.thread_count(), Some(16));
    let cpu = CpuInfo::new("linux", "Socket(s): 2\nSocket(s): 1\nCore(s) per socket: 4\nThread(s) per core: 2\n");
    assert_eq!(cpu.get_cpu_socket_count(), "1");
    assert_eq!(cpu.get_cpu_core_count(), "4");
    assert_eq!(cpu.get_cpu_thread_count(), "8");
    let cpu = CpuInfo::new("linux", "Socket(s): 2\nCore(s) per socket: 1\nThread(s) per core: 1\n");
    assert_eq!(cpu.get_cpu_thread_count(), "2");
    assert_eq!(cpu.thread_count(), Some(2));
    let cpu = CpuInfo::new("linux", "Socket(s): 2\nCore(s) per socket: 3\nThread(s) per core: 5\n");
    assert_eq!(cpu.get_cpu_thread_count().parse::<usize>(), Ok(2 * 3 * 5));
    let cpu = CpuInfo::new("linux", "");
    assert_eq!(cpu.get_cpu_socket_count(), "0");
    assert_eq!(cpu.get_cpu_thread_count(), "0");
}

#[test]
fn processor_on_windows_and_macos() {
    let cpu = CpuInfo::new("windows", "a b c\nx 4 8\ny 2 4\nz q 1\nshort 1\n");
    assert_eq!(cpu.get_cpu_socket_count(), "1");
    assert_eq!(cpu.get_cpu_core_count(), "6");
    assert_eq!(cpu.get_cpu_thread_count(), "13");
    let cpu = CpuInfo::new("macos", "machdep.cpu.core_count: 8\nmachdep.cpu.thread_count: 16\nmachdep.cpu.core_count: x\n");
    assert_eq!(cpu.get_cpu_socket_count(), "1");
    assert_eq!(cpu.get_cpu_core_count(), "8");
    assert_eq!(cpu.get_cpu_thread_count(), "16");
    let cpu = CpuInfo::new("plan9", "Socket(s): 2\n");
    assert_eq!(cpu.get_cpu_socket_count(), "");
    assert_eq!(cpu.thread_count(), None);
    assert_eq!(
        minirobot::local::cpu::cpu_display("1", "2", "3"),
        "CPU Socket Count: 1\nCPU Core Count: 2\nCPU Thread Count: 3\n"
    );
    assert!(cpu.display().contains("CPU Core Count: "));
}

#[test]
fn memory_on_every_platform() {
    let mem = MemInfo::new("linux", "      total used free\nMem: 15883 5702 1716\nSwap: 2047 11 2036\n");
    assert_eq!(mem.get_memory_total(), "15883 MBytes");
    assert_eq!(mem.get_memory_using(), "5702 MBytes");
    assert_eq!(mem.get_swap_total(), "2047 MBytes");
    assert_eq!(mem.get_swap_using(), "11 MBytes");
    let mem = MemInfo::new("linux", "Mem: 3000000000 -5\n");
    assert_eq!(mem.get_memory_total(), "0 MBytes");
    assert_eq!(mem.get_memory_using(), "-5 MBytes");
    assert_eq!(mem.get_swap_total(), "0 MBytes");
    let mem = MemInfo::new(
        "windows",
        "TotalVisibleMemorySize 16777216\nFreePhysicalMemory 4194304\nTotalVirtualMemorySize 2048\nFreeVirtualMemory 4095\nFreeVirtualMemory 1 2\n",
    );
    assert_eq!(mem.get_memory_total(), "16384 MBytes");
    assert_eq!(mem.get_memory_using(), "12288 MBytes");
    assert_eq!(mem.get_swap_total(), "2 MBytes");
    assert_eq!(mem.get_swap_using(), "-1 MBytes");
    let mem = MemInfo::new("windows", "TotalVisibleMemorySize 2147483647\nFreePhysicalMemory -1\n");
    assert_eq!(mem.get_memory_using(), format!("{} MBytes", i32::MIN / 1024));
    let mem = MemInfo::new("macos", "hw.memsize: 17179\nvm.swapusage: 2048 1024\n");
    assert_eq!(mem.get_memory_total(), "17179 MBytes");
    assert_eq!(mem.get_memory_using(), "0 MBytes");
    assert_eq!(mem.get_swap_total(), "2048 MBytes");
    assert_eq!(mem.get_swap_using(), "1024 MBytes");
    let mem = MemInfo::new("plan9", "Mem: 1 2 3\n");
    assert_eq!(mem.get_memory_total(), "");
    assert_eq!(
        minirobot::local::memory::memory_display("a", "b", "c", "d"),
        "Memory Total: a\nMemory Using: b\nSwap Total: c\nSwap Using: d\n"
    );
    assert!(mem.display().starts_with("Memory Total: "));
}

#[test]
fn disks_on_every_platform() {
    let disk = DiskInfo::new(
        "linux",
        "NAME SIZE\nsda 477G\nsdb 1T extra\n",
        "Filesystem Size Used Avail Use% Mounted on\n/dev/sda1 106G 42G 59G 42% /\nshort\n",
    );
    assert_eq!(disk.get_disk_size_info(), &vec!["Block sda: 477G".to_string()]);
    assert_eq!(
        disk.get_part_size_info(),
        &vec!["/: 42G used, 59G available, 106G total".to_string()]
    );
    let disk = DiskInfo::new("windows", "Caption FreeSpace Size\nC: 10485760 52428800\nD: x 1048575\n", "");
    assert_eq!(
        disk.get_disk_size_info(),
        &vec!["Block C:: 50 MBytes".to_string(), "Block D:: 0 MBytes".to_string()]
    );
    assert_eq!(
        disk.get_part_size_info(),
        &vec![
            "C:: 10 MBytes free, 50 MBytes total".to_string(),
            "D:: 0 MBytes free, 0 MBytes total".to_string()
        ]
    );
    let disk = DiskInfo::new("plan9", "NAME SIZE\nsda 477G\n", "");
    assert!(disk.get_disk_size_info().is_empty() && disk.get_part_size_info().is_empty());
    assert_eq!(
        minirobot::local::disk::disk_display(&vec!["a".to_string(), "b".to_string()], &vec![]),
        "Disk Size Info:\n  a\n  b\nPart Size Info:\n"
    );
    assert!(disk.display().starts_with("Disk Size Info:\n"));
}

#[test]
fn system_on_every_platform() {
    let release = "PRETTY_NAME=\"Debian 12\"\nNAME=\"Debian GNU/Linux\"\nVERSION_ID=\"12\"\nNAME=other\n";
    let os = OSInfo::new("linux", "x86_64", Some(release), Some(release));
    assert_eq!(os.get_os_type(), "linux");
    assert_eq!(os.get_os_name(), "Debian GNU/Linux");
    assert_eq!(os.get_os_version(), "12");
    assert_eq!(os.get_os_arch(), "x86_64");
    let os = OSInfo::new("linux", "x86_64", None, Some("ID=x\n"));
    assert_eq!(os.get_os_name(), "Unknown");
    assert_eq!(os.get_os_version(), "Unknown");
    let os = OSInfo::new(
        "windows",
        "x86_64",
        Some("  Microsoft Windows [Version 10.0.19045]\n"),
        Some("Caption Version\n  Microsoft Windows 10 Pro 10.0.19045  \n"),
    );
    assert_eq!(os.get_os_name(), "Microsoft Windows");
    assert_eq!(os.get_os_version(), "Microsoft Windows 10 Pro 10.0.19045");
    let os = OSInfo::new("windows", "x86_64", Some("nothing\n"), Some("Caption\n"));
    assert_eq!(os.get_os_name(), "Unknown");
    assert_eq!(os.get_os_version(), "Unknown");
    let os = OSInfo::new(
        "macos",
        "aarch64",
        None,
        Some("ProductName: macOS\nProductVersion: 14.1 beta\nProductVersion:\t14.2\n"),
    );
    assert_eq!(os.get_os_name(), "macOS");
    assert_eq!(os.get_os_version(), "14.2");
    let os = OSInfo::new("plan9", "mips", Some("NAME=x\n"), Some("VERSION_ID=1\n"));
    assert_eq!(os.get_os_name(), "");
    assert_eq!(os.get_os_version(), "");
    assert_eq!(
        minirobot::local::os::os_display("a", "b", "c", "d"),
        "OS Type: a\nOS Name: b\nOS Version: c\nOS Architecture: d\n"
    );
    assert!(os.display().contains("OS Architecture: "));
}

#[test]
fn interface_and_process_keep_what_they_were_given() {
    let nic = NetworkInterface::new("lo", "00", "UP", &vec!["127.0.0.1".to_string()], &vec![]);
    assert_eq!(nic.get_name(), "lo");
    assert_eq!(nic.get_mac(), "00");
    assert_eq!(nic.get_status(), "UP");
    assert_eq!(nic.get_ipv4(), &vec!["127.0.0.1".to_string()]);
    assert!(nic.get_ipv6().is_empty());
    assert_eq!(
        minirobot::local::network::interface_display(
            "lo",
            "UP",
            "00",
            &vec!["a".to_string(), "b".to_string()],
            &vec![]
        ),
        "NIC lo status UP\n  MAC: 00\n  IPv4: a b\n  IPv6:\n"
    );
    assert!(nic.display().contains("\n  IPv4: "));
    let p = ProcessInfo::new("1", "init", "/sbin/init", "init --x");
    assert_eq!(p.pid, "1");
    assert_eq!(p.command, "init");
    assert_eq!(p.exe_path, "/sbin/init");
    assert_eq!(p.full_command, "init --x");
}
