use minirobot::actors::shell::{Completion, Shell};
use minirobot::common::ds::Result;
use std::time::Instant;

fn finished(status: Option<i32>, stdout: &str, stderr: &str) -> Completion {
    Completion::Finished { status, stdout: stdout.to_string(), stderr: stderr.to_string() }
}

const LS_OUTPUT: &str = "total 12\ndrwxr-xr-x 3 root root 4096 Jan  1 00:00 .\ndrwxr-xr-x 1 root root 4096 Jan  1 00:00 ..\n";

const DF_OUTPUT: &str = "Filesystem     Type      Size  Used Avail Use% Mounted on\n/dev/sda1      ext4       50G   20G   28G  42% /\ntmpfs          tmpfs     1.6G     0  1.6G   0% /run\n";

#[test]
fn test_cmd_01() {
    let mut cmd = Shell::new(&0u32, "ls", Some(&["-l", "-a"]), &10u64, None);
    cmd.execute(Instant::now(), finished(Some(0), LS_OUTPUT, ""));
    println!("{:#?}", cmd);
    assert!(cmd.result().is_some_and(|result| result == Result::Success));
    assert!(cmd.stdout().clone().is_some_and(|stdout| stdout.contains("total ")));
}

#[test]
fn test_cmd_02() {
    let mut cmd = Shell::new(&0u32, "df", Some(&["-h", "-T"]), &10u64, None);
    cmd.execute(Instant::now(), finished(Some(0), DF_OUTPUT, ""));
    println!("{:#?}", cmd);
    assert!(cmd.result().is_some_and(|result| result == Result::Success));
    assert!(cmd.stdout().clone().is_some_and(|stdout| stdout.contains("% /")));
}

#[test]
fn new_shell_keeps_what_it_was_given() {
    let cmd = Shell::new(&7u32, "echo", Some(&[" a ", "b\t"]), &3u64, Some("  ok \n"));
    assert_eq!(*cmd.id(), 7);
    assert_eq!(cmd.cmd(), "echo");
    assert_eq!(*cmd.timeout_sec(), 3);
    assert_eq!(*cmd.args(), Some(vec!["a".to_string(), "b".to_string()]));
    assert_eq!(*cmd.check_str(), Some("  ok \n".to_string()));
    assert!(cmd.status().is_none());
    assert!(cmd.stdout().is_none());
    assert!(cmd.stderr().is_none());
    assert!(cmd.result().is_none());
    assert!(cmd.start().is_none());
    assert!(cmd.end().is_none());
    assert!(cmd.cost().is_none());
}

#[test]
fn no_op_command_succeeds() {
    let mut cmd = Shell::new(&1u32, "true", None, &5u64, None);
    let start = Instant::now();
    cmd.execute(start, finished(Some(0), "", ""));
    assert_eq!(*cmd.status(), Some(0));
    assert_eq!(*cmd.result(), Some(Result::Success));
    assert_eq!(*cmd.start(), Some(start));
    assert!(cmd.end().is_some());
    assert!(cmd.cost().is_some_and(|cost| cost.as_secs() < 5));
}

#[test]
fn timed_out_command_fails() {
    let mut cmd = Shell::new(&1u32, "sleep", Some(&["10"]), &1u64, None);
    cmd.execute(Instant::now(), Completion::TimedOut);
    assert_eq!(*cmd.result(), Some(Result::Failed));
    assert_eq!(*cmd.status(), Some(-1));
    assert_eq!(*cmd.stderr(), Some("Command timed out".to_string()));
    assert_eq!(*cmd.stdout(), None);
}

#[test]
fn timed_out_command_fails_whatever_the_check() {
    let mut cmd = Shell::new(&1u32, "sleep", Some(&["10"]), &1u64, Some("done"));
    cmd.execute(Instant::now(), Completion::TimedOut);
    assert_eq!(*cmd.result(), Some(Result::Failed));
    assert_eq!(*cmd.status(), Some(-1));
}

#[test]
fn lost_report_is_an_error() {
    let mut cmd = Shell::new(&1u32, "ls", None, &1u64, None);
    cmd.execute(Instant::now(), Completion::Disconnected);
    assert_eq!(*cmd.result(), Some(Result::Error));
    assert_eq!(*cmd.status(), Some(-2));
    assert_eq!(
        *cmd.stderr(),
        Some("Receiver disconnected before getting a result".to_string())
    );
}

#[test]
fn missing_program_is_an_error() {
    for check in [None, Some("x")] {
        for timeout in [1u64, 100u64] {
            let mut cmd = Shell::new(&1u32, "no-such-program", None, &timeout, check);
            cmd.execute(
                Instant::now(),
                Completion::StartFailed { message: "No such file or directory".to_string() },
            );
            assert_eq!(*cmd.result(), Some(Result::Error));
            assert_eq!(*cmd.status(), Some(-1));
            assert_eq!(*cmd.stderr(), Some("No such file or directory".to_string()));
            assert_eq!(*cmd.stdout(), None);
        }
    }
}

#[test]
fn exit_zero_without_check_succeeds() {
    assert_eq!(finished(Some(0), "anything", "noise").classify(&None), Result::Success);
}

#[test]
fn exit_zero_with_check_absent_fails() {
    let check = Some("READY".to_string());
    assert_eq!(finished(Some(0), "not ready", "").classify(&check), Result::Failed);
    assert_eq!(finished(Some(0), "ready", "").classify(&check), Result::Failed);
    assert_eq!(finished(Some(0), "", "READY").classify(&check), Result::Failed);
}

#[test]
fn exit_zero_with_check_present_succeeds() {
    let check = Some("READY".to_string());
    assert_eq!(finished(Some(0), "now READY.", "").classify(&check), Result::Success);
    assert_eq!(finished(Some(0), "x", "").classify(&Some(String::new())), Result::Success);
}

#[test]
fn exit_code_other_than_zero_fails() {
    let check = Some("READY".to_string());
    assert_eq!(finished(Some(1), "READY", "").classify(&check), Result::Failed);
    assert_eq!(finished(Some(-1), "READY", "Command timed out").classify(&None), Result::Failed);
    assert_eq!(
        finished(Some(-2), "", "Receiver disconnected before getting a result").classify(&None),
        Result::Failed
    );
    assert_eq!(finished(None, "READY", "").classify(&None), Result::Failed);
}

#[test]
fn failed_start_keeps_the_recorded_output() {
    let mut cmd = Shell::new(&1u32, "ls", None, &1u64, None);
    cmd.execute(Instant::now(), finished(Some(0), "first", ""));
    cmd.execute(Instant::now(), Completion::StartFailed { message: "gone".to_string() });
    assert_eq!(*cmd.stdout(), Some("first".to_string()));
    assert_eq!(*cmd.result(), Some(Result::Error));
}

#[test]
fn a_copy_of_a_record_holds_the_same() {
    let mut cmd = Shell::new(&1u32, "ls", None, &1u64, None);
    let start = Instant::now();
    cmd.execute(start, finished(Some(3), "out", "err"));
    let copy = cmd.clone();
    assert_eq!(copy.start(), cmd.start());
    assert_eq!(copy.end(), cmd.end());
    assert_eq!(copy.cost(), cmd.cost());
    assert_eq!(copy.status(), &Some(3));
    assert_eq!(copy.result(), &Some(Result::Failed));
    assert_eq!(copy.stderr(), &Some("err".to_string()));
}

#[test]
fn the_check_is_for_exactly_the_text_given() {
    let cmd = Shell::new(&1u32, "echo", None, &5u64, Some(" ok "));
    assert_eq!(cmd.check_str(), &Some(" ok ".to_string()));
    let mut cmd = Shell::new(&1u32, "echo", None, &5u64, Some(" ok "));
    cmd.execute(Instant::now(), finished(Some(0), "xokx", ""));
    assert_eq!(*cmd.result(), Some(Result::Failed));
    cmd.execute(Instant::now(), finished(Some(0), "x ok x", ""));
    assert_eq!(*cmd.result(), Some(Result::Success));
    cmd.execute(Instant::now(), finished(Some(0), "x OK x", ""));
    assert_eq!(*cmd.result(), Some(Result::Failed));
}

#[test]
fn every_record_keeps_its_own_run() {
    let mut records: Vec<Shell> = (1..=5u32)
        .map(|i| Shell::new(&i, "echo", Some(&[&i.to_string()]), &5u64, None))
        .collect();
    for record in records.iter_mut().rev() {
        let out = format!("{}\n", record.id());
        record.execute(Instant::now(), finished(Some(0), &out, ""));
    }
    for (i, record) in records.iter().enumerate() {
        let i = i as u32 + 1;
        assert_eq!(*record.id(), i);
        assert_eq!(record.stdout(), &Some(format!("{}\n", i)));
        assert_eq!(record.result(), &Some(Result::Success));
    }
}
