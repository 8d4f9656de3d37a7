use ak_platform::proc_info::{ParentError, ProcCredentials, ProcInfo, ProcInfoError, ProcessSnapshot};

fn snapshot(pid: u32, parent: Option<u32>, exe: Option<&str>, cmd: &[&str]) -> ProcessSnapshot {
    ProcessSnapshot {
        pid,
        parent,
        exe: exe.map(|e| e.to_string()),
        cmd: cmd.iter().map(|a| a.to_string()).collect(),
    }
}

#[test]
fn not_found_error() {
    let err = ProcInfo::pids_to_scan(u32::MAX, &None).unwrap_err();
    assert!(matches!(err, ProcInfoError::ProcessNotFound(u32::MAX)));
    let err = ProcInfo::from_snapshots(u32::MAX, None, None).unwrap_err();
    assert!(matches!(err, ProcInfoError::ProcessNotFound(u32::MAX)));
}

#[test]
fn second_scan_covers_the_parent() {
    let first = snapshot(42, Some(7), Some("/bin/sh"), &["sh"]);
    assert_eq!(ProcInfo::pids_to_scan(42, &Some(first)).unwrap(), vec![42, 7]);
    let orphan = snapshot(42, None, Some("/bin/sh"), &["sh"]);
    assert_eq!(ProcInfo::pids_to_scan(42, &Some(orphan)).unwrap(), vec![42]);
}

#[test]
fn assembled_from_snapshots() {
    let target = snapshot(42, Some(7), Some("/usr/bin/ssh"), &["ssh", "-v", "host"]);
    let parent = snapshot(7, Some(1), Some("/bin/bash"), &["/bin/bash", "--login"]);
    let info = ProcInfo::from_snapshots(42, Some(target), Some(parent)).unwrap();
    assert_eq!(info.pid, 42);
    assert_eq!(info.exe, "/usr/bin/ssh");
    assert_eq!(info.cmdline, "ssh -v host");
    let p = info.parent.as_ref().unwrap();
    assert_eq!(p.pid, 7);
    assert!(p.parent.is_none());
    assert_eq!(info.parent_cmdline().unwrap(), "/bin/bash --login");
    assert_eq!(info.unique_process_id().unwrap(), "/bin/bash:/bin/bash");
}

#[test]
fn unreadable_parent_is_dropped_and_unreadable_target_fails() {
    let target = snapshot(42, Some(7), Some("/usr/bin/ssh"), &["ssh"]);
    let parent = snapshot(7, None, None, &["init"]);
    let info = ProcInfo::from_snapshots(42, Some(target), Some(parent)).unwrap();
    assert!(info.parent.is_none());
    assert_eq!(info.parent_cmdline().unwrap_err(), ParentError::NoParentProcess);
    assert_eq!(info.parent_cmdline().unwrap_err().to_string(), "Process has no parent process");
    assert_eq!(info.unique_process_id().unwrap_err(), ParentError::ParentNotFound);
    assert_eq!(info.unique_process_id().unwrap_err().to_string(), "failed to get parent process");
    let err = ProcInfo::from_snapshots(9, Some(snapshot(9, None, None, &[])), None).unwrap_err();
    assert!(matches!(err, ProcInfoError::ExeNotAvailable(9)));
    assert_eq!(err.to_string(), "exe path not available for process 9");
    assert_eq!(ProcInfoError::ProcessNotFound(12).to_string(), "process 12 not found");
}

#[test]
fn display_text_format() {
    let info = ProcInfo { pid: 1234, exe: "/bin/x".to_string(), cmdline: "x a".to_string(), parent: None };
    let s = info.display_text();
    assert_eq!(s, "Process <id=1234, exe=/bin/x, cmdline=x a>");
    assert!(s.starts_with("Process <id="));
}

#[test]
fn credentials_pid() {
    assert_eq!(ProcCredentials::new(Some(99)).pid(), 99);
    assert_eq!(ProcCredentials::new(None).pid(), -1);
    assert_eq!(ProcCredentials::current().pid(), -1);
    assert_eq!(ProcCredentials::new(Some(99)).lookup_pid(), Some(99));
    assert_eq!(ProcCredentials::new(Some(-5)).lookup_pid(), None);
    assert_eq!(ProcCredentials::current().lookup_pid(), None);
}

#[test]
fn unique_id_of_empty_parent_command_line() {
    let parent = ProcInfo { pid: 2, exe: "/p".to_string(), cmdline: String::new(), parent: None };
    let info = ProcInfo { pid: 3, exe: "/c".to_string(), cmdline: "c".to_string(), parent: Some(Box::new(parent)) };
    assert_eq!(info.unique_process_id().unwrap(), "/p:");
}
