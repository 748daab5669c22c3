use ddb::process::{child_report, find_nul};
use ddb::{Attachment, Command, Fatal, Process, State, Syscall};

#[test]
fn command_builder() {
    let c = Command::new(b"prog").arg(b"one").args(vec![b"two".to_vec(), b"three".to_vec()]);
    assert_eq!(c.exec_path().unwrap(), b"prog".to_vec());
    assert_eq!(
        c.exec_args().unwrap(),
        vec![b"one".to_vec(), b"two".to_vec(), b"three".to_vec()]
    );
}

#[test]
fn nul_in_path_is_refused() {
    match Command::new(b"pr\0og").exec_path() {
        Err(Fatal::InvalidArg(e)) => {
            assert_eq!(e.nul_position(), 2);
            assert_eq!(e.into_vec(), b"pr\0og".to_vec());
        }
        other => panic!("unexpected {other:?}"),
    }
}

#[test]
fn nul_in_argument_is_refused() {
    let c = Command::new(b"prog").arg(b"ok").arg(b"b\0ad").arg(b"\0");
    match c.exec_args() {
        Err(Fatal::InvalidArg(e)) => assert_eq!(e.nul_position(), 1),
        other => panic!("unexpected {other:?}"),
    }
    assert_eq!(find_nul(b"abc"), None);
    assert_eq!(find_nul(b"\0"), Some(0));
}

#[test]
fn child_reports() {
    assert!(child_report(Vec::new()).is_ok());
    match child_report(b"`execvp` failed: No such file".to_vec()) {
        Err(Fatal::ChildFailed(m)) => assert_eq!(m, "`execvp` failed: No such file"),
        other => panic!("unexpected {other:?}"),
    }
    match child_report(vec![0xc3]) {
        Err(Fatal::InvalidChildMessage(e)) => {
            assert_eq!(e.utf8_error().valid_up_to(), 0);
            assert_eq!(e.utf8_error().error_len(), None);
            assert_eq!(e.into_bytes(), vec![0xc3]);
        }
        other => panic!("unexpected {other:?}"),
    }
}

#[test]
fn process_holds_pid() {
    assert_eq!(Process::new(42).pid(), 42);
    assert!(matches!(Process::new(42).terminate_call(), Syscall::Kill { pid: 42, signal: 9 }));
}

#[test]
fn attachment_decisions() {
    let mut a = Attachment::new(8);
    assert_eq!(a.pid(), 8);
    assert_eq!(a.state(), State::Stopped);
    assert!(a.stop().unwrap().is_none());
    assert!(matches!(a.resume().unwrap(), Some(Syscall::Continue { pid: 8 })));
    a.resumed();
    assert_eq!(a.state(), State::Running);
    assert!(a.resume().unwrap().is_none());
    assert!(matches!(a.stop().unwrap(), Some(Syscall::Kill { pid: 8, signal: 19 })));
    let calls = a.detach_calls();
    assert!(matches!(calls[0], Syscall::Detach { pid: 8 }));
    assert!(matches!(calls[1], Syscall::Kill { pid: 8, signal: 18 }));
    assert_eq!(calls[1].name(), "kill");
    assert_eq!(calls[0].name(), "ptrace");
}

#[test]
fn child_report_error_lengths() {
    match child_report(vec![b'o', b'k', 0xe2, 0x28, 0xa1]) {
        Err(Fatal::InvalidChildMessage(e)) => {
            assert_eq!(e.utf8_error().valid_up_to(), 2);
            assert_eq!(e.utf8_error().error_len(), Some(1));
            assert_eq!(e.into_bytes(), vec![b'o', b'k', 0xe2, 0x28, 0xa1]);
        }
        other => panic!("unexpected {other:?}"),
    }
}
