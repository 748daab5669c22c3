use ddb::error::NulError;
use ddb::process::child_report;
use ddb::signal::Signal;
use ddb::state::StateChange;
use ddb::syscall::check_status;
use ddb::{Error, Fatal, NonFatal, Recoverable, State};

#[test]
fn signal_descriptions() {
    assert_eq!(Signal::new(9).to_string(), "SIGKILL: Kill signal");
    assert_eq!(Signal::new(6).to_string(), "SIGABRT: Abort signal from abort(3)");
    assert_eq!(Signal::new(29).to_string(), "SIGIO: I/O now possible (4.2BSD)");
    assert_eq!(
        Signal::new(1).to_string(),
        "SIGHUP: Hangup detected on controlling terminal or death of controlling process"
    );
    assert_eq!(Signal::new(0).to_string(), "unknown signal: 0");
    assert_eq!(Signal::new(99).to_string(), "unknown signal: 99");
    assert_eq!(Signal::new(-5).to_string(), "unknown signal: -5");
    assert_eq!(Signal::new(i32::MIN).to_string(), "unknown signal: -2147483648");
}

#[test]
fn wait_status_decoding() {
    let c = StateChange::wait_for_pid(0);
    assert_eq!(c.state, State::Exited);
    assert_eq!(c.signal.value(), 0);
    let c = StateChange::wait_for_pid(3 << 8);
    assert_eq!(c.state, State::Exited);
    assert_eq!(c.signal.value(), 3);
    let c = StateChange::wait_for_pid(9);
    assert_eq!(c.state, State::Terminated);
    assert_eq!(c.signal.value(), 9);
    let c = StateChange::wait_for_pid(0x80 | 11);
    assert_eq!(c.state, State::Terminated);
    assert_eq!(c.signal.value(), 11);
    let c = StateChange::wait_for_pid((5 << 8) | 0x7f);
    assert_eq!(c.state, State::Stopped);
    assert_eq!(c.signal.value(), 5);
}

#[test]
fn recover_splits_errors() {
    let e = Error::from(NonFatal::CannotResume(State::Exited));
    assert!(matches!(e.recover(), Ok(NonFatal::CannotResume(State::Exited))));
    let e = Error::from(Fatal::ChildFailed("boom".to_string()));
    assert!(matches!(e.recover(), Err(Fatal::ChildFailed(m)) if m == "boom"));
    let e = Error::from(Fatal::CannotStop(State::Terminated));
    assert!(matches!(e.recover(), Ok(NonFatal::CannotStop(State::Terminated))));
}

#[test]
fn recoverable_results() {
    let ok: Result<u8, Error> = Ok(4);
    assert!(matches!(ok.recover(), Ok(Ok(4))));
    let soft: Result<u8, Error> = Err(Error::from(NonFatal::CannotStop(State::Exited)));
    assert!(matches!(soft.recover(), Ok(Err(NonFatal::CannotStop(State::Exited)))));
    let soft: Result<u8, Error> = Err(Error::from(NonFatal::CannotStop(State::Exited)));
    assert!(matches!(soft.worsen(), Err(Fatal::CannotStop(State::Exited))));
    let hard: Result<u8, Error> = Err(Error::from(Fatal::ChildFailed("x".to_string())));
    assert!(matches!(hard.worsen(), Err(Fatal::ChildFailed(_))));
    let ok: Result<u8, Error> = Ok(1);
    assert!(matches!(ok.worsen(), Ok(1)));
}

#[test]
fn error_messages() {
    assert_eq!(NonFatal::CannotResume(State::Exited).to_string(), "cannot resume from 'exited' state");
    assert_eq!(NonFatal::CannotStop(State::Running).to_string(), "cannot stop from 'running' state");
    assert_eq!(Fatal::ChildFailed("oops".to_string()).to_string(), "child process failed: oops");
    assert_eq!(
        Fatal::InvalidArg(NulError::new(3, b"abc\0".to_vec())).to_string(),
        "nul byte found in provided data at position: 3"
    );
    let e = child_report(vec![b'a', 0xff]).unwrap_err();
    assert_eq!(
        e.to_string(),
        "invalid child messaage: invalid utf-8 sequence of 1 bytes from index 1"
    );
    match child_report(vec![b'a', 0xe2, 0x82]) {
        Err(Fatal::InvalidChildMessage(e)) => {
            assert_eq!(e.to_string(), "incomplete utf-8 byte sequence from index 1");
        }
        other => panic!("unexpected {other:?}"),
    }
    assert_eq!(NonFatal::CannotStop(State::Exited).worsen().to_string(), "cannot stop from 'exited' state");
}

#[test]
fn syscall_status_check() {
    assert!(matches!(check_status("kill", 0), Ok(0)));
    assert!(matches!(check_status("ptrace", 42), Ok(42)));
    match check_status("ptrace", -1) {
        Err(Fatal::SyscallFailed { name, .. }) => assert_eq!(name, "ptrace"),
        other => panic!("unexpected {other:?}"),
    }
    let f = Fatal::syscall("waitpid");
    assert!(f.to_string().starts_with("`waitpid` failed: "));
}
