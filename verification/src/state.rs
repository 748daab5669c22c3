//! The run state of a traced process and the decoding of wait statuses.
use vstd::prelude::*;

use crate::signal::Signal;

verus! {

/// The run state of a traced process.
#[derive(Clone, Copy, Debug, PartialEq, Eq, Structural)]
pub enum State {
    Running,
    Stopped,
    Exited,
    Terminated,
}

impl State {
    /// The state's name, as `Display` shows it.
    pub open spec fn spec_name(self) -> Seq<char> {
        match self {
            State::Running => "running"@,
            State::Stopped => "stopped"@,
            State::Exited => "exited"@,
            State::Terminated => "terminated"@,
        }
    }

    /// The state's name, as `Display` shows it.
    pub fn to_string(&self) -> (r: String)
        ensures
            r@ == self.spec_name(),
    {
        match self {
            State::Running => String::from_str("running"),
            State::Stopped => String::from_str("stopped"),
            State::Exited => String::from_str("exited"),
            State::Terminated => String::from_str("terminated"),
        }
    }
}

/// `WIFEXITED` of libc: the child terminated normally.
pub open spec fn w_if_exited(status: i32) -> bool {
    (status & 0x7f) == 0
}

/// `WEXITSTATUS` of libc: the exit status of a child that terminated normally.
pub open spec fn w_exit_status(status: i32) -> i32 {
    (status >> 8) & 0xff
}

/// `WIFSIGNALED` of libc: the child was terminated by a signal.
pub open spec fn w_if_signaled(status: i32) -> bool {
    (((status & 0x7f) + 1) as i8) >= 2
}

/// `WTERMSIG` of libc: the signal that terminated the child.
pub open spec fn w_term_sig(status: i32) -> i32 {
    status & 0x7f
}

/// `WSTOPSIG` of libc: the signal that stopped the child.
pub open spec fn w_stop_sig(status: i32) -> i32 {
    (status >> 8) & 0xff
}

/// `libc::WIFEXITED`; libc computes `(status & 0x7f) == 0`.
#[verifier::external_body]
fn wifexited(status: i32) -> (r: bool)
    ensures
        r == w_if_exited(status),
{
    libc::WIFEXITED(status)
}

/// `libc::WEXITSTATUS`; libc computes `(status >> 8) & 0xff`.
#[verifier::external_body]
fn wexitstatus(status: i32) -> (r: i32)
    ensures
        r == w_exit_status(status),
{
    libc::WEXITSTATUS(status)
}

/// `libc::WIFSIGNALED`; libc computes `((status & 0x7f) + 1) as i8 >= 2`.
#[verifier::external_body]
fn wifsignaled(status: i32) -> (r: bool)
    ensures
        r == w_if_signaled(status),
{
    libc::WIFSIGNALED(status)
}

/// `libc::WTERMSIG`; libc computes `status & 0x7f`.
#[verifier::external_body]
fn wtermsig(status: i32) -> (r: i32)
    ensures
        r == w_term_sig(status),
{
    libc::WTERMSIG(status)
}

/// `libc::WSTOPSIG`; libc computes `(status >> 8) & 0xff`.
#[verifier::external_body]
fn wstopsig(status: i32) -> (r: i32)
    ensures
        r == w_stop_sig(status),
{
    libc::WSTOPSIG(status)
}

/// The state that a wait status reports.
pub open spec fn status_state(status: i32) -> State {
    if w_if_exited(status) {
        State::Exited
    } else if w_if_signaled(status) {
        State::Terminated
    } else {
        State::Stopped
    }
}

/// The number that a wait status carries with its state: the exit status,
/// the terminating signal or the stopping signal.
pub open spec fn status_signal(status: i32) -> i32 {
    if w_if_exited(status) {
        w_exit_status(status)
    } else if w_if_signaled(status) {
        w_term_sig(status)
    } else {
        w_stop_sig(status)
    }
}

/// A status that libc's `W_EXITCODE(code, 0)` builds reads as an exit with
/// `code`; one that `W_STOPCODE(sig)` builds, as a stop by `sig`; a
/// terminating signal (with or without the core-dump bit), as a termination
/// by that signal.
pub proof fn lemma_status_round_trip(code: i32, sig: i32)
    requires
        0 <= code < 256,
        1 <= sig <= 126,
    ensures
        status_state(code << 8i32) == State::Exited,
        status_signal(code << 8i32) == code,
        status_state((sig << 8i32) | 0x7f) == State::Stopped,
        status_signal((sig << 8i32) | 0x7f) == sig,
        status_state(sig) == State::Terminated,
        status_signal(sig) == sig,
        status_state(sig | 0x80) == State::Terminated,
        status_signal(sig | 0x80) == sig,
{
    let e = code << 8i32;
    let st = (sig << 8i32) | 0x7f;
    let d = sig | 0x80;
    assert((e & 0x7f) == 0 && ((e >> 8i32) & 0xff) == code) by (bit_vector)
        requires
            e == code << 8i32,
            0 <= code < 256,
    ;
    assert((st & 0x7f) == 0x7f && ((st >> 8i32) & 0xff) == sig && !((((st & 0x7f) + 1) as i8)
        >= 2)) by (bit_vector)
        requires
            st == (sig << 8i32) | 0x7f,
            1 <= sig <= 126,
    ;
    assert((sig & 0x7f) == sig && (d & 0x7f) == sig) by (bit_vector)
        requires
            d == sig | 0x80,
            1 <= sig <= 126,
    ;
}

/// A change of run state, as `waitpid` reports it.
#[derive(Debug)]
pub struct StateChange {
    pub state: State,
    pub signal: Signal,
}

impl StateChange {
    /// The state change that `waitpid` reported for a process by storing
    /// `status`; the caller makes the `waitpid` call.
    pub fn wait_for_pid(status: i32) -> (r: StateChange)
        ensures
            r.state == status_state(status),
            r.signal.spec_value() == status_signal(status),
    {
        let (state, signal) = if wifexited(status) {
            (State::Exited, wexitstatus(status))
        } else if wifsignaled(status) {
            (State::Terminated, wtermsig(status))
        } else {
            (State::Stopped, wstopsig(status))
        };
        StateChange { state, signal: Signal::new(signal) }
    }
}

} // verus!
