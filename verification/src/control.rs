//! The run-control decisions shared by `Debugger` and `Attachment`.
use vstd::prelude::*;

use crate::error::{lemma_from_non_fatal, Error, Fatal, NonFatal};
use crate::signal::{SIGCONT, SIGSTOP};
use crate::state::State;
use crate::syscall::Syscall;

verus! {

/// The result of `result` with its error seen as fatal.
pub open spec fn fatal_result<T>(result: Result<T, Error>) -> Result<T, Fatal> {
    match result {
        Ok(x) => Ok(x),
        Err(e) => Err(e.spec_fatal()),
    }
}

/// What resuming tracee `pid` in state `state` takes: nothing if it runs, a
/// `PTRACE_CONT` if it is stopped; a tracee that exited or was terminated
/// cannot resume.
pub open spec fn resume_outcome(pid: i32, state: State) -> Result<Option<Syscall>, Fatal> {
    match state {
        State::Running => Ok(None),
        State::Stopped => Ok(Some(Syscall::Continue { pid })),
        _ => Err(Fatal::CannotResume(state)),
    }
}

/// What stopping tracee `pid` in state `state` takes: a `SIGSTOP` if it
/// runs, nothing if it is stopped; a tracee that exited or was terminated
/// cannot stop.
pub open spec fn stop_outcome(pid: i32, state: State) -> Result<Option<Syscall>, Fatal> {
    match state {
        State::Running => Ok(Some(Syscall::Kill { pid, signal: SIGSTOP })),
        State::Stopped => Ok(None),
        _ => Err(Fatal::CannotStop(state)),
    }
}

/// What resuming tracee `pid` in state `state` takes: see `resume_outcome`.
pub fn resume_call(pid: i32, state: State) -> (r: Result<Option<Syscall>, Error>)
    ensures
        fatal_result(r) == resume_outcome(pid, state),
{
    match state {
        State::Running => Ok(None),
        State::Stopped => Ok(Some(Syscall::Continue { pid })),
        State::Exited | State::Terminated => {
            proof {
                lemma_from_non_fatal(NonFatal::CannotResume(state));
            }
            Err(Error::from(NonFatal::CannotResume(state)))
        },
    }
}

/// What stopping tracee `pid` in state `state` takes: see `stop_outcome`.
/// After the signal, the caller waits for the state change.
pub fn stop_call(pid: i32, state: State) -> (r: Result<Option<Syscall>, Error>)
    ensures
        fatal_result(r) == stop_outcome(pid, state),
{
    match state {
        State::Running => Ok(Some(Syscall::Kill { pid, signal: SIGSTOP })),
        State::Stopped => Ok(None),
        State::Exited | State::Terminated => {
            proof {
                lemma_from_non_fatal(NonFatal::CannotStop(state));
            }
            Err(Error::from(NonFatal::CannotStop(state)))
        },
    }
}

/// The calls that release a stopped tracee `pid`: `PTRACE_DETACH`, then `SIGCONT`.
pub fn detach_calls(pid: i32) -> (r: Vec<Syscall>)
    ensures
        r@.len() == 2,
        r@[0] matches Syscall::Detach { pid: p } && p == pid,
        r@[1] matches Syscall::Kill { pid: p, signal } && p == pid && signal == SIGCONT,
{
    let mut v = Vec::new();
    v.push(Syscall::Detach { pid });
    v.push(Syscall::Kill { pid, signal: SIGCONT });
    v
}

/// A tracee that exited or was terminated is refused both resume and stop,
/// with the error that names its state; the refusal is recoverable.
pub proof fn lemma_finished_tracee_refuses(state: State)
    requires
        state == State::Exited || state == State::Terminated,
    ensures
        Fatal::CannotResume(state).is_recoverable(),
        Fatal::CannotStop(state).is_recoverable(),
        Fatal::CannotResume(state).spec_soften() == NonFatal::CannotResume(state),
        Fatal::CannotStop(state).spec_soften() == NonFatal::CannotStop(state),
{
}

/// Stop is refused exactly where resume is: on a tracee that exited or was
/// terminated, each time with the error that names the state; a running or
/// stopped tracee is refused neither.
pub proof fn lemma_stop_refused_with_resume(pid: i32, state: State)
    ensures
        stop_outcome(pid, state) is Err <==> resume_outcome(pid, state) is Err,
        resume_outcome(pid, state) is Err <==> (state == State::Exited || state
            == State::Terminated),
        stop_outcome(pid, state) matches Err(e) ==> e == Fatal::CannotStop(state),
        resume_outcome(pid, state) matches Err(e) ==> e == Fatal::CannotResume(state),
{
}

} // verus!
