//! A traced process whose run state is followed, without its registers.
use vstd::prelude::*;

use crate::control::{
    detach_calls, fatal_result, resume_call, resume_outcome, stop_call, stop_outcome,
};
use crate::error::Error;
use crate::signal::SIGCONT;
use crate::state::State;
use crate::syscall::Syscall;

verus! {

/// A process that the debugger is attached to.
#[derive(Debug)]
pub struct Attachment {
    pid: i32,
    state: State,
}

impl Attachment {
    pub closed spec fn spec_pid(&self) -> i32 {
        self.pid
    }

    pub closed spec fn spec_state(&self) -> State {
        self.state
    }

    /// An attachment to the tracee `pid`, which the first wait found stopped.
    pub fn new(pid: i32) -> (r: Attachment)
        ensures
            r.spec_pid() == pid,
            r.spec_state() == State::Stopped,
    {
        Attachment { pid, state: State::Stopped }
    }

    pub fn pid(&self) -> (r: i32)
        ensures
            r == self.spec_pid(),
    {
        self.pid
    }

    pub fn state(&self) -> (r: State)
        ensures
            r == self.spec_state(),
    {
        self.state
    }

    /// What resuming the tracee takes: see `resume_outcome`.
    pub fn resume(&self) -> (r: Result<Option<Syscall>, Error>)
        ensures
            fatal_result(r) == resume_outcome(self.spec_pid(), self.spec_state()),
    {
        resume_call(self.pid, self.state)
    }

    /// Records that the tracee was continued.
    pub fn resumed(&mut self)
        ensures
            final(self).spec_state() == State::Running,
            final(self).spec_pid() == old(self).spec_pid(),
    {
        self.state = State::Running;
    }

    /// What stopping the tracee takes: see `stop_outcome`. The attachment keeps
    /// its recorded state when the tracee stops.
    pub fn stop(&self) -> (r: Result<Option<Syscall>, Error>)
        ensures
            fatal_result(r) == stop_outcome(self.spec_pid(), self.spec_state()),
    {
        stop_call(self.pid, self.state)
    }

    /// The calls that release the stopped tracee: `PTRACE_DETACH`, then `SIGCONT`.
    pub fn detach_calls(&self) -> (r: Vec<Syscall>)
        ensures
            r@.len() == 2,
            r@[0] matches Syscall::Detach { pid } && pid == self.spec_pid(),
            r@[1] matches Syscall::Kill { pid, signal } && pid == self.spec_pid() && signal
                == SIGCONT,
    {
        detach_calls(self.pid)
    }
}

} // verus!
