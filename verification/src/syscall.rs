//! The system calls that the library asks its caller to make on its behalf.
use vstd::prelude::*;

use crate::error::Fatal;

verus! {

/// A system call that a decision of the library calls for.
///
/// The library decides; the caller makes the call against the OS and reports
/// back, so that the decisions stay free of I/O.
#[derive(Debug)]
pub enum Syscall {
    /// `ptrace(PTRACE_CONT, pid, 0, 0)`.
    Continue { pid: i32 },
    /// `ptrace(PTRACE_DETACH, pid, 0, 0)`.
    Detach { pid: i32 },
    /// `ptrace(PTRACE_POKEUSER, pid, offset, word)`: store an 8-byte word of the user area.
    PokeUser { pid: i32, offset: usize, word: u64 },
    /// `ptrace(PTRACE_SETFPREGS, pid, 0, fp_regs)`: store the floating-point block.
    SetFpRegs { pid: i32, fp_regs: Vec<u8> },
    /// `kill(pid, signal)`.
    Kill { pid: i32, signal: i32 },
}

impl Syscall {
    /// The name of the system call, as errors report it.
    pub open spec fn spec_name(&self) -> Seq<char> {
        match self {
            Syscall::Kill { .. } => "kill"@,
            _ => "ptrace"@,
        }
    }

    /// The name of the system call, as errors report it.
    pub fn name(&self) -> (r: &'static str)
        ensures
            r@ == self.spec_name(),
    {
        match self {
            Syscall::Kill { .. } => "kill",
            _ => "ptrace",
        }
    }
}

/// The outcome of a system call that returned `status`: a negative status
/// is a failure, reported with the call's name and the `errno` it left.
pub fn check_status(name: &'static str, status: i64) -> (r: Result<i64, Fatal>)
    ensures
        status >= 0 ==> r == Ok::<i64, Fatal>(status),
        status < 0 ==> (r matches Err(Fatal::SyscallFailed { name: n, errno: _ }) && n@ == name@),
{
    if status < 0 {
        return Err(Fatal::syscall(name));
    }
    Ok(status)
}

} // verus!
