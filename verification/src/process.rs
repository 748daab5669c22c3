//! Launching a program: the checks on its path and arguments, and the
//! report that the child sends back when it cannot run the program.
use vstd::prelude::*;

use crate::error::{str_from_utf8, utf8_error_len, Fatal, FromUtf8Error, NulError};
use crate::signal::SIGKILL;
use crate::syscall::Syscall;
use vstd::utf8::{decode_utf8, valid_utf8};

verus! {

/// Whether `s` holds no NUL byte before index `n`.
pub open spec fn nul_free_upto(s: Seq<u8>, n: int) -> bool {
    forall|j: int| 0 <= j < n ==> s[j] != 0
}

/// The index of the first NUL byte of `s`, if any.
pub fn find_nul(s: &[u8]) -> (r: Option<usize>)
    ensures
        r matches Some(i) ==> i < s@.len() && s@[i as int] == 0 && nul_free_upto(s@, i as int),
        r is None ==> nul_free_upto(s@, s@.len() as int),
{
    let n = s.len();
    let mut i: usize = 0;
    while i < n
        invariant
            n == s@.len(),
            i <= n,
            nul_free_upto(s@, i as int),
        decreases n - i,
    {
        if s[i] == 0 {
            return Some(i);
        }
        i = i + 1;
    }
    None
}

/// The bytes of `s` as a C string: refused with the position of its first
/// NUL byte when it holds one, as `CString::new` does.
pub fn c_string(s: &[u8]) -> (r: Result<Vec<u8>, Fatal>)
    ensures
        nul_free_upto(s@, s@.len() as int) ==> (r matches Ok(v) && v@ == s@),
        !nul_free_upto(s@, s@.len() as int) ==> (r matches Err(Fatal::InvalidArg(e)) && s@[e.spec_position() as int] == 0 && nul_free_upto(s@, e.spec_position() as int) && e.spec_bytes() == s@),
{
    match find_nul(s) {
        None => Ok(vstd::slice::slice_to_vec(s)),
        Some(i) => Err(Fatal::InvalidArg(NulError::new(i, vstd::slice::slice_to_vec(s)))),
    }
}

/// Whether no byte string of `args` holds a NUL byte.
pub open spec fn all_nul_free(args: Seq<Seq<u8>>) -> bool {
    forall|k: int| 0 <= k < args.len() ==> nul_free_upto(#[trigger] args[k], args[k].len() as int)
}

/// A program to launch, with its arguments.
#[derive(Clone, Debug)]
pub struct Command {
    program: Vec<u8>,
    args: Vec<Vec<u8>>,
}

impl Command {
    pub closed spec fn spec_program(&self) -> Seq<u8> {
        self.program@
    }

    pub closed spec fn spec_args(&self) -> Seq<Seq<u8>> {
        self.args@.map_values(|a: Vec<u8>| a@)
    }

    /// A command that runs `program` (its bytes as the OS holds them) with no arguments.
    pub fn new(program: &[u8]) -> (r: Command)
        ensures
            r.spec_program() == program@,
            r.spec_args() == Seq::<Seq<u8>>::empty(),
    {
        let r = Command { program: vstd::slice::slice_to_vec(program), args: Vec::new() };
        assert(r.spec_args() =~= Seq::<Seq<u8>>::empty());
        r
    }

    /// The command with one more argument.
    pub fn arg(self, arg: &[u8]) -> (r: Command)
        ensures
            r.spec_program() == self.spec_program(),
            r.spec_args() == self.spec_args().push(arg@),
    {
        let mut args = self.args;
        args.push(vstd::slice::slice_to_vec(arg));
        let r = Command { program: self.program, args };
        assert(r.spec_args() =~= self.spec_args().push(arg@));
        r
    }

    /// The command with the given arguments added, in order.
    pub fn args(self, args: Vec<Vec<u8>>) -> (r: Command)
        ensures
            r.spec_program() == self.spec_program(),
            r.spec_args() == self.spec_args() + args@.map_values(|a: Vec<u8>| a@),
    {
        let mut c = self;
        let n = args.len();
        let mut i: usize = 0;
        while i < n
            invariant
                n == args@.len(),
                i <= n,
                c.spec_program() == self.spec_program(),
                c.spec_args() == self.spec_args() + args@.subrange(0, i as int).map_values(
                    |a: Vec<u8>| a@,
                ),
            decreases n - i,
        {
            c = c.arg(args[i].as_slice());
            proof {
                assert(args@.subrange(0, i + 1).map_values(|a: Vec<u8>| a@) =~= args@.subrange(
                    0,
                    i as int,
                ).map_values(|a: Vec<u8>| a@).push(args@[i as int]@));
            }
            i = i + 1;
        }
        assert(args@.subrange(0, n as int) =~= args@);
        c
    }

    /// The program's path as a C string, checked before the child is forked.
    pub fn exec_path(&self) -> (r: Result<Vec<u8>, Fatal>)
        ensures
            nul_free_upto(self.spec_program(), self.spec_program().len() as int) ==> (r matches Ok(
                v,
            ) && v@ == self.spec_program()),
            !nul_free_upto(self.spec_program(), self.spec_program().len() as int) ==> (r matches Err(
                Fatal::InvalidArg(e),
            ) && e.spec_bytes() == self.spec_program() && self.spec_program()[e.spec_position() as int]
                == 0 && nul_free_upto(self.spec_program(), e.spec_position() as int)),
    {
        c_string(self.program.as_slice())
    }

    /// The arguments as C strings, checked in the child before `execvp`: the
    /// first argument that holds a NUL byte is refused, with its first NUL byte.
    pub fn exec_args(&self) -> (r: Result<Vec<Vec<u8>>, Fatal>)
        ensures
            r is Ok <==> all_nul_free(self.spec_args()),
            r matches Ok(v) ==> v@.map_values(|a: Vec<u8>| a@) == self.spec_args(),
            r is Err ==> (r matches Err(Fatal::InvalidArg(e)) && exists|k: int|
                #![trigger self.spec_args()[k]]
                0 <= k < self.spec_args().len() && all_nul_free(self.spec_args().subrange(0, k))
                    && e.spec_bytes() == self.spec_args()[k] && self.spec_args()[k][e.spec_position() as int]
                    == 0 && nul_free_upto(self.spec_args()[k], e.spec_position() as int)),
    {
        let n = self.args.len();
        let mut out: Vec<Vec<u8>> = Vec::new();
        let mut i: usize = 0;
        while i < n
            invariant
                n == self.args@.len(),
                n == self.spec_args().len(),
                i <= n,
                out@.map_values(|a: Vec<u8>| a@) == self.spec_args().subrange(0, i as int),
                all_nul_free(self.spec_args().subrange(0, i as int)),
            decreases n - i,
        {
            match c_string(self.args[i].as_slice()) {
                Ok(v) => {
                    assert(v@ == self.args@[i as int]@);
                    assert(self.spec_args()[i as int] == self.args@[i as int]@);
                    let ghost prev = out@;
                    out.push(v);
                    assert(out@.map_values(|a: Vec<u8>| a@) =~= prev.map_values(|a: Vec<u8>| a@).push(
                        self.args@[i as int]@,
                    ));
                    assert(out@.map_values(|a: Vec<u8>| a@) =~= self.spec_args().subrange(
                        0,
                        i + 1,
                    ));
                },
                Err(e) => {
                    assert(self.spec_args()[i as int] == self.args@[i as int]@);
                    assert(!all_nul_free(self.spec_args()));
                    return Err(e);
                },
            }
            assert(self.spec_args().subrange(0, i + 1) =~= self.spec_args().subrange(0, i as int).push(
                self.spec_args()[i as int],
            ));
            i = i + 1;
        }
        assert(self.spec_args().subrange(0, n as int) =~= self.spec_args());
        Ok(out)
    }
}

/// What the parent makes of the bytes that the child wrote to the report
/// pipe before it closed: nothing means the program runs; otherwise the
/// bytes are the child's error message.
pub fn child_report(data: Vec<u8>) -> (r: Result<(), Fatal>)
    ensures
        data@.len() == 0 ==> r is Ok,
        data@.len() != 0 && valid_utf8(data@) ==> (r matches Err(Fatal::ChildFailed(m)) && m@
            == decode_utf8(data@)),
        data@.len() != 0 && !valid_utf8(data@) ==> (r matches Err(Fatal::InvalidChildMessage(e))
            && e.spec_bytes() == data@ && e.spec_error().describes(data@)
            && e.spec_error().spec_error_len() == utf8_error_len(data@)),
{
    if data.len() == 0 {
        return Ok(());
    }
    let error = match str_from_utf8(data.as_slice()) {
        Ok(m) => return Err(Fatal::ChildFailed(String::from_str(m))),
        Err(e) => e,
    };
    Err(Fatal::InvalidChildMessage(FromUtf8Error::new(data, error)))
}

/// A launched process; the caller kills it when it is dropped.
#[derive(Debug)]
pub struct Process {
    pid: i32,
}

impl Process {
    pub closed spec fn spec_pid(&self) -> i32 {
        self.pid
    }

    /// The process with id `pid`, as `fork` returned it.
    pub fn new(pid: i32) -> (r: Process)
        ensures
            r.spec_pid() == pid,
    {
        Process { pid }
    }

    pub fn pid(&self) -> (r: i32)
        ensures
            r == self.spec_pid(),
    {
        self.pid
    }

    /// The call that ends the process when it is dropped: `SIGKILL`; the
    /// caller then reaps it with `waitpid`.
    pub fn terminate_call(&self) -> (r: Syscall)
        ensures
            r matches Syscall::Kill { pid, signal } && pid == self.spec_pid() && signal == SIGKILL,
    {
        Syscall::Kill { pid: self.pid, signal: SIGKILL }
    }
}

} // verus!
