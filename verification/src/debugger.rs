//! A traced process: its run state and its registers.
use vstd::layout::{align_of, layout_for_type_is_valid};
use vstd::prelude::*;
use vstd::std_specs::convert::{IntoSpec, TryFromSpec};

use crate::control::{
    detach_calls, fatal_result, resume_call, resume_outcome, stop_call, stop_outcome,
};
use crate::error::{Error, Fatal};
use crate::le::{byte_of, le64, push_le, read_le64};
use crate::register::{
    lemma_register_layout, Register, RegisterKind, DEBUG_REGS_OFFSET, FP_REGS_OFFSET,
    FP_REGS_SIZE, GP_REGS_SIZE, USER_AREA_SIZE,
};
use crate::signal::{SIGCONT, SIGSTOP};
use crate::state::{status_signal, status_state, w_if_exited, w_if_signaled, State, StateChange};
use crate::syscall::Syscall;
use crate::user::{reg_value, with_reg};
use crate::value::{lemma_image_len, RegisterTypeError, RegisterValue};

verus! {

/// The user area with the general-purpose block, the floating-point block
/// and the debug registers replaced.
pub open spec fn loaded_area(
    area: Seq<u8>,
    regs: Seq<u8>,
    fp_regs: Seq<u8>,
    debug_regs: Seq<u64>,
) -> Seq<u8> {
    regs + area.subrange(GP_REGS_SIZE as int, FP_REGS_OFFSET as int) + fp_regs + area.subrange(
        FP_REGS_OFFSET + FP_REGS_SIZE,
        DEBUG_REGS_OFFSET as int,
    ) + Seq::new(64, |i: int| byte_of(debug_regs[i / 8], (i % 8) as u64))
}

/// First byte of the 8-byte word that `ptrace` stores to update a register
/// at `offset`: the offset rounded down to the alignment of `u64`.
pub open spec fn word_base(offset: usize) -> int {
    offset as int - (offset as int) % (align_of::<u64>() as int)
}

/// The system call that makes the tracee's copy of register `r` agree with
/// the user area `area` of tracee `pid`.
pub open spec fn sync_call(pid: i32, area: Seq<u8>, r: Register, call: Syscall) -> bool {
    if r.spec_info().kind == RegisterKind::Fp {
        call matches Syscall::SetFpRegs { pid: p, fp_regs } && p == pid && fp_regs@
            == area.subrange(FP_REGS_OFFSET as int, FP_REGS_OFFSET + FP_REGS_SIZE)
    } else {
        let base = word_base(r.spec_info().offset);
        call matches Syscall::PokeUser { pid: p, offset, word } && p == pid && offset == base
            && word == le64(area.subrange(base, base + 8))
    }
}

/// A process under the control of the debugger, with a copy of its registers.
#[derive(Debug)]
pub struct Debugger {
    pid: i32,
    state: State,
    user: Vec<u8>,
}

impl Debugger {
    #[verifier::type_invariant]
    spec fn inv(self) -> bool {
        self.user@.len() == USER_AREA_SIZE
    }

    pub closed spec fn spec_pid(&self) -> i32 {
        self.pid
    }

    pub closed spec fn spec_state(&self) -> State {
        self.state
    }

    /// The debugger's copy of the tracee's user area.
    pub closed spec fn area(&self) -> Seq<u8> {
        self.user@
    }

    /// The copy of the user area always has the size of the user area.
    pub fn area_len(&self) -> (r: usize)
        ensures
            r == self.area().len(),
            r == USER_AREA_SIZE,
    {
        proof {
            use_type_invariant(self);
        }
        self.user.len()
    }

    /// A debugger bound to the stopped tracee `pid`, with a zeroed copy of its
    /// registers.
    pub fn new(pid: i32) -> (r: Debugger)
        ensures
            r.spec_pid() == pid,
            r.spec_state() == State::Stopped,
            r.area() == Seq::new(USER_AREA_SIZE as nat, |i: int| 0u8),
    {
        let user = vec![0u8; USER_AREA_SIZE];
        let r = Debugger { pid, state: State::Stopped, user };
        assert(r.area() =~= Seq::new(USER_AREA_SIZE as nat, |i: int| 0u8));
        r
    }

    pub fn pid(&self) -> (r: i32)
        ensures
            r == self.spec_pid(),
    {
        self.pid
    }

    pub fn state(&self) -> (r: State)
        ensures
            r == self.spec_state(),
    {
        self.state
    }

    /// What resuming the tracee takes: see `resume_outcome`.
    pub fn resume(&self) -> (r: Result<Option<Syscall>, Error>)
        ensures
            fatal_result(r) == resume_outcome(self.spec_pid(), self.spec_state()),
    {
        resume_call(self.pid, self.state)
    }

    /// Whether `self` is `before` after the tracee was continued: running,
    /// with the same tracee and the same copy of its registers.
    pub open spec fn is_resumed_from(self, before: Debugger) -> bool {
        &&& self.spec_state() == State::Running
        &&& self.spec_pid() == before.spec_pid()
        &&& self.area() == before.area()
    }

    /// Whether `self` is `before` after `waitpid` reported `status`: in the
    /// state the status reports, with the same tracee and the same copy of
    /// its registers.
    pub open spec fn is_changed_from(self, before: Debugger, status: i32) -> bool {
        &&& self.spec_state() == status_state(status)
        &&& self.spec_pid() == before.spec_pid()
        &&& self.area() == before.area()
    }

    /// Records that the tracee was continued.
    pub fn resumed(&mut self)
        ensures
            final(self).is_resumed_from(*old(self)),
    {
        proof {
            use_type_invariant(&*self);
        }
        self.state = State::Running;
    }

    /// What stopping the tracee takes: see `stop_outcome`.
    pub fn stop(&self) -> (r: Result<Option<Syscall>, Error>)
        ensures
            fatal_result(r) == stop_outcome(self.spec_pid(), self.spec_state()),
    {
        stop_call(self.pid, self.state)
    }

    /// The calls that release the stopped tracee: `PTRACE_DETACH`, then `SIGCONT`.
    pub fn detach_calls(&self) -> (r: Vec<Syscall>)
        ensures
            r@.len() == 2,
            r@[0] matches Syscall::Detach { pid } && pid == self.spec_pid(),
            r@[1] matches Syscall::Kill { pid, signal } && pid == self.spec_pid() && signal
                == SIGCONT,
    {
        detach_calls(self.pid)
    }

    /// Records the state change that `waitpid` reported by storing `status`;
    /// the caller makes the `waitpid` call and, when the tracee stopped, then
    /// loads its registers.
    pub fn wait_for_state_change(&mut self, status: i32) -> (r: StateChange)
        ensures
            r.state == status_state(status),
            r.signal.spec_value() == status_signal(status),
            final(self).is_changed_from(*old(self), status),
    {
        proof {
            use_type_invariant(&*self);
        }
        let change = StateChange::wait_for_pid(status);
        self.state = change.state;
        change
    }

    /// Whether the copy of the registers is to be loaded again from the
    /// tracee after a state change: exactly when the tracee is stopped, since
    /// only a stopped tracee can be read and a running one changes them.
    pub fn needs_register_load(&self) -> (r: bool)
        ensures
            r == (self.spec_state() == State::Stopped),
    {
        self.state == State::Stopped
    }

    /// Replaces the copy of the registers with what `PTRACE_GETREGS`,
    /// `PTRACE_GETFPREGS` and `PTRACE_PEEKUSER` of each debug register returned.
    pub fn load_registers(&mut self, regs: &[u8; 216], fp_regs: &[u8; 512], debug_regs: &[u64; 8])
        ensures
            final(self).area() == loaded_area(old(self).area(), regs@, fp_regs@, debug_regs@),
            final(self).spec_state() == old(self).spec_state(),
            final(self).spec_pid() == old(self).spec_pid(),
    {
        proof {
            use_type_invariant(&*self);
        }
        let mut v: Vec<u8> = Vec::new();
        let mut i: usize = 0;
        while i < GP_REGS_SIZE
            invariant
                i <= GP_REGS_SIZE,
                regs@.len() == GP_REGS_SIZE,
                v@ == regs@.subrange(0, i as int),
            decreases GP_REGS_SIZE - i,
        {
            v.push(regs[i]);
            i = i + 1;
            assert(v@ =~= regs@.subrange(0, i as int));
        }
        let ghost old_area = self.user@;
        let mut i: usize = GP_REGS_SIZE;
        while i < FP_REGS_OFFSET
            invariant
                GP_REGS_SIZE <= i <= FP_REGS_OFFSET,
                self.user@ == old_area,
                old_area.len() == USER_AREA_SIZE,
                v@ == regs@ + old_area.subrange(GP_REGS_SIZE as int, i as int),
            decreases FP_REGS_OFFSET - i,
        {
            v.push(self.user[i]);
            i = i + 1;
            assert(v@ =~= regs@ + old_area.subrange(GP_REGS_SIZE as int, i as int));
        }
        let ghost prefix = v@;
        let mut i: usize = 0;
        while i < FP_REGS_SIZE
            invariant
                i <= FP_REGS_SIZE,
                fp_regs@.len() == FP_REGS_SIZE,
                v@ == prefix + fp_regs@.subrange(0, i as int),
            decreases FP_REGS_SIZE - i,
        {
            v.push(fp_regs[i]);
            i = i + 1;
            assert(v@ =~= prefix + fp_regs@.subrange(0, i as int));
        }
        let ghost prefix2 = v@;
        let mut i: usize = FP_REGS_OFFSET + FP_REGS_SIZE;
        while i < DEBUG_REGS_OFFSET
            invariant
                FP_REGS_OFFSET + FP_REGS_SIZE <= i <= DEBUG_REGS_OFFSET,
                self.user@ == old_area,
                old_area.len() == USER_AREA_SIZE,
                v@ == prefix2 + old_area.subrange(FP_REGS_OFFSET + FP_REGS_SIZE, i as int),
            decreases DEBUG_REGS_OFFSET - i,
        {
            v.push(self.user[i]);
            i = i + 1;
            assert(v@ =~= prefix2 + old_area.subrange(FP_REGS_OFFSET + FP_REGS_SIZE, i as int));
        }
        let ghost prefix3 = v@;
        let mut k: usize = 0;
        while k < 8
            invariant
                k <= 8,
                debug_regs@.len() == 8,
                v@.len() == prefix3.len() + 8 * k,
                v@.subrange(0, prefix3.len() as int) == prefix3,
                forall|j: int|
                    prefix3.len() <= j < v@.len() ==> #[trigger] v@[j] == byte_of(
                        debug_regs@[(j - prefix3.len()) / 8],
                        ((j - prefix3.len()) % 8) as u64,
                    ),
            decreases 8 - k,
        {
            let ghost before = v@;
            push_le(&mut v, debug_regs[k], 8);
            assert forall|j: int| prefix3.len() <= j < v@.len() implies #[trigger] v@[j] == byte_of(
                debug_regs@[(j - prefix3.len()) / 8],
                ((j - prefix3.len()) % 8) as u64,
            ) by {
                if j >= before.len() {
                    assert(v@[j] == byte_of(debug_regs@[k as int], (j - before.len()) as u64));
                    assert((j - prefix3.len()) / 8 == k as int);
                    assert((j - prefix3.len()) % 8 == j - before.len());
                } else {
                    assert(v@[j] == before[j]);
                }
            }
            assert(v@.subrange(0, prefix3.len() as int) =~= prefix3);
            k = k + 1;
        }
        assert(v@ =~= prefix3 + Seq::new(64, |i: int| byte_of(debug_regs@[i / 8], (i % 8) as u64)));
        assert(prefix3 =~= regs@ + old_area.subrange(GP_REGS_SIZE as int, FP_REGS_OFFSET as int)
            + fp_regs@ + old_area.subrange(FP_REGS_OFFSET + FP_REGS_SIZE, DEBUG_REGS_OFFSET as int));
        assert(v@ =~= loaded_area(old_area, regs@, fp_regs@, debug_regs@));
        self.user = v;
    }

    /// The value register `register` holds in the debugger's copy.
    pub fn read_reg_value(&self, register: Register) -> (r: RegisterValue)
        ensures
            r == reg_value(self.area(), register),
    {
        proof {
            use_type_invariant(self);
            lemma_register_layout(register);
        }
        let info = register.info();
        info.ty.read(self.user.as_slice(), info.offset)
    }

    /// The value register `register` holds, converted to `T`.
    pub fn read_reg<T>(&self, register: Register) -> (r: Result<T, Fatal>) where
        T: TryFrom<RegisterValue, Error = RegisterTypeError>,

        ensures
            <T as TryFromSpec<RegisterValue>>::obeys_try_from_spec() ==> r == match <T as TryFromSpec<
                RegisterValue,
            >>::try_from_spec(reg_value(self.area(), register)) {
                Ok(x) => Ok(x),
                Err(e) => Err(Fatal::RegisterTypeError(e)),
            },
    {
        match T::try_from(self.read_reg_value(register)) {
            Ok(x) => Ok(x),
            Err(e) => Err(Fatal::RegisterTypeError(e)),
        }
    }

    /// A copy of the floating-point block of the user area.
    fn fp_regs(&self) -> (r: Vec<u8>)
        ensures
            r@ == self.area().subrange(FP_REGS_OFFSET as int, FP_REGS_OFFSET + FP_REGS_SIZE),
    {
        proof {
            use_type_invariant(self);
        }
        let mut v: Vec<u8> = Vec::new();
        let mut i: usize = FP_REGS_OFFSET;
        while i < FP_REGS_OFFSET + FP_REGS_SIZE
            invariant
                FP_REGS_OFFSET <= i <= FP_REGS_OFFSET + FP_REGS_SIZE,
                self.user@.len() == USER_AREA_SIZE,
                v@ == self.user@.subrange(FP_REGS_OFFSET as int, i as int),
            decreases FP_REGS_OFFSET + FP_REGS_SIZE - i,
        {
            v.push(self.user[i]);
            i = i + 1;
            assert(v@ =~= self.user@.subrange(FP_REGS_OFFSET as int, i as int));
        }
        v
    }

    /// Stores `value` into register `register` of the debugger's copy and
    /// returns the call that stores it into the tracee: the aligned 8-byte
    /// word that holds a general-purpose or debug register, or the whole
    /// floating-point block. A value of another type than the register's is
    /// refused and changes nothing.
    pub fn write_reg_value(&mut self, register: Register, value: RegisterValue) -> (r: Result<
        Syscall,
        Fatal,
    >)
        ensures
            final(self).spec_pid() == old(self).spec_pid(),
            final(self).spec_state() == old(self).spec_state(),
            value.spec_ty() != register.spec_info().ty ==> {
                &&& r matches Err(Fatal::RegisterTypeError(e))
                &&& e == RegisterTypeError {
                    expected: register.spec_info().ty,
                    actual: value.spec_ty(),
                }
                &&& final(self).area() == old(self).area()
            },
            value.spec_ty() == register.spec_info().ty ==> {
                &&& final(self).area() == with_reg(old(self).area(), register, value)
                &&& r matches Ok(call) && sync_call(
                    old(self).spec_pid(),
                    final(self).area(),
                    register,
                    call,
                )
            },
    {
        proof {
            use_type_invariant(&*self);
            lemma_register_layout(register);
        }
        let info = register.info();
        if info.ty != value.ty() {
            return Err(
                Fatal::RegisterTypeError(RegisterTypeError { expected: info.ty, actual: value.ty() }),
            );
        }
        proof {
            lemma_image_len(value);
        }
        let mut user = vec![0u8; USER_AREA_SIZE];
        std::mem::swap(&mut self.user, &mut user);
        value.write(&mut user, info.offset);
        self.user = user;
        match info.kind {
            RegisterKind::Gp | RegisterKind::SubGp | RegisterKind::Debug => {
                layout_for_type_is_valid::<u64>();
                let align = core::mem::align_of::<u64>();
                let word_offset = info.offset % align;
                proof {
                    vstd::arithmetic::div_mod::lemma_mod_decreases(info.offset as nat, align as nat);
                }
                let base = info.offset - word_offset;
                let word = read_le64(vstd::slice::slice_subrange(self.user.as_slice(), base, base + 8));
                Ok(Syscall::PokeUser { pid: self.pid, offset: base, word })
            },
            RegisterKind::Fp => {
                let fp_regs = self.fp_regs();
                Ok(Syscall::SetFpRegs { pid: self.pid, fp_regs })
            },
        }
    }

    /// Stores `value`, converted into a register value, as `write_reg_value` does.
    pub fn write_reg<V>(&mut self, register: Register, value: V) -> (r: Result<Syscall, Fatal>) where
        V: Into<RegisterValue>,

        ensures
            final(self).spec_pid() == old(self).spec_pid(),
            final(self).spec_state() == old(self).spec_state(),
            <V as IntoSpec<RegisterValue>>::obeys_into_spec() ==> ({
                let v = <V as IntoSpec<RegisterValue>>::into_spec(value);
                &&& v.spec_ty() != register.spec_info().ty ==> (r matches Err(
                    Fatal::RegisterTypeError(e),
                ) && e == RegisterTypeError { expected: register.spec_info().ty, actual: v.spec_ty() }
                    && final(self).area() == old(self).area())
                &&& v.spec_ty() == register.spec_info().ty ==> final(self).area() == with_reg(
                    old(self).area(),
                    register,
                    v,
                )
                &&& v.spec_ty() == register.spec_info().ty ==> (r matches Ok(call) && sync_call(
                    old(self).spec_pid(),
                    final(self).area(),
                    register,
                    call,
                ))
            }),
    {
        self.write_reg_value(register, value.into())
    }
}

/// Stop undoes resume: a stopped tracee is continued with `PTRACE_CONT`,
/// after which it runs; stopping it then sends it `SIGSTOP`, and once
/// `waitpid` reports the stop the tracee is stopped again, the same tracee,
/// with its registers to be loaded again.
pub proof fn lemma_stop_undoes_resume(
    stopped: Debugger,
    running: Debugger,
    again: Debugger,
    status: i32,
)
    requires
        stopped.spec_state() == State::Stopped,
        running.is_resumed_from(stopped),
        again.is_changed_from(running, status),
        !w_if_exited(status),
        !w_if_signaled(status),
    ensures
        resume_outcome(stopped.spec_pid(), stopped.spec_state()) == Ok::<Option<Syscall>, Fatal>(
            Some(Syscall::Continue { pid: stopped.spec_pid() }),
        ),
        stop_outcome(running.spec_pid(), running.spec_state()) == Ok::<Option<Syscall>, Fatal>(
            Some(Syscall::Kill { pid: stopped.spec_pid(), signal: SIGSTOP }),
        ),
        again.spec_state() == stopped.spec_state(),
        again.spec_pid() == stopped.spec_pid(),
        again.area() == stopped.area(),
        stop_outcome(again.spec_pid(), again.spec_state()) == Ok::<Option<Syscall>, Fatal>(None),
{
}

/// Once `waitpid` reports that the tracee exited or was killed by a signal,
/// both resume and stop are refused with the error that names that state.
pub proof fn lemma_finished_tracee_refused(before: Debugger, after: Debugger, status: i32)
    requires
        after.is_changed_from(before, status),
        w_if_exited(status) || w_if_signaled(status),
    ensures
        after.spec_state() == State::Exited || after.spec_state() == State::Terminated,
        stop_outcome(after.spec_pid(), after.spec_state()) == Err::<Option<Syscall>, Fatal>(
            Fatal::CannotStop(after.spec_state()),
        ),
        resume_outcome(after.spec_pid(), after.spec_state()) == Err::<Option<Syscall>, Fatal>(
            Fatal::CannotResume(after.spec_state()),
        ),
{
    crate::control::lemma_stop_refused_with_resume(after.spec_pid(), after.spec_state());
}

/// With 8-byte alignment of `u64` (as on x86-64), the word that `ptrace`
/// stores for a general-purpose or debug register holds all of its bytes.
pub proof fn lemma_word_covers_register(r: Register)
    requires
        align_of::<u64>() == 8,
        r.spec_info().kind != RegisterKind::Fp,
    ensures
        0 <= word_base(r.spec_info().offset) <= r.spec_info().offset,
        r.spec_info().offset + r.spec_info().ty.spec_size() <= word_base(r.spec_info().offset) + 8,
        word_base(r.spec_info().offset) + 8 <= USER_AREA_SIZE,
{
    lemma_register_layout(r);
}

} // verus!
