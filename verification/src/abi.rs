//! The x86-64 facts that the register table answers to, written down apart
//! from it: the field order of libc's `user_regs_struct`, the slots of
//! `user_fpregs_struct`, the DWARF register numbers of the System V x86-64
//! psABI, and the names of the parts of a general-purpose register.
use vstd::prelude::*;

use crate::register::{
    lemma_name_round_trip, lemma_register_layout, Register, RegisterKind, FP_REGS_OFFSET,
    USER_AREA_SIZE,
};
use crate::user::{lemma_write_frame, overlap, reg_value, with_reg};
use crate::value::{RegisterType, RegisterValue};

verus! {

/// Number of 8-byte fields of `user_regs_struct`.
pub open spec fn user_regs_field_count() -> int {
    27
}

/// The name of field `i` of libc's `user_regs_struct` for x86-64, in
/// declaration order; every field is 8 bytes wide.
pub open spec fn user_regs_field(i: int) -> Seq<char> {
    if i == 0 {
        "r15"@
    } else if i == 1 {
        "r14"@
    } else if i == 2 {
        "r13"@
    } else if i == 3 {
        "r12"@
    } else if i == 4 {
        "rbp"@
    } else if i == 5 {
        "rbx"@
    } else if i == 6 {
        "r11"@
    } else if i == 7 {
        "r10"@
    } else if i == 8 {
        "r9"@
    } else if i == 9 {
        "r8"@
    } else if i == 10 {
        "rax"@
    } else if i == 11 {
        "rcx"@
    } else if i == 12 {
        "rdx"@
    } else if i == 13 {
        "rsi"@
    } else if i == 14 {
        "rdi"@
    } else if i == 15 {
        "orig_rax"@
    } else if i == 16 {
        "rip"@
    } else if i == 17 {
        "cs"@
    } else if i == 18 {
        "eflags"@
    } else if i == 19 {
        "rsp"@
    } else if i == 20 {
        "ss"@
    } else if i == 21 {
        "fs_base"@
    } else if i == 22 {
        "gs_base"@
    } else if i == 23 {
        "ds"@
    } else if i == 24 {
        "es"@
    } else if i == 25 {
        "fs"@
    } else if i == 26 {
        "gs"@
    } else {
        Seq::empty()
    }}

/// The register that DWARF number `n` stands for in the System V x86-64
/// psABI (its table of DWARF register numbers), by the name this library
/// gives it; `rFLAGS` (49) is named `eflags`, as in `user_regs_struct`.
/// Numbers that the psABI leaves unused have the empty name.
pub open spec fn dwarf_register_name(n: int) -> Seq<char> {
    if n == 0 {
        "rax"@
    } else if n == 1 {
        "rdx"@
    } else if n == 2 {
        "rcx"@
    } else if n == 3 {
        "rbx"@
    } else if n == 4 {
        "rsi"@
    } else if n == 5 {
        "rdi"@
    } else if n == 6 {
        "rbp"@
    } else if n == 7 {
        "rsp"@
    } else if n == 8 {
        "r8"@
    } else if n == 9 {
        "r9"@
    } else if n == 10 {
        "r10"@
    } else if n == 11 {
        "r11"@
    } else if n == 12 {
        "r12"@
    } else if n == 13 {
        "r13"@
    } else if n == 14 {
        "r14"@
    } else if n == 15 {
        "r15"@
    } else if n == 16 {
        "rip"@
    } else if n == 17 {
        "xmm0"@
    } else if n == 18 {
        "xmm1"@
    } else if n == 19 {
        "xmm2"@
    } else if n == 20 {
        "xmm3"@
    } else if n == 21 {
        "xmm4"@
    } else if n == 22 {
        "xmm5"@
    } else if n == 23 {
        "xmm6"@
    } else if n == 24 {
        "xmm7"@
    } else if n == 25 {
        "xmm8"@
    } else if n == 26 {
        "xmm9"@
    } else if n == 27 {
        "xmm10"@
    } else if n == 28 {
        "xmm11"@
    } else if n == 29 {
        "xmm12"@
    } else if n == 30 {
        "xmm13"@
    } else if n == 31 {
        "xmm14"@
    } else if n == 32 {
        "xmm15"@
    } else if n == 33 {
        "st0"@
    } else if n == 34 {
        "st1"@
    } else if n == 35 {
        "st2"@
    } else if n == 36 {
        "st3"@
    } else if n == 37 {
        "st4"@
    } else if n == 38 {
        "st5"@
    } else if n == 39 {
        "st6"@
    } else if n == 40 {
        "st7"@
    } else if n == 41 {
        "mm0"@
    } else if n == 42 {
        "mm1"@
    } else if n == 43 {
        "mm2"@
    } else if n == 44 {
        "mm3"@
    } else if n == 45 {
        "mm4"@
    } else if n == 46 {
        "mm5"@
    } else if n == 47 {
        "mm6"@
    } else if n == 48 {
        "mm7"@
    } else if n == 49 {
        "eflags"@
    } else if n == 50 {
        "es"@
    } else if n == 51 {
        "cs"@
    } else if n == 52 {
        "ss"@
    } else if n == 53 {
        "ds"@
    } else if n == 54 {
        "fs"@
    } else if n == 55 {
        "gs"@
    } else if n == 56 {
        Seq::empty()
    } else if n == 57 {
        Seq::empty()
    } else if n == 58 {
        "fs.base"@
    } else if n == 59 {
        "gs.base"@
    } else if n == 60 {
        Seq::empty()
    } else if n == 61 {
        Seq::empty()
    } else if n == 62 {
        "tr"@
    } else if n == 63 {
        "ldtr"@
    } else if n == 64 {
        "mxcsr"@
    } else if n == 65 {
        "fcw"@
    } else if n == 66 {
        "fsw"@
    } else {
        Seq::empty()
    }}

/// Number of DWARF register numbers that the psABI table lists.
pub open spec fn dwarf_register_count() -> int {
    67
}

/// The name of the part of general-purpose register `parent` that is
/// `size` bytes wide and starts `byte` bytes into it: `eax`, `ax`, `al` and
/// `ah` for `rax` (and likewise for `rbx`, `rcx`, `rdx`); `esi`, `si` and
/// `sil` for `rsi` (likewise `rdi`, `rbp`, `rsp`); `r8d`, `r8w` and `r8b`
/// for `r8` (likewise up to `r15`). Other parts have the empty name.
pub open spec fn sub_register_name(parent: Seq<char>, size: nat, byte: int) -> Seq<char> {
    if parent.len() == 3 && parent[0] == 'r' && parent[2] == 'x' {
        let c = parent[1];
        if size == 4 && byte == 0 {
            seq!['e', c, 'x']
        } else if size == 2 && byte == 0 {
            seq![c, 'x']
        } else if size == 1 && byte == 0 {
            seq![c, 'l']
        } else if size == 1 && byte == 1 {
            seq![c, 'h']
        } else {
            Seq::empty()
        }
    } else if parent.len() == 3 && parent[0] == 'r' && parent[1] != '1' {
        let low = parent.subrange(1, 3);
        if size == 4 && byte == 0 {
            seq!['e'] + low
        } else if size == 2 && byte == 0 {
            low
        } else if size == 1 && byte == 0 {
            low + seq!['l']
        } else {
            Seq::empty()
        }
    } else {
        if size == 4 && byte == 0 {
            parent + seq!['d']
        } else if size == 2 && byte == 0 {
            parent + seq!['w']
        } else if size == 1 && byte == 0 {
            parent + seq!['b']
        } else {
            Seq::empty()
        }
    }
}
/// Each full general-purpose register sits in the user area at the offset
/// of its own field of `user_regs_struct` (`rip` at 128, `orig_rax` at 120).
pub proof fn lemma_gp_offsets(r: Register)
    requires
        r.spec_info().kind == RegisterKind::Gp,
    ensures
        r.spec_info().ty == RegisterType::U64,
        r.spec_info().offset % 8 == 0,
        0 <= r.spec_info().offset / 8 < user_regs_field_count(),
        user_regs_field((r.spec_info().offset / 8) as int) == r.spec_info().name@,
{
    lemma_register_layout(r);
    match r {
        Register::rax => {
            assert(user_regs_field(10) == "rax"@);
        },
        Register::rdx => {
            assert(user_regs_field(12) == "rdx"@);
        },
        Register::rcx => {
            assert(user_regs_field(11) == "rcx"@);
        },
        Register::rbx => {
            assert(user_regs_field(5) == "rbx"@);
        },
        Register::rsi => {
            assert(user_regs_field(13) == "rsi"@);
        },
        Register::rdi => {
            assert(user_regs_field(14) == "rdi"@);
        },
        Register::rbp => {
            assert(user_regs_field(4) == "rbp"@);
        },
        Register::rsp => {
            assert(user_regs_field(19) == "rsp"@);
        },
        Register::r8 => {
            assert(user_regs_field(9) == "r8"@);
        },
        Register::r9 => {
            assert(user_regs_field(8) == "r9"@);
        },
        Register::r10 => {
            assert(user_regs_field(7) == "r10"@);
        },
        Register::r11 => {
            assert(user_regs_field(6) == "r11"@);
        },
        Register::r12 => {
            assert(user_regs_field(3) == "r12"@);
        },
        Register::r13 => {
            assert(user_regs_field(2) == "r13"@);
        },
        Register::r14 => {
            assert(user_regs_field(1) == "r14"@);
        },
        Register::r15 => {
            assert(user_regs_field(0) == "r15"@);
        },
        Register::rip => {
            assert(user_regs_field(16) == "rip"@);
        },
        Register::eflags => {
            assert(user_regs_field(18) == "eflags"@);
        },
        Register::cs => {
            assert(user_regs_field(17) == "cs"@);
        },
        Register::fs => {
            assert(user_regs_field(25) == "fs"@);
        },
        Register::gs => {
            assert(user_regs_field(26) == "gs"@);
        },
        Register::ss => {
            assert(user_regs_field(20) == "ss"@);
        },
        Register::ds => {
            assert(user_regs_field(23) == "ds"@);
        },
        Register::es => {
            assert(user_regs_field(24) == "es"@);
        },
        Register::orig_rax => {
            assert(user_regs_field(15) == "orig_rax"@);
        },
        _ => {},
    }
}

/// Two different full general-purpose registers never share a byte of the
/// user area.
pub proof fn lemma_gp_disjoint(r: Register, q: Register)
    requires
        r.spec_info().kind == RegisterKind::Gp,
        q.spec_info().kind == RegisterKind::Gp,
        r != q,
    ensures
        !overlap(r, q),
{
    lemma_gp_offsets(r);
    lemma_gp_offsets(q);
    lemma_name_round_trip(r);
    lemma_name_round_trip(q);
    if r.spec_info().offset == q.spec_info().offset {
        assert(r.spec_info().name@ == q.spec_info().name@);
        assert(false);
    }
}

/// Storing into one full general-purpose register leaves the value of every
/// other one as it was.
pub proof fn lemma_gp_write_keeps_others(area: Seq<u8>, r: Register, v: RegisterValue, q: Register)
    requires
        area.len() == USER_AREA_SIZE,
        v.spec_ty() == r.spec_info().ty,
        r.spec_info().kind == RegisterKind::Gp,
        q.spec_info().kind == RegisterKind::Gp,
        r != q,
    ensures
        reg_value(with_reg(area, r, v), q) == reg_value(area, q),
{
    lemma_gp_disjoint(r, q);
    lemma_write_frame(area, r, v, q);
}

/// A register's DWARF number is the one the psABI gives the register of
/// that name (`rdx` is 1, `rcx` is 2, `rip` is 16).
pub proof fn lemma_dwarf_numbers(r: Register)
    ensures
        r.spec_info().dwarf_id != -1 ==> {
            &&& 0 <= r.spec_info().dwarf_id < dwarf_register_count()
            &&& dwarf_register_name(r.spec_info().dwarf_id as int) == r.spec_info().name@
        },
{
    match r {
        Register::rax => {
            assert(dwarf_register_name(0) == "rax"@);
        },
        Register::rdx => {
            assert(dwarf_register_name(1) == "rdx"@);
        },
        Register::rcx => {
            assert(dwarf_register_name(2) == "rcx"@);
        },
        Register::rbx => {
            assert(dwarf_register_name(3) == "rbx"@);
        },
        Register::rsi => {
            assert(dwarf_register_name(4) == "rsi"@);
        },
        Register::rdi => {
            assert(dwarf_register_name(5) == "rdi"@);
        },
        Register::rbp => {
            assert(dwarf_register_name(6) == "rbp"@);
        },
        Register::rsp => {
            assert(dwarf_register_name(7) == "rsp"@);
        },
        Register::r8 => {
            assert(dwarf_register_name(8) == "r8"@);
        },
        Register::r9 => {
            assert(dwarf_register_name(9) == "r9"@);
        },
        Register::r10 => {
            assert(dwarf_register_name(10) == "r10"@);
        },
        Register::r11 => {
            assert(dwarf_register_name(11) == "r11"@);
        },
        Register::r12 => {
            assert(dwarf_register_name(12) == "r12"@);
        },
        Register::r13 => {
            assert(dwarf_register_name(13) == "r13"@);
        },
        Register::r14 => {
            assert(dwarf_register_name(14) == "r14"@);
        },
        Register::r15 => {
            assert(dwarf_register_name(15) == "r15"@);
        },
        Register::rip => {
            assert(dwarf_register_name(16) == "rip"@);
        },
        Register::eflags => {
            assert(dwarf_register_name(49) == "eflags"@);
        },
        Register::cs => {
            assert(dwarf_register_name(51) == "cs"@);
        },
        Register::fs => {
            assert(dwarf_register_name(54) == "fs"@);
        },
        Register::gs => {
            assert(dwarf_register_name(55) == "gs"@);
        },
        Register::ss => {
            assert(dwarf_register_name(52) == "ss"@);
        },
        Register::ds => {
            assert(dwarf_register_name(53) == "ds"@);
        },
        Register::es => {
            assert(dwarf_register_name(50) == "es"@);
        },
        Register::fcw => {
            assert(dwarf_register_name(65) == "fcw"@);
        },
        Register::fsw => {
            assert(dwarf_register_name(66) == "fsw"@);
        },
        Register::mxcsr => {
            assert(dwarf_register_name(64) == "mxcsr"@);
        },
        Register::st0 => {
            assert(dwarf_register_name(33) == "st0"@);
        },
        Register::st1 => {
            assert(dwarf_register_name(34) == "st1"@);
        },
        Register::st2 => {
            assert(dwarf_register_name(35) == "st2"@);
        },
        Register::st3 => {
            assert(dwarf_register_name(36) == "st3"@);
        },
        Register::st4 => {
            assert(dwarf_register_name(37) == "st4"@);
        },
        Register::st5 => {
            assert(dwarf_register_name(38) == "st5"@);
        },
        Register::st6 => {
            assert(dwarf_register_name(39) == "st6"@);
        },
        Register::st7 => {
            assert(dwarf_register_name(40) == "st7"@);
        },
        Register::mm0 => {
            assert(dwarf_register_name(41) == "mm0"@);
        },
        Register::mm1 => {
            assert(dwarf_register_name(42) == "mm1"@);
        },
        Register::mm2 => {
            assert(dwarf_register_name(43) == "mm2"@);
        },
        Register::mm3 => {
            assert(dwarf_register_name(44) == "mm3"@);
        },
        Register::mm4 => {
            assert(dwarf_register_name(45) == "mm4"@);
        },
        Register::mm5 => {
            assert(dwarf_register_name(46) == "mm5"@);
        },
        Register::mm6 => {
            assert(dwarf_register_name(47) == "mm6"@);
        },
        Register::mm7 => {
            assert(dwarf_register_name(48) == "mm7"@);
        },
        Register::xmm0 => {
            assert(dwarf_register_name(17) == "xmm0"@);
        },
        Register::xmm1 => {
            assert(dwarf_register_name(18) == "xmm1"@);
        },
        Register::xmm2 => {
            assert(dwarf_register_name(19) == "xmm2"@);
        },
        Register::xmm3 => {
            assert(dwarf_register_name(20) == "xmm3"@);
        },
        Register::xmm4 => {
            assert(dwarf_register_name(21) == "xmm4"@);
        },
        Register::xmm5 => {
            assert(dwarf_register_name(22) == "xmm5"@);
        },
        Register::xmm6 => {
            assert(dwarf_register_name(23) == "xmm6"@);
        },
        Register::xmm7 => {
            assert(dwarf_register_name(24) == "xmm7"@);
        },
        Register::xmm8 => {
            assert(dwarf_register_name(25) == "xmm8"@);
        },
        Register::xmm9 => {
            assert(dwarf_register_name(26) == "xmm9"@);
        },
        Register::xmm10 => {
            assert(dwarf_register_name(27) == "xmm10"@);
        },
        Register::xmm11 => {
            assert(dwarf_register_name(28) == "xmm11"@);
        },
        Register::xmm12 => {
            assert(dwarf_register_name(29) == "xmm12"@);
        },
        Register::xmm13 => {
            assert(dwarf_register_name(30) == "xmm13"@);
        },
        Register::xmm14 => {
            assert(dwarf_register_name(31) == "xmm14"@);
        },
        Register::xmm15 => {
            assert(dwarf_register_name(32) == "xmm15"@);
        },
        _ => {},
    }
}

/// A lookup by DWARF number finds the register that the psABI gives that
/// number.
pub proof fn lemma_from_dwarf_id_abi(dwarf_id: i32)
    ensures
        Register::spec_from_dwarf_id(dwarf_id) matches Some(r) ==> {
            &&& 0 <= dwarf_id < dwarf_register_count()
            &&& dwarf_register_name(dwarf_id as int) == r.spec_info().name@
        },
{
    if let Some(r) = Register::spec_from_dwarf_id(dwarf_id) {
        crate::register::lemma_from_dwarf_id_sound(dwarf_id);
        lemma_dwarf_numbers(r);
    }
}

/// A subregister is named after the register it is part of and the bytes
/// it covers: `ah` is byte 1 of `rax`, `al` byte 0, `eax` its low four bytes.
pub proof fn lemma_sub_register_names(r: Register)
    requires
        r.spec_info().kind == RegisterKind::SubGp,
    ensures
        r.spec_info().name@ == sub_register_name(
            r.spec_super().spec_info().name@,
            r.spec_info().ty.spec_size(),
            r.spec_info().offset - r.spec_super().spec_info().offset,
        ),
{
    match r {
        Register::eax => {
            reveal_strlit("eax");
            reveal_strlit("rax");
            assert("eax"@ =~= sub_register_name("rax"@, r.spec_info().ty.spec_size(), r.spec_info().offset - r.spec_super().spec_info().offset));
        },
        Register::edx => {
            reveal_strlit("edx");
            reveal_strlit("rdx");
            assert("edx"@ =~= sub_register_name("rdx"@, r.spec_info().ty.spec_size(), r.spec_info().offset - r.spec_super().spec_info().offset));
        },
        Register::ecx => {
            reveal_strlit("ecx");
            reveal_strlit("rcx");
            assert("ecx"@ =~= sub_register_name("rcx"@, r.spec_info().ty.spec_size(), r.spec_info().offset - r.spec_super().spec_info().offset));
        },
        Register::ebx => {
            reveal_strlit("ebx");
            reveal_strlit("rbx");
            assert("ebx"@ =~= sub_register_name("rbx"@, r.spec_info().ty.spec_size(), r.spec_info().offset - r.spec_super().spec_info().offset));
        },
        Register::esi => {
            reveal_strlit("esi");
            reveal_strlit("rsi");
            assert("esi"@ =~= sub_register_name("rsi"@, r.spec_info().ty.spec_size(), r.spec_info().offset - r.spec_super().spec_info().offset));
        },
        Register::edi => {
            reveal_strlit("edi");
            reveal_strlit("rdi");
            assert("edi"@ =~= sub_register_name("rdi"@, r.spec_info().ty.spec_size(), r.spec_info().offset - r.spec_super().spec_info().offset));
        },
        Register::ebp => {
            reveal_strlit("ebp");
            reveal_strlit("rbp");
            assert("ebp"@ =~= sub_register_name("rbp"@, r.spec_info().ty.spec_size(), r.spec_info().offset - r.spec_super().spec_info().offset));
        },
        Register::esp => {
            reveal_strlit("esp");
            reveal_strlit("rsp");
            assert("esp"@ =~= sub_register_name("rsp"@, r.spec_info().ty.spec_size(), r.spec_info().offset - r.spec_super().spec_info().offset));
        },
        Register::r8d => {
            reveal_strlit("r8d");
            reveal_strlit("r8");
            assert("r8d"@ =~= sub_register_name("r8"@, r.spec_info().ty.spec_size(), r.spec_info().offset - r.spec_super().spec_info().offset));
        },
        Register::r9d => {
            reveal_strlit("r9d");
            reveal_strlit("r9");
            assert("r9d"@ =~= sub_register_name("r9"@, r.spec_info().ty.spec_size(), r.spec_info().offset - r.spec_super().spec_info().offset));
        },
        Register::r10d => {
            reveal_strlit("r10d");
            reveal_strlit("r10");
            assert("r10d"@ =~= sub_register_name("r10"@, r.spec_info().ty.spec_size(), r.spec_info().offset - r.spec_super().spec_info().offset));
        },
        Register::r11d => {
            reveal_strlit("r11d");
            reveal_strlit("r11");
            assert("r11d"@ =~= sub_register_name("r11"@, r.spec_info().ty.spec_size(), r.spec_info().offset - r.spec_super().spec_info().offset));
        },
        Register::r12d => {
            reveal_strlit("r12d");
            reveal_strlit("r12");
            assert("r12d"@ =~= sub_register_name("r12"@, r.spec_info().ty.spec_size(), r.spec_info().offset - r.spec_super().spec_info().offset));
        },
        Register::r13d => {
            reveal_strlit("r13d");
            reveal_strlit("r13");
            assert("r13d"@ =~= sub_register_name("r13"@, r.spec_info().ty.spec_size(), r.spec_info().offset - r.spec_super().spec_info().offset));
        },
        Register::r14d => {
            reveal_strlit("r14d");
            reveal_strlit("r14");
            assert("r14d"@ =~= sub_register_name("r14"@, r.spec_info().ty.spec_size(), r.spec_info().offset - r.spec_super().spec_info().offset));
        },
        Register::r15d => {
            reveal_strlit("r15d");
            reveal_strlit("r15");
            assert("r15d"@ =~= sub_register_name("r15"@, r.spec_info().ty.spec_size(), r.spec_info().offset - r.spec_super().spec_info().offset));
        },
        Register::ax => {
            reveal_strlit("ax");
            reveal_strlit("rax");
            assert("ax"@ =~= sub_register_name("rax"@, r.spec_info().ty.spec_size(), r.spec_info().offset - r.spec_super().spec_info().offset));
        },
        Register::dx => {
            reveal_strlit("dx");
            reveal_strlit("rdx");
            assert("dx"@ =~= sub_register_name("rdx"@, r.spec_info().ty.spec_size(), r.spec_info().offset - r.spec_super().spec_info().offset));
        },
        Register::cx => {
            reveal_strlit("cx");
            reveal_strlit("rcx");
            assert("cx"@ =~= sub_register_name("rcx"@, r.spec_info().ty.spec_size(), r.spec_info().offset - r.spec_super().spec_info().offset));
        },
        Register::bx => {
            reveal_strlit("bx");
            reveal_strlit("rbx");
            assert("bx"@ =~= sub_register_name("rbx"@, r.spec_info().ty.spec_size(), r.spec_info().offset - r.spec_super().spec_info().offset));
        },
        Register::si => {
            reveal_strlit("si");
            reveal_strlit("rsi");
            assert("si"@ =~= sub_register_name("rsi"@, r.spec_info().ty.spec_size(), r.spec_info().offset - r.spec_super().spec_info().offset));
        },
        Register::di => {
            reveal_strlit("di");
            reveal_strlit("rdi");
            assert("di"@ =~= sub_register_name("rdi"@, r.spec_info().ty.spec_size(), r.spec_info().offset - r.spec_super().spec_info().offset));
        },
        Register::bp => {
            reveal_strlit("bp");
            reveal_strlit("rbp");
            assert("bp"@ =~= sub_register_name("rbp"@, r.spec_info().ty.spec_size(), r.spec_info().offset - r.spec_super().spec_info().offset));
        },
        Register::sp => {
            reveal_strlit("sp");
            reveal_strlit("rsp");
            assert("sp"@ =~= sub_register_name("rsp"@, r.spec_info().ty.spec_size(), r.spec_info().offset - r.spec_super().spec_info().offset));
        },
        Register::r8w => {
            reveal_strlit("r8w");
            reveal_strlit("r8");
            assert("r8w"@ =~= sub_register_name("r8"@, r.spec_info().ty.spec_size(), r.spec_info().offset - r.spec_super().spec_info().offset));
        },
        Register::r9w => {
            reveal_strlit("r9w");
            reveal_strlit("r9");
            assert("r9w"@ =~= sub_register_name("r9"@, r.spec_info().ty.spec_size(), r.spec_info().offset - r.spec_super().spec_info().offset));
        },
        Register::r10w => {
            reveal_strlit("r10w");
            reveal_strlit("r10");
            assert("r10w"@ =~= sub_register_name("r10"@, r.spec_info().ty.spec_size(), r.spec_info().offset - r.spec_super().spec_info().offset));
        },
        Register::r11w => {
            reveal_strlit("r11w");
            reveal_strlit("r11");
            assert("r11w"@ =~= sub_register_name("r11"@, r.spec_info().ty.spec_size(), r.spec_info().offset - r.spec_super().spec_info().offset));
        },
        Register::r12w => {
            reveal_strlit("r12w");
            reveal_strlit("r12");
            assert("r12w"@ =~= sub_register_name("r12"@, r.spec_info().ty.spec_size(), r.spec_info().offset - r.spec_super().spec_info().offset));
        },
        Register::r13w => {
            reveal_strlit("r13w");
            reveal_strlit("r13");
            assert("r13w"@ =~= sub_register_name("r13"@, r.spec_info().ty.spec_size(), r.spec_info().offset - r.spec_super().spec_info().offset));
        },
        Register::r14w => {
            reveal_strlit("r14w");
            reveal_strlit("r14");
            assert("r14w"@ =~= sub_register_name("r14"@, r.spec_info().ty.spec_size(), r.spec_info().offset - r.spec_super().spec_info().offset));
        },
        Register::r15w => {
            reveal_strlit("r15w");
            reveal_strlit("r15");
            assert("r15w"@ =~= sub_register_name("r15"@, r.spec_info().ty.spec_size(), r.spec_info().offset - r.spec_super().spec_info().offset));
        },
        Register::ah => {
            reveal_strlit("ah");
            reveal_strlit("rax");
            assert("ah"@ =~= sub_register_name("rax"@, r.spec_info().ty.spec_size(), r.spec_info().offset - r.spec_super().spec_info().offset));
        },
        Register::dh => {
            reveal_strlit("dh");
            reveal_strlit("rdx");
            assert("dh"@ =~= sub_register_name("rdx"@, r.spec_info().ty.spec_size(), r.spec_info().offset - r.spec_super().spec_info().offset));
        },
        Register::ch => {
            reveal_strlit("ch");
            reveal_strlit("rcx");
            assert("ch"@ =~= sub_register_name("rcx"@, r.spec_info().ty.spec_size(), r.spec_info().offset - r.spec_super().spec_info().offset));
        },
        Register::bh => {
            reveal_strlit("bh");
            reveal_strlit("rbx");
            assert("bh"@ =~= sub_register_name("rbx"@, r.spec_info().ty.spec_size(), r.spec_info().offset - r.spec_super().spec_info().offset));
        },
        Register::al => {
            reveal_strlit("al");
            reveal_strlit("rax");
            assert("al"@ =~= sub_register_name("rax"@, r.spec_info().ty.spec_size(), r.spec_info().offset - r.spec_super().spec_info().offset));
        },
        Register::dl => {
            reveal_strlit("dl");
            reveal_strlit("rdx");
            assert("dl"@ =~= sub_register_name("rdx"@, r.spec_info().ty.spec_size(), r.spec_info().offset - r.spec_super().spec_info().offset));
        },
        Register::cl => {
            reveal_strlit("cl");
            reveal_strlit("rcx");
            assert("cl"@ =~= sub_register_name("rcx"@, r.spec_info().ty.spec_size(), r.spec_info().offset - r.spec_super().spec_info().offset));
        },
        Register::bl => {
            reveal_strlit("bl");
            reveal_strlit("rbx");
            assert("bl"@ =~= sub_register_name("rbx"@, r.spec_info().ty.spec_size(), r.spec_info().offset - r.spec_super().spec_info().offset));
        },
        Register::sil => {
            reveal_strlit("sil");
            reveal_strlit("rsi");
            assert("sil"@ =~= sub_register_name("rsi"@, r.spec_info().ty.spec_size(), r.spec_info().offset - r.spec_super().spec_info().offset));
        },
        Register::dil => {
            reveal_strlit("dil");
            reveal_strlit("rdi");
            assert("dil"@ =~= sub_register_name("rdi"@, r.spec_info().ty.spec_size(), r.spec_info().offset - r.spec_super().spec_info().offset));
        },
        Register::bpl => {
            reveal_strlit("bpl");
            reveal_strlit("rbp");
            assert("bpl"@ =~= sub_register_name("rbp"@, r.spec_info().ty.spec_size(), r.spec_info().offset - r.spec_super().spec_info().offset));
        },
        Register::spl => {
            reveal_strlit("spl");
            reveal_strlit("rsp");
            assert("spl"@ =~= sub_register_name("rsp"@, r.spec_info().ty.spec_size(), r.spec_info().offset - r.spec_super().spec_info().offset));
        },
        Register::r8b => {
            reveal_strlit("r8b");
            reveal_strlit("r8");
            assert("r8b"@ =~= sub_register_name("r8"@, r.spec_info().ty.spec_size(), r.spec_info().offset - r.spec_super().spec_info().offset));
        },
        Register::r9b => {
            reveal_strlit("r9b");
            reveal_strlit("r9");
            assert("r9b"@ =~= sub_register_name("r9"@, r.spec_info().ty.spec_size(), r.spec_info().offset - r.spec_super().spec_info().offset));
        },
        Register::r10b => {
            reveal_strlit("r10b");
            reveal_strlit("r10");
            assert("r10b"@ =~= sub_register_name("r10"@, r.spec_info().ty.spec_size(), r.spec_info().offset - r.spec_super().spec_info().offset));
        },
        Register::r11b => {
            reveal_strlit("r11b");
            reveal_strlit("r11");
            assert("r11b"@ =~= sub_register_name("r11"@, r.spec_info().ty.spec_size(), r.spec_info().offset - r.spec_super().spec_info().offset));
        },
        Register::r12b => {
            reveal_strlit("r12b");
            reveal_strlit("r12");
            assert("r12b"@ =~= sub_register_name("r12"@, r.spec_info().ty.spec_size(), r.spec_info().offset - r.spec_super().spec_info().offset));
        },
        Register::r13b => {
            reveal_strlit("r13b");
            reveal_strlit("r13");
            assert("r13b"@ =~= sub_register_name("r13"@, r.spec_info().ty.spec_size(), r.spec_info().offset - r.spec_super().spec_info().offset));
        },
        Register::r14b => {
            reveal_strlit("r14b");
            reveal_strlit("r14");
            assert("r14b"@ =~= sub_register_name("r14"@, r.spec_info().ty.spec_size(), r.spec_info().offset - r.spec_super().spec_info().offset));
        },
        Register::r15b => {
            reveal_strlit("r15b");
            reveal_strlit("r15");
            assert("r15b"@ =~= sub_register_name("r15"@, r.spec_info().ty.spec_size(), r.spec_info().offset - r.spec_super().spec_info().offset));
        },
        _ => {},
    }
}

/// The byte offset in libc's `user_fpregs_struct` (the `fxsave` area) of
/// the floating-point register of this name: `cwd`, `swd`, `ftw`, `fop`,
/// `rip`, `rdp`, `mxcsr`, `mxcr_mask`, then `st_space` (each `stN` and the
/// `mmN` that aliases it in 16-byte slots) and `xmm_space` (16-byte slots).
/// Other names have no offset.
pub open spec fn fpregs_offset(name: Seq<char>) -> Option<int> {
    if name == "fcw"@ {
        Some(0)
    } else if name == "fsw"@ {
        Some(2)
    } else if name == "ftw"@ {
        Some(4)
    } else if name == "fop"@ {
        Some(6)
    } else if name == "frip"@ {
        Some(8)
    } else if name == "frdp"@ {
        Some(16)
    } else if name == "mxcsr"@ {
        Some(24)
    } else if name == "mxcsrmask"@ {
        Some(28)
    } else if name == "st0"@ {
        Some(32)
    } else if name == "mm0"@ {
        Some(32)
    } else if name == "st1"@ {
        Some(48)
    } else if name == "mm1"@ {
        Some(48)
    } else if name == "st2"@ {
        Some(64)
    } else if name == "mm2"@ {
        Some(64)
    } else if name == "st3"@ {
        Some(80)
    } else if name == "mm3"@ {
        Some(80)
    } else if name == "st4"@ {
        Some(96)
    } else if name == "mm4"@ {
        Some(96)
    } else if name == "st5"@ {
        Some(112)
    } else if name == "mm5"@ {
        Some(112)
    } else if name == "st6"@ {
        Some(128)
    } else if name == "mm6"@ {
        Some(128)
    } else if name == "st7"@ {
        Some(144)
    } else if name == "mm7"@ {
        Some(144)
    } else if name == "xmm0"@ {
        Some(160)
    } else if name == "xmm1"@ {
        Some(176)
    } else if name == "xmm2"@ {
        Some(192)
    } else if name == "xmm3"@ {
        Some(208)
    } else if name == "xmm4"@ {
        Some(224)
    } else if name == "xmm5"@ {
        Some(240)
    } else if name == "xmm6"@ {
        Some(256)
    } else if name == "xmm7"@ {
        Some(272)
    } else if name == "xmm8"@ {
        Some(288)
    } else if name == "xmm9"@ {
        Some(304)
    } else if name == "xmm10"@ {
        Some(320)
    } else if name == "xmm11"@ {
        Some(336)
    } else if name == "xmm12"@ {
        Some(352)
    } else if name == "xmm13"@ {
        Some(368)
    } else if name == "xmm14"@ {
        Some(384)
    } else if name == "xmm15"@ {
        Some(400)
    } else {
        None
    }
}

/// Each floating-point register sits in the user area at the offset of its
/// own slot of `user_fpregs_struct` (`st1` at 256 + 16, `xmm0` at 384).
pub proof fn lemma_fp_offsets(r: Register)
    requires
        r.spec_info().kind == RegisterKind::Fp,
    ensures
        fpregs_offset(r.spec_info().name@) == Some(
            r.spec_info().offset - FP_REGS_OFFSET,
        ),
{
    reveal_strlit("fcw");
    assert("fcw"@.len() == 3 && "fcw"@[0] == 'f' && "fcw"@[1] == 'c' && "fcw"@[2] == 'w');
    reveal_strlit("fsw");
    assert("fsw"@.len() == 3 && "fsw"@[0] == 'f' && "fsw"@[1] == 's' && "fsw"@[2] == 'w');
    reveal_strlit("ftw");
    assert("ftw"@.len() == 3 && "ftw"@[0] == 'f' && "ftw"@[1] == 't' && "ftw"@[2] == 'w');
    reveal_strlit("fop");
    assert("fop"@.len() == 3 && "fop"@[0] == 'f' && "fop"@[1] == 'o' && "fop"@[2] == 'p');
    reveal_strlit("frip");
    assert("frip"@.len() == 4 && "frip"@[0] == 'f' && "frip"@[1] == 'r' && "frip"@[2] == 'i' && "frip"@[3] == 'p');
    reveal_strlit("frdp");
    assert("frdp"@.len() == 4 && "frdp"@[0] == 'f' && "frdp"@[1] == 'r' && "frdp"@[2] == 'd' && "frdp"@[3] == 'p');
    reveal_strlit("mxcsr");
    assert("mxcsr"@.len() == 5 && "mxcsr"@[0] == 'm' && "mxcsr"@[1] == 'x' && "mxcsr"@[2] == 'c' && "mxcsr"@[3] == 's' && "mxcsr"@[4] == 'r');
    reveal_strlit("mxcsrmask");
    assert("mxcsrmask"@.len() == 9 && "mxcsrmask"@[0] == 'm' && "mxcsrmask"@[1] == 'x' && "mxcsrmask"@[2] == 'c' && "mxcsrmask"@[3] == 's' && "mxcsrmask"@[4] == 'r' && "mxcsrmask"@[5] == 'm' && "mxcsrmask"@[6] == 'a' && "mxcsrmask"@[7] == 's' && "mxcsrmask"@[8] == 'k');
    reveal_strlit("st0");
    assert("st0"@.len() == 3 && "st0"@[0] == 's' && "st0"@[1] == 't' && "st0"@[2] == '0');
    reveal_strlit("mm0");
    assert("mm0"@.len() == 3 && "mm0"@[0] == 'm' && "mm0"@[1] == 'm' && "mm0"@[2] == '0');
    reveal_strlit("st1");
    assert("st1"@.len() == 3 && "st1"@[0] == 's' && "st1"@[1] == 't' && "st1"@[2] == '1');
    reveal_strlit("mm1");
    assert("mm1"@.len() == 3 && "mm1"@[0] == 'm' && "mm1"@[1] == 'm' && "mm1"@[2] == '1');
    reveal_strlit("st2");
    assert("st2"@.len() == 3 && "st2"@[0] == 's' && "st2"@[1] == 't' && "st2"@[2] == '2');
    reveal_strlit("mm2");
    assert("mm2"@.len() == 3 && "mm2"@[0] == 'm' && "mm2"@[1] == 'm' && "mm2"@[2] == '2');
    reveal_strlit("st3");
    assert("st3"@.len() == 3 && "st3"@[0] == 's' && "st3"@[1] == 't' && "st3"@[2] == '3');
    reveal_strlit("mm3");
    assert("mm3"@.len() == 3 && "mm3"@[0] == 'm' && "mm3"@[1] == 'm' && "mm3"@[2] == '3');
    reveal_strlit("st4");
    assert("st4"@.len() == 3 && "st4"@[0] == 's' && "st4"@[1] == 't' && "st4"@[2] == '4');
    reveal_strlit("mm4");
    assert("mm4"@.len() == 3 && "mm4"@[0] == 'm' && "mm4"@[1] == 'm' && "mm4"@[2] == '4');
    reveal_strlit("st5");
    assert("st5"@.len() == 3 && "st5"@[0] == 's' && "st5"@[1] == 't' && "st5"@[2] == '5');
    reveal_strlit("mm5");
    assert("mm5"@.len() == 3 && "mm5"@[0] == 'm' && "mm5"@[1] == 'm' && "mm5"@[2] == '5');
    reveal_strlit("st6");
    assert("st6"@.len() == 3 && "st6"@[0] == 's' && "st6"@[1] == 't' && "st6"@[2] == '6');
    reveal_strlit("mm6");
    assert("mm6"@.len() == 3 && "mm6"@[0] == 'm' && "mm6"@[1] == 'm' && "mm6"@[2] == '6');
    reveal_strlit("st7");
    assert("st7"@.len() == 3 && "st7"@[0] == 's' && "st7"@[1] == 't' && "st7"@[2] == '7');
    reveal_strlit("mm7");
    assert("mm7"@.len() == 3 && "mm7"@[0] == 'm' && "mm7"@[1] == 'm' && "mm7"@[2] == '7');
    reveal_strlit("xmm0");
    assert("xmm0"@.len() == 4 && "xmm0"@[0] == 'x' && "xmm0"@[1] == 'm' && "xmm0"@[2] == 'm' && "xmm0"@[3] == '0');
    reveal_strlit("xmm1");
    assert("xmm1"@.len() == 4 && "xmm1"@[0] == 'x' && "xmm1"@[1] == 'm' && "xmm1"@[2] == 'm' && "xmm1"@[3] == '1');
    reveal_strlit("xmm2");
    assert("xmm2"@.len() == 4 && "xmm2"@[0] == 'x' && "xmm2"@[1] == 'm' && "xmm2"@[2] == 'm' && "xmm2"@[3] == '2');
    reveal_strlit("xmm3");
    assert("xmm3"@.len() == 4 && "xmm3"@[0] == 'x' && "xmm3"@[1] == 'm' && "xmm3"@[2] == 'm' && "xmm3"@[3] == '3');
    reveal_strlit("xmm4");
    assert("xmm4"@.len() == 4 && "xmm4"@[0] == 'x' && "xmm4"@[1] == 'm' && "xmm4"@[2] == 'm' && "xmm4"@[3] == '4');
    reveal_strlit("xmm5");
    assert("xmm5"@.len() == 4 && "xmm5"@[0] == 'x' && "xmm5"@[1] == 'm' && "xmm5"@[2] == 'm' && "xmm5"@[3] == '5');
    reveal_strlit("xmm6");
    assert("xmm6"@.len() == 4 && "xmm6"@[0] == 'x' && "xmm6"@[1] == 'm' && "xmm6"@[2] == 'm' && "xmm6"@[3] == '6');
    reveal_strlit("xmm7");
    assert("xmm7"@.len() == 4 && "xmm7"@[0] == 'x' && "xmm7"@[1] == 'm' && "xmm7"@[2] == 'm' && "xmm7"@[3] == '7');
    reveal_strlit("xmm8");
    assert("xmm8"@.len() == 4 && "xmm8"@[0] == 'x' && "xmm8"@[1] == 'm' && "xmm8"@[2] == 'm' && "xmm8"@[3] == '8');
    reveal_strlit("xmm9");
    assert("xmm9"@.len() == 4 && "xmm9"@[0] == 'x' && "xmm9"@[1] == 'm' && "xmm9"@[2] == 'm' && "xmm9"@[3] == '9');
    reveal_strlit("xmm10");
    assert("xmm10"@.len() == 5 && "xmm10"@[0] == 'x' && "xmm10"@[1] == 'm' && "xmm10"@[2] == 'm' && "xmm10"@[3] == '1' && "xmm10"@[4] == '0');
    reveal_strlit("xmm11");
    assert("xmm11"@.len() == 5 && "xmm11"@[0] == 'x' && "xmm11"@[1] == 'm' && "xmm11"@[2] == 'm' && "xmm11"@[3] == '1' && "xmm11"@[4] == '1');
    reveal_strlit("xmm12");
    assert("xmm12"@.len() == 5 && "xmm12"@[0] == 'x' && "xmm12"@[1] == 'm' && "xmm12"@[2] == 'm' && "xmm12"@[3] == '1' && "xmm12"@[4] == '2');
    reveal_strlit("xmm13");
    assert("xmm13"@.len() == 5 && "xmm13"@[0] == 'x' && "xmm13"@[1] == 'm' && "xmm13"@[2] == 'm' && "xmm13"@[3] == '1' && "xmm13"@[4] == '3');
    reveal_strlit("xmm14");
    assert("xmm14"@.len() == 5 && "xmm14"@[0] == 'x' && "xmm14"@[1] == 'm' && "xmm14"@[2] == 'm' && "xmm14"@[3] == '1' && "xmm14"@[4] == '4');
    reveal_strlit("xmm15");
    assert("xmm15"@.len() == 5 && "xmm15"@[0] == 'x' && "xmm15"@[1] == 'm' && "xmm15"@[2] == 'm' && "xmm15"@[3] == '1' && "xmm15"@[4] == '5');
    match r {
        Register::fcw => {
            assert(fpregs_offset("fcw"@) == Some(0int));
        },
        Register::fsw => {
            assert(fpregs_offset("fsw"@) == Some(2int));
        },
        Register::ftw => {
            assert(fpregs_offset("ftw"@) == Some(4int));
        },
        Register::fop => {
            assert(fpregs_offset("fop"@) == Some(6int));
        },
        Register::frip => {
            assert(fpregs_offset("frip"@) == Some(8int));
        },
        Register::frdp => {
            assert(fpregs_offset("frdp"@) == Some(16int));
        },
        Register::mxcsr => {
            assert(fpregs_offset("mxcsr"@) == Some(24int));
        },
        Register::mxcsrmask => {
            assert(fpregs_offset("mxcsrmask"@) == Some(28int));
        },
        Register::st0 => {
            assert(fpregs_offset("st0"@) == Some(32int));
        },
        Register::st1 => {
            assert(fpregs_offset("st1"@) == Some(48int));
        },
        Register::st2 => {
            assert(fpregs_offset("st2"@) == Some(64int));
        },
        Register::st3 => {
            assert(fpregs_offset("st3"@) == Some(80int));
        },
        Register::st4 => {
            assert(fpregs_offset("st4"@) == Some(96int));
        },
        Register::st5 => {
            assert(fpregs_offset("st5"@) == Some(112int));
        },
        Register::st6 => {
            assert(fpregs_offset("st6"@) == Some(128int));
        },
        Register::st7 => {
            assert(fpregs_offset("st7"@) == Some(144int));
        },
        Register::mm0 => {
            assert(fpregs_offset("mm0"@) == Some(32int));
        },
        Register::mm1 => {
            assert(fpregs_offset("mm1"@) == Some(48int));
        },
        Register::mm2 => {
            assert(fpregs_offset("mm2"@) == Some(64int));
        },
        Register::mm3 => {
            assert(fpregs_offset("mm3"@) == Some(80int));
        },
        Register::mm4 => {
            assert(fpregs_offset("mm4"@) == Some(96int));
        },
        Register::mm5 => {
            assert(fpregs_offset("mm5"@) == Some(112int));
        },
        Register::mm6 => {
            assert(fpregs_offset("mm6"@) == Some(128int));
        },
        Register::mm7 => {
            assert(fpregs_offset("mm7"@) == Some(144int));
        },
        Register::xmm0 => {
            assert(fpregs_offset("xmm0"@) == Some(160int));
        },
        Register::xmm1 => {
            assert(fpregs_offset("xmm1"@) == Some(176int));
        },
        Register::xmm2 => {
            assert(fpregs_offset("xmm2"@) == Some(192int));
        },
        Register::xmm3 => {
            assert(fpregs_offset("xmm3"@) == Some(208int));
        },
        Register::xmm4 => {
            assert(fpregs_offset("xmm4"@) == Some(224int));
        },
        Register::xmm5 => {
            assert(fpregs_offset("xmm5"@) == Some(240int));
        },
        Register::xmm6 => {
            assert(fpregs_offset("xmm6"@) == Some(256int));
        },
        Register::xmm7 => {
            assert(fpregs_offset("xmm7"@) == Some(272int));
        },
        Register::xmm8 => {
            assert(fpregs_offset("xmm8"@) == Some(288int));
        },
        Register::xmm9 => {
            assert(fpregs_offset("xmm9"@) == Some(304int));
        },
        Register::xmm10 => {
            assert(fpregs_offset("xmm10"@) == Some(320int));
        },
        Register::xmm11 => {
            assert(fpregs_offset("xmm11"@) == Some(336int));
        },
        Register::xmm12 => {
            assert(fpregs_offset("xmm12"@) == Some(352int));
        },
        Register::xmm13 => {
            assert(fpregs_offset("xmm13"@) == Some(368int));
        },
        Register::xmm14 => {
            assert(fpregs_offset("xmm14"@) == Some(384int));
        },
        Register::xmm15 => {
            assert(fpregs_offset("xmm15"@) == Some(400int));
        },
        _ => {},
    }
}

} // verus!
