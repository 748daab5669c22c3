//! The x86-64 register file as the tracee's user area holds it.
use vstd::prelude::*;

use crate::text::str_eq;
use crate::value::RegisterType;

verus! {

/// The class of a register.
#[derive(Clone, Copy, Debug, PartialEq, Eq, Structural)]
pub enum RegisterKind {
    /// A general-purpose register
    Gp,
    /// A subregister of a general-purpose register
    SubGp,
    /// A floating-point register
    Fp,
    /// A debug register
    Debug,
}

/// Where a register lives and what it holds.
pub struct RegisterInfo {
    pub name: &'static str,
    /// The DWARF register number, or -1 where DWARF has none.
    pub dwarf_id: i32,
    pub kind: RegisterKind,
    pub ty: RegisterType,
    /// Byte offset of the register in the user area.
    pub offset: usize,
}

/// Size of the user area (`struct user` of x86-64 Linux) in bytes.
pub const USER_AREA_SIZE: usize = 912;

/// Size of the general-purpose register block (`regs`), which starts the user area.
pub const GP_REGS_SIZE: usize = 216;

/// Offset of the floating-point register block (`i387`) in the user area.
pub const FP_REGS_OFFSET: usize = 224;

/// Size of the floating-point register block (`i387`).
pub const FP_REGS_SIZE: usize = 512;

/// Offset of the debug registers (`u_debugreg`) in the user area.
pub const DEBUG_REGS_OFFSET: usize = 848;

/// The registers of an x86-64 tracee.
#[allow(non_camel_case_types)]
#[derive(Clone, Copy, Debug, PartialEq, Eq, Structural)]
pub enum Register {
    rax,
    rdx,
    rcx,
    rbx,
    rsi,
    rdi,
    rbp,
    rsp,
    r8,
    r9,
    r10,
    r11,
    r12,
    r13,
    r14,
    r15,
    rip,
    eflags,
    cs,
    fs,
    gs,
    ss,
    ds,
    es,
    orig_rax,
    eax,
    edx,
    ecx,
    ebx,
    esi,
    edi,
    ebp,
    esp,
    r8d,
    r9d,
    r10d,
    r11d,
    r12d,
    r13d,
    r14d,
    r15d,
    ax,
    dx,
    cx,
    bx,
    si,
    di,
    bp,
    sp,
    r8w,
    r9w,
    r10w,
    r11w,
    r12w,
    r13w,
    r14w,
    r15w,
    ah,
    dh,
    ch,
    bh,
    al,
    dl,
    cl,
    bl,
    sil,
    dil,
    bpl,
    spl,
    r8b,
    r9b,
    r10b,
    r11b,
    r12b,
    r13b,
    r14b,
    r15b,
    fcw,
    fsw,
    ftw,
    fop,
    frip,
    frdp,
    mxcsr,
    mxcsrmask,
    st0,
    st1,
    st2,
    st3,
    st4,
    st5,
    st6,
    st7,
    mm0,
    mm1,
    mm2,
    mm3,
    mm4,
    mm5,
    mm6,
    mm7,
    xmm0,
    xmm1,
    xmm2,
    xmm3,
    xmm4,
    xmm5,
    xmm6,
    xmm7,
    xmm8,
    xmm9,
    xmm10,
    xmm11,
    xmm12,
    xmm13,
    xmm14,
    xmm15,
    dr0,
    dr1,
    dr2,
    dr3,
    dr4,
    dr5,
    dr6,
    dr7,
}

impl Register {
    /// Number of debug registers.
    pub const DEBUG_REGS_COUNT: usize = 8;

    /// The debug registers, in the order of `u_debugreg`.
    pub const DEBUG_REGS: [Register; 8] = [Register::dr0, Register::dr1, Register::dr2, Register::dr3, Register::dr4, Register::dr5, Register::dr6, Register::dr7];

    /// The description of the register.
    pub open spec fn spec_info(self) -> RegisterInfo {
        match self {
            Register::rax => RegisterInfo { name: "rax", dwarf_id: 0i32, kind: RegisterKind::Gp, ty: RegisterType::U64, offset: 80 },
            Register::rdx => RegisterInfo { name: "rdx", dwarf_id: 1i32, kind: RegisterKind::Gp, ty: RegisterType::U64, offset: 96 },
            Register::rcx => RegisterInfo { name: "rcx", dwarf_id: 2i32, kind: RegisterKind::Gp, ty: RegisterType::U64, offset: 88 },
            Register::rbx => RegisterInfo { name: "rbx", dwarf_id: 3i32, kind: RegisterKind::Gp, ty: RegisterType::U64, offset: 40 },
            Register::rsi => RegisterInfo { name: "rsi", dwarf_id: 4i32, kind: RegisterKind::Gp, ty: RegisterType::U64, offset: 104 },
            Register::rdi => RegisterInfo { name: "rdi", dwarf_id: 5i32, kind: RegisterKind::Gp, ty: RegisterType::U64, offset: 112 },
            Register::rbp => RegisterInfo { name: "rbp", dwarf_id: 6i32, kind: RegisterKind::Gp, ty: RegisterType::U64, offset: 32 },
            Register::rsp => RegisterInfo { name: "rsp", dwarf_id: 7i32, kind: RegisterKind::Gp, ty: RegisterType::U64, offset: 152 },
            Register::r8 => RegisterInfo { name: "r8", dwarf_id: 8i32, kind: RegisterKind::Gp, ty: RegisterType::U64, offset: 72 },
            Register::r9 => RegisterInfo { name: "r9", dwarf_id: 9i32, kind: RegisterKind::Gp, ty: RegisterType::U64, offset: 64 },
            Register::r10 => RegisterInfo { name: "r10", dwarf_id: 10i32, kind: RegisterKind::Gp, ty: RegisterType::U64, offset: 56 },
            Register::r11 => RegisterInfo { name: "r11", dwarf_id: 11i32, kind: RegisterKind::Gp, ty: RegisterType::U64, offset: 48 },
            Register::r12 => RegisterInfo { name: "r12", dwarf_id: 12i32, kind: RegisterKind::Gp, ty: RegisterType::U64, offset: 24 },
            Register::r13 => RegisterInfo { name: "r13", dwarf_id: 13i32, kind: RegisterKind::Gp, ty: RegisterType::U64, offset: 16 },
            Register::r14 => RegisterInfo { name: "r14", dwarf_id: 14i32, kind: RegisterKind::Gp, ty: RegisterType::U64, offset: 8 },
            Register::r15 => RegisterInfo { name: "r15", dwarf_id: 15i32, kind: RegisterKind::Gp, ty: RegisterType::U64, offset: 0 },
            Register::rip => RegisterInfo { name: "rip", dwarf_id: 16i32, kind: RegisterKind::Gp, ty: RegisterType::U64, offset: 128 },
            Register::eflags => RegisterInfo { name: "eflags", dwarf_id: 49i32, kind: RegisterKind::Gp, ty: RegisterType::U64, offset: 144 },
            Register::cs => RegisterInfo { name: "cs", dwarf_id: 51i32, kind: RegisterKind::Gp, ty: RegisterType::U64, offset: 136 },
            Register::fs => RegisterInfo { name: "fs", dwarf_id: 54i32, kind: RegisterKind::Gp, ty: RegisterType::U64, offset: 200 },
            Register::gs => RegisterInfo { name: "gs", dwarf_id: 55i32, kind: RegisterKind::Gp, ty: RegisterType::U64, offset: 208 },
            Register::ss => RegisterInfo { name: "ss", dwarf_id: 52i32, kind: RegisterKind::Gp, ty: RegisterType::U64, offset: 160 },
            Register::ds => RegisterInfo { name: "ds", dwarf_id: 53i32, kind: RegisterKind::Gp, ty: RegisterType::U64, offset: 184 },
            Register::es => RegisterInfo { name: "es", dwarf_id: 50i32, kind: RegisterKind::Gp, ty: RegisterType::U64, offset: 192 },
            Register::orig_rax => RegisterInfo { name: "orig_rax", dwarf_id: -1i32, kind: RegisterKind::Gp, ty: RegisterType::U64, offset: 120 },
            Register::eax => RegisterInfo { name: "eax", dwarf_id: -1i32, kind: RegisterKind::SubGp, ty: RegisterType::U32, offset: 80 },
            Register::edx => RegisterInfo { name: "edx", dwarf_id: -1i32, kind: RegisterKind::SubGp, ty: RegisterType::U32, offset: 96 },
            Register::ecx => RegisterInfo { name: "ecx", dwarf_id: -1i32, kind: RegisterKind::SubGp, ty: RegisterType::U32, offset: 88 },
            Register::ebx => RegisterInfo { name: "ebx", dwarf_id: -1i32, kind: RegisterKind::SubGp, ty: RegisterType::U32, offset: 40 },
            Register::esi => RegisterInfo { name: "esi", dwarf_id: -1i32, kind: RegisterKind::SubGp, ty: RegisterType::U32, offset: 104 },
            Register::edi => RegisterInfo { name: "edi", dwarf_id: -1i32, kind: RegisterKind::SubGp, ty: RegisterType::U32, offset: 112 },
            Register::ebp => RegisterInfo { name: "ebp", dwarf_id: -1i32, kind: RegisterKind::SubGp, ty: RegisterType::U32, offset: 32 },
            Register::esp => RegisterInfo { name: "esp", dwarf_id: -1i32, kind: RegisterKind::SubGp, ty: RegisterType::U32, offset: 152 },
            Register::r8d => RegisterInfo { name: "r8d", dwarf_id: -1i32, kind: RegisterKind::SubGp, ty: RegisterType::U32, offset: 72 },
            Register::r9d => RegisterInfo { name: "r9d", dwarf_id: -1i32, kind: RegisterKind::SubGp, ty: RegisterType::U32, offset: 64 },
            Register::r10d => RegisterInfo { name: "r10d", dwarf_id: -1i32, kind: RegisterKind::SubGp, ty: RegisterType::U32, offset: 56 },
            Register::r11d => RegisterInfo { name: "r11d", dwarf_id: -1i32, kind: RegisterKind::SubGp, ty: RegisterType::U32, offset: 48 },
            Register::r12d => RegisterInfo { name: "r12d", dwarf_id: -1i32, kind: RegisterKind::SubGp, ty: RegisterType::U32, offset: 24 },
            Register::r13d => RegisterInfo { name: "r13d", dwarf_id: -1i32, kind: RegisterKind::SubGp, ty: RegisterType::U32, offset: 16 },
            Register::r14d => RegisterInfo { name: "r14d", dwarf_id: -1i32, kind: RegisterKind::SubGp, ty: RegisterType::U32, offset: 8 },
            Register::r15d => RegisterInfo { name: "r15d", dwarf_id: -1i32, kind: RegisterKind::SubGp, ty: RegisterType::U32, offset: 0 },
            Register::ax => RegisterInfo { name: "ax", dwarf_id: -1i32, kind: RegisterKind::SubGp, ty: RegisterType::U16, offset: 80 },
            Register::dx => RegisterInfo { name: "dx", dwarf_id: -1i32, kind: RegisterKind::SubGp, ty: RegisterType::U16, offset: 96 },
            Register::cx => RegisterInfo { name: "cx", dwarf_id: -1i32, kind: RegisterKind::SubGp, ty: RegisterType::U16, offset: 88 },
            Register::bx => RegisterInfo { name: "bx", dwarf_id: -1i32, kind: RegisterKind::SubGp, ty: RegisterType::U16, offset: 40 },
            Register::si => RegisterInfo { name: "si", dwarf_id: -1i32, kind: RegisterKind::SubGp, ty: RegisterType::U16, offset: 104 },
            Register::di => RegisterInfo { name: "di", dwarf_id: -1i32, kind: RegisterKind::SubGp, ty: RegisterType::U16, offset: 112 },
            Register::bp => RegisterInfo { name: "bp", dwarf_id: -1i32, kind: RegisterKind::SubGp, ty: RegisterType::U16, offset: 32 },
            Register::sp => RegisterInfo { name: "sp", dwarf_id: -1i32, kind: RegisterKind::SubGp, ty: RegisterType::U16, offset: 152 },
            Register::r8w => RegisterInfo { name: "r8w", dwarf_id: -1i32, kind: RegisterKind::SubGp, ty: RegisterType::U16, offset: 72 },
            Register::r9w => RegisterInfo { name: "r9w", dwarf_id: -1i32, kind: RegisterKind::SubGp, ty: RegisterType::U16, offset: 64 },
            Register::r10w => RegisterInfo { name: "r10w", dwarf_id: -1i32, kind: RegisterKind::SubGp, ty: RegisterType::U16, offset: 56 },
            Register::r11w => RegisterInfo { name: "r11w", dwarf_id: -1i32, kind: RegisterKind::SubGp, ty: RegisterType::U16, offset: 48 },
            Register::r12w => RegisterInfo { name: "r12w", dwarf_id: -1i32, kind: RegisterKind::SubGp, ty: RegisterType::U16, offset: 24 },
            Register::r13w => RegisterInfo { name: "r13w", dwarf_id: -1i32, kind: RegisterKind::SubGp, ty: RegisterType::U16, offset: 16 },
            Register::r14w => RegisterInfo { name: "r14w", dwarf_id: -1i32, kind: RegisterKind::SubGp, ty: RegisterType::U16, offset: 8 },
            Register::r15w => RegisterInfo { name: "r15w", dwarf_id: -1i32, kind: RegisterKind::SubGp, ty: RegisterType::U16, offset: 0 },
            Register::ah => RegisterInfo { name: "ah", dwarf_id: -1i32, kind: RegisterKind::SubGp, ty: RegisterType::U8, offset: 81 },
            Register::dh => RegisterInfo { name: "dh", dwarf_id: -1i32, kind: RegisterKind::SubGp, ty: RegisterType::U8, offset: 97 },
            Register::ch => RegisterInfo { name: "ch", dwarf_id: -1i32, kind: RegisterKind::SubGp, ty: RegisterType::U8, offset: 89 },
            Register::bh => RegisterInfo { name: "bh", dwarf_id: -1i32, kind: RegisterKind::SubGp, ty: RegisterType::U8, offset: 41 },
            Register::al => RegisterInfo { name: "al", dwarf_id: -1i32, kind: RegisterKind::SubGp, ty: RegisterType::U8, offset: 80 },
            Register::dl => RegisterInfo { name: "dl", dwarf_id: -1i32, kind: RegisterKind::SubGp, ty: RegisterType::U8, offset: 96 },
            Register::cl => RegisterInfo { name: "cl", dwarf_id: -1i32, kind: RegisterKind::SubGp, ty: RegisterType::U8, offset: 88 },
            Register::bl => RegisterInfo { name: "bl", dwarf_id: -1i32, kind: RegisterKind::SubGp, ty: RegisterType::U8, offset: 40 },
            Register::sil => RegisterInfo { name: "sil", dwarf_id: -1i32, kind: RegisterKind::SubGp, ty: RegisterType::U8, offset: 104 },
            Register::dil => RegisterInfo { name: "dil", dwarf_id: -1i32, kind: RegisterKind::SubGp, ty: RegisterType::U8, offset: 112 },
            Register::bpl => RegisterInfo { name: "bpl", dwarf_id: -1i32, kind: RegisterKind::SubGp, ty: RegisterType::U8, offset: 32 },
            Register::spl => RegisterInfo { name: "spl", dwarf_id: -1i32, kind: RegisterKind::SubGp, ty: RegisterType::U8, offset: 152 },
            Register::r8b => RegisterInfo { name: "r8b", dwarf_id: -1i32, kind: RegisterKind::SubGp, ty: RegisterType::U8, offset: 72 },
            Register::r9b => RegisterInfo { name: "r9b", dwarf_id: -1i32, kind: RegisterKind::SubGp, ty: RegisterType::U8, offset: 64 },
            Register::r10b => RegisterInfo { name: "r10b", dwarf_id: -1i32, kind: RegisterKind::SubGp, ty: RegisterType::U8, offset: 56 },
            Register::r11b => RegisterInfo { name: "r11b", dwarf_id: -1i32, kind: RegisterKind::SubGp, ty: RegisterType::U8, offset: 48 },
            Register::r12b => RegisterInfo { name: "r12b", dwarf_id: -1i32, kind: RegisterKind::SubGp, ty: RegisterType::U8, offset: 24 },
            Register::r13b => RegisterInfo { name: "r13b", dwarf_id: -1i32, kind: RegisterKind::SubGp, ty: RegisterType::U8, offset: 16 },
            Register::r14b => RegisterInfo { name: "r14b", dwarf_id: -1i32, kind: RegisterKind::SubGp, ty: RegisterType::U8, offset: 8 },
            Register::r15b => RegisterInfo { name: "r15b", dwarf_id: -1i32, kind: RegisterKind::SubGp, ty: RegisterType::U8, offset: 0 },
            Register::fcw => RegisterInfo { name: "fcw", dwarf_id: 65i32, kind: RegisterKind::Fp, ty: RegisterType::U16, offset: 224 },
            Register::fsw => RegisterInfo { name: "fsw", dwarf_id: 66i32, kind: RegisterKind::Fp, ty: RegisterType::U16, offset: 226 },
            Register::ftw => RegisterInfo { name: "ftw", dwarf_id: -1i32, kind: RegisterKind::Fp, ty: RegisterType::U16, offset: 228 },
            Register::fop => RegisterInfo { name: "fop", dwarf_id: -1i32, kind: RegisterKind::Fp, ty: RegisterType::U16, offset: 230 },
            Register::frip => RegisterInfo { name: "frip", dwarf_id: -1i32, kind: RegisterKind::Fp, ty: RegisterType::U64, offset: 232 },
            Register::frdp => RegisterInfo { name: "frdp", dwarf_id: -1i32, kind: RegisterKind::Fp, ty: RegisterType::U64, offset: 240 },
            Register::mxcsr => RegisterInfo { name: "mxcsr", dwarf_id: 64i32, kind: RegisterKind::Fp, ty: RegisterType::U32, offset: 248 },
            Register::mxcsrmask => RegisterInfo { name: "mxcsrmask", dwarf_id: -1i32, kind: RegisterKind::Fp, ty: RegisterType::U32, offset: 252 },
            Register::st0 => RegisterInfo { name: "st0", dwarf_id: 33i32, kind: RegisterKind::Fp, ty: RegisterType::F80, offset: 256 },
            Register::st1 => RegisterInfo { name: "st1", dwarf_id: 34i32, kind: RegisterKind::Fp, ty: RegisterType::F80, offset: 272 },
            Register::st2 => RegisterInfo { name: "st2", dwarf_id: 35i32, kind: RegisterKind::Fp, ty: RegisterType::F80, offset: 288 },
            Register::st3 => RegisterInfo { name: "st3", dwarf_id: 36i32, kind: RegisterKind::Fp, ty: RegisterType::F80, offset: 304 },
            Register::st4 => RegisterInfo { name: "st4", dwarf_id: 37i32, kind: RegisterKind::Fp, ty: RegisterType::F80, offset: 320 },
            Register::st5 => RegisterInfo { name: "st5", dwarf_id: 38i32, kind: RegisterKind::Fp, ty: RegisterType::F80, offset: 336 },
            Register::st6 => RegisterInfo { name: "st6", dwarf_id: 39i32, kind: RegisterKind::Fp, ty: RegisterType::F80, offset: 352 },
            Register::st7 => RegisterInfo { name: "st7", dwarf_id: 40i32, kind: RegisterKind::Fp, ty: RegisterType::F80, offset: 368 },
            Register::mm0 => RegisterInfo { name: "mm0", dwarf_id: 41i32, kind: RegisterKind::Fp, ty: RegisterType::U8x8, offset: 256 },
            Register::mm1 => RegisterInfo { name: "mm1", dwarf_id: 42i32, kind: RegisterKind::Fp, ty: RegisterType::U8x8, offset: 272 },
            Register::mm2 => RegisterInfo { name: "mm2", dwarf_id: 43i32, kind: RegisterKind::Fp, ty: RegisterType::U8x8, offset: 288 },
            Register::mm3 => RegisterInfo { name: "mm3", dwarf_id: 44i32, kind: RegisterKind::Fp, ty: RegisterType::U8x8, offset: 304 },
            Register::mm4 => RegisterInfo { name: "mm4", dwarf_id: 45i32, kind: RegisterKind::Fp, ty: RegisterType::U8x8, offset: 320 },
            Register::mm5 => RegisterInfo { name: "mm5", dwarf_id: 46i32, kind: RegisterKind::Fp, ty: RegisterType::U8x8, offset: 336 },
            Register::mm6 => RegisterInfo { name: "mm6", dwarf_id: 47i32, kind: RegisterKind::Fp, ty: RegisterType::U8x8, offset: 352 },
            Register::mm7 => RegisterInfo { name: "mm7", dwarf_id: 48i32, kind: RegisterKind::Fp, ty: RegisterType::U8x8, offset: 368 },
            Register::xmm0 => RegisterInfo { name: "xmm0", dwarf_id: 17i32, kind: RegisterKind::Fp, ty: RegisterType::U8x16, offset: 384 },
            Register::xmm1 => RegisterInfo { name: "xmm1", dwarf_id: 18i32, kind: RegisterKind::Fp, ty: RegisterType::U8x16, offset: 400 },
            Register::xmm2 => RegisterInfo { name: "xmm2", dwarf_id: 19i32, kind: RegisterKind::Fp, ty: RegisterType::U8x16, offset: 416 },
            Register::xmm3 => RegisterInfo { name: "xmm3", dwarf_id: 20i32, kind: RegisterKind::Fp, ty: RegisterType::U8x16, offset: 432 },
            Register::xmm4 => RegisterInfo { name: "xmm4", dwarf_id: 21i32, kind: RegisterKind::Fp, ty: RegisterType::U8x16, offset: 448 },
            Register::xmm5 => RegisterInfo { name: "xmm5", dwarf_id: 22i32, kind: RegisterKind::Fp, ty: RegisterType::U8x16, offset: 464 },
            Register::xmm6 => RegisterInfo { name: "xmm6", dwarf_id: 23i32, kind: RegisterKind::Fp, ty: RegisterType::U8x16, offset: 480 },
            Register::xmm7 => RegisterInfo { name: "xmm7", dwarf_id: 24i32, kind: RegisterKind::Fp, ty: RegisterType::U8x16, offset: 496 },
            Register::xmm8 => RegisterInfo { name: "xmm8", dwarf_id: 25i32, kind: RegisterKind::Fp, ty: RegisterType::U8x16, offset: 512 },
            Register::xmm9 => RegisterInfo { name: "xmm9", dwarf_id: 26i32, kind: RegisterKind::Fp, ty: RegisterType::U8x16, offset: 528 },
            Register::xmm10 => RegisterInfo { name: "xmm10", dwarf_id: 27i32, kind: RegisterKind::Fp, ty: RegisterType::U8x16, offset: 544 },
            Register::xmm11 => RegisterInfo { name: "xmm11", dwarf_id: 28i32, kind: RegisterKind::Fp, ty: RegisterType::U8x16, offset: 560 },
            Register::xmm12 => RegisterInfo { name: "xmm12", dwarf_id: 29i32, kind: RegisterKind::Fp, ty: RegisterType::U8x16, offset: 576 },
            Register::xmm13 => RegisterInfo { name: "xmm13", dwarf_id: 30i32, kind: RegisterKind::Fp, ty: RegisterType::U8x16, offset: 592 },
            Register::xmm14 => RegisterInfo { name: "xmm14", dwarf_id: 31i32, kind: RegisterKind::Fp, ty: RegisterType::U8x16, offset: 608 },
            Register::xmm15 => RegisterInfo { name: "xmm15", dwarf_id: 32i32, kind: RegisterKind::Fp, ty: RegisterType::U8x16, offset: 624 },
            Register::dr0 => RegisterInfo { name: "dr0", dwarf_id: -1i32, kind: RegisterKind::Debug, ty: RegisterType::U64, offset: 848 },
            Register::dr1 => RegisterInfo { name: "dr1", dwarf_id: -1i32, kind: RegisterKind::Debug, ty: RegisterType::U64, offset: 856 },
            Register::dr2 => RegisterInfo { name: "dr2", dwarf_id: -1i32, kind: RegisterKind::Debug, ty: RegisterType::U64, offset: 864 },
            Register::dr3 => RegisterInfo { name: "dr3", dwarf_id: -1i32, kind: RegisterKind::Debug, ty: RegisterType::U64, offset: 872 },
            Register::dr4 => RegisterInfo { name: "dr4", dwarf_id: -1i32, kind: RegisterKind::Debug, ty: RegisterType::U64, offset: 880 },
            Register::dr5 => RegisterInfo { name: "dr5", dwarf_id: -1i32, kind: RegisterKind::Debug, ty: RegisterType::U64, offset: 888 },
            Register::dr6 => RegisterInfo { name: "dr6", dwarf_id: -1i32, kind: RegisterKind::Debug, ty: RegisterType::U64, offset: 896 },
            Register::dr7 => RegisterInfo { name: "dr7", dwarf_id: -1i32, kind: RegisterKind::Debug, ty: RegisterType::U64, offset: 904 },
        }
    }

    /// The description of the register.
    pub fn info(self) -> (r: RegisterInfo)
        ensures
            r == self.spec_info(),
    {
        match self {
            Register::rax => RegisterInfo { name: "rax", dwarf_id: 0, kind: RegisterKind::Gp, ty: RegisterType::U64, offset: 80 },
            Register::rdx => RegisterInfo { name: "rdx", dwarf_id: 1, kind: RegisterKind::Gp, ty: RegisterType::U64, offset: 96 },
            Register::rcx => RegisterInfo { name: "rcx", dwarf_id: 2, kind: RegisterKind::Gp, ty: RegisterType::U64, offset: 88 },
            Register::rbx => RegisterInfo { name: "rbx", dwarf_id: 3, kind: RegisterKind::Gp, ty: RegisterType::U64, offset: 40 },
            Register::rsi => RegisterInfo { name: "rsi", dwarf_id: 4, kind: RegisterKind::Gp, ty: RegisterType::U64, offset: 104 },
            Register::rdi => RegisterInfo { name: "rdi", dwarf_id: 5, kind: RegisterKind::Gp, ty: RegisterType::U64, offset: 112 },
            Register::rbp => RegisterInfo { name: "rbp", dwarf_id: 6, kind: RegisterKind::Gp, ty: RegisterType::U64, offset: 32 },
            Register::rsp => RegisterInfo { name: "rsp", dwarf_id: 7, kind: RegisterKind::Gp, ty: RegisterType::U64, offset: 152 },
            Register::r8 => RegisterInfo { name: "r8", dwarf_id: 8, kind: RegisterKind::Gp, ty: RegisterType::U64, offset: 72 },
            Register::r9 => RegisterInfo { name: "r9", dwarf_id: 9, kind: RegisterKind::Gp, ty: RegisterType::U64, offset: 64 },
            Register::r10 => RegisterInfo { name: "r10", dwarf_id: 10, kind: RegisterKind::Gp, ty: RegisterType::U64, offset: 56 },
            Register::r11 => RegisterInfo { name: "r11", dwarf_id: 11, kind: RegisterKind::Gp, ty: RegisterType::U64, offset: 48 },
            Register::r12 => RegisterInfo { name: "r12", dwarf_id: 12, kind: RegisterKind::Gp, ty: RegisterType::U64, offset: 24 },
            Register::r13 => RegisterInfo { name: "r13", dwarf_id: 13, kind: RegisterKind::Gp, ty: RegisterType::U64, offset: 16 },
            Register::r14 => RegisterInfo { name: "r14", dwarf_id: 14, kind: RegisterKind::Gp, ty: RegisterType::U64, offset: 8 },
            Register::r15 => RegisterInfo { name: "r15", dwarf_id: 15, kind: RegisterKind::Gp, ty: RegisterType::U64, offset: 0 },
            Register::rip => RegisterInfo { name: "rip", dwarf_id: 16, kind: RegisterKind::Gp, ty: RegisterType::U64, offset: 128 },
            Register::eflags => RegisterInfo { name: "eflags", dwarf_id: 49, kind: RegisterKind::Gp, ty: RegisterType::U64, offset: 144 },
            Register::cs => RegisterInfo { name: "cs", dwarf_id: 51, kind: RegisterKind::Gp, ty: RegisterType::U64, offset: 136 },
            Register::fs => RegisterInfo { name: "fs", dwarf_id: 54, kind: RegisterKind::Gp, ty: RegisterType::U64, offset: 200 },
            Register::gs => RegisterInfo { name: "gs", dwarf_id: 55, kind: RegisterKind::Gp, ty: RegisterType::U64, offset: 208 },
            Register::ss => RegisterInfo { name: "ss", dwarf_id: 52, kind: RegisterKind::Gp, ty: RegisterType::U64, offset: 160 },
            Register::ds => RegisterInfo { name: "ds", dwarf_id: 53, kind: RegisterKind::Gp, ty: RegisterType::U64, offset: 184 },
            Register::es => RegisterInfo { name: "es", dwarf_id: 50, kind: RegisterKind::Gp, ty: RegisterType::U64, offset: 192 },
            Register::orig_rax => RegisterInfo { name: "orig_rax", dwarf_id: -1, kind: RegisterKind::Gp, ty: RegisterType::U64, offset: 120 },
            Register::eax => RegisterInfo { name: "eax", dwarf_id: -1, kind: RegisterKind::SubGp, ty: RegisterType::U32, offset: 80 },
            Register::edx => RegisterInfo { name: "edx", dwarf_id: -1, kind: RegisterKind::SubGp, ty: RegisterType::U32, offset: 96 },
            Register::ecx => RegisterInfo { name: "ecx", dwarf_id: -1, kind: RegisterKind::SubGp, ty: RegisterType::U32, offset: 88 },
            Register::ebx => RegisterInfo { name: "ebx", dwarf_id: -1, kind: RegisterKind::SubGp, ty: RegisterType::U32, offset: 40 },
            Register::esi => RegisterInfo { name: "esi", dwarf_id: -1, kind: RegisterKind::SubGp, ty: RegisterType::U32, offset: 104 },
            Register::edi => RegisterInfo { name: "edi", dwarf_id: -1, kind: RegisterKind::SubGp, ty: RegisterType::U32, offset: 112 },
            Register::ebp => RegisterInfo { name: "ebp", dwarf_id: -1, kind: RegisterKind::SubGp, ty: RegisterType::U32, offset: 32 },
            Register::esp => RegisterInfo { name: "esp", dwarf_id: -1, kind: RegisterKind::SubGp, ty: RegisterType::U32, offset: 152 },
            Register::r8d => RegisterInfo { name: "r8d", dwarf_id: -1, kind: RegisterKind::SubGp, ty: RegisterType::U32, offset: 72 },
            Register::r9d => RegisterInfo { name: "r9d", dwarf_id: -1, kind: RegisterKind::SubGp, ty: RegisterType::U32, offset: 64 },
            Register::r10d => RegisterInfo { name: "r10d", dwarf_id: -1, kind: RegisterKind::SubGp, ty: RegisterType::U32, offset: 56 },
            Register::r11d => RegisterInfo { name: "r11d", dwarf_id: -1, kind: RegisterKind::SubGp, ty: RegisterType::U32, offset: 48 },
            Register::r12d => RegisterInfo { name: "r12d", dwarf_id: -1, kind: RegisterKind::SubGp, ty: RegisterType::U32, offset: 24 },
            Register::r13d => RegisterInfo { name: "r13d", dwarf_id: -1, kind: RegisterKind::SubGp, ty: RegisterType::U32, offset: 16 },
            Register::r14d => RegisterInfo { name: "r14d", dwarf_id: -1, kind: RegisterKind::SubGp, ty: RegisterType::U32, offset: 8 },
            Register::r15d => RegisterInfo { name: "r15d", dwarf_id: -1, kind: RegisterKind::SubGp, ty: RegisterType::U32, offset: 0 },
            Register::ax => RegisterInfo { name: "ax", dwarf_id: -1, kind: RegisterKind::SubGp, ty: RegisterType::U16, offset: 80 },
            Register::dx => RegisterInfo { name: "dx", dwarf_id: -1, kind: RegisterKind::SubGp, ty: RegisterType::U16, offset: 96 },
            Register::cx => RegisterInfo { name: "cx", dwarf_id: -1, kind: RegisterKind::SubGp, ty: RegisterType::U16, offset: 88 },
            Register::bx => RegisterInfo { name: "bx", dwarf_id: -1, kind: RegisterKind::SubGp, ty: RegisterType::U16, offset: 40 },
            Register::si => RegisterInfo { name: "si", dwarf_id: -1, kind: RegisterKind::SubGp, ty: RegisterType::U16, offset: 104 },
            Register::di => RegisterInfo { name: "di", dwarf_id: -1, kind: RegisterKind::SubGp, ty: RegisterType::U16, offset: 112 },
            Register::bp => RegisterInfo { name: "bp", dwarf_id: -1, kind: RegisterKind::SubGp, ty: RegisterType::U16, offset: 32 },
            Register::sp => RegisterInfo { name: "sp", dwarf_id: -1, kind: RegisterKind::SubGp, ty: RegisterType::U16, offset: 152 },
            Register::r8w => RegisterInfo { name: "r8w", dwarf_id: -1, kind: RegisterKind::SubGp, ty: RegisterType::U16, offset: 72 },
            Register::r9w => RegisterInfo { name: "r9w", dwarf_id: -1, kind: RegisterKind::SubGp, ty: RegisterType::U16, offset: 64 },
            Register::r10w => RegisterInfo { name: "r10w", dwarf_id: -1, kind: RegisterKind::SubGp, ty: RegisterType::U16, offset: 56 },
            Register::r11w => RegisterInfo { name: "r11w", dwarf_id: -1, kind: RegisterKind::SubGp, ty: RegisterType::U16, offset: 48 },
            Register::r12w => RegisterInfo { name: "r12w", dwarf_id: -1, kind: RegisterKind::SubGp, ty: RegisterType::U16, offset: 24 },
            Register::r13w => RegisterInfo { name: "r13w", dwarf_id: -1, kind: RegisterKind::SubGp, ty: RegisterType::U16, offset: 16 },
            Register::r14w => RegisterInfo { name: "r14w", dwarf_id: -1, kind: RegisterKind::SubGp, ty: RegisterType::U16, offset: 8 },
            Register::r15w => RegisterInfo { name: "r15w", dwarf_id: -1, kind: RegisterKind::SubGp, ty: RegisterType::U16, offset: 0 },
            Register::ah => RegisterInfo { name: "ah", dwarf_id: -1, kind: RegisterKind::SubGp, ty: RegisterType::U8, offset: 81 },
            Register::dh => RegisterInfo { name: "dh", dwarf_id: -1, kind: RegisterKind::SubGp, ty: RegisterType::U8, offset: 97 },
            Register::ch => RegisterInfo { name: "ch", dwarf_id: -1, kind: RegisterKind::SubGp, ty: RegisterType::U8, offset: 89 },
            Register::bh => RegisterInfo { name: "bh", dwarf_id: -1, kind: RegisterKind::SubGp, ty: RegisterType::U8, offset: 41 },
            Register::al => RegisterInfo { name: "al", dwarf_id: -1, kind: RegisterKind::SubGp, ty: RegisterType::U8, offset: 80 },
            Register::dl => RegisterInfo { name: "dl", dwarf_id: -1, kind: RegisterKind::SubGp, ty: RegisterType::U8, offset: 96 },
            Register::cl => RegisterInfo { name: "cl", dwarf_id: -1, kind: RegisterKind::SubGp, ty: RegisterType::U8, offset: 88 },
            Register::bl => RegisterInfo { name: "bl", dwarf_id: -1, kind: RegisterKind::SubGp, ty: RegisterType::U8, offset: 40 },
            Register::sil => RegisterInfo { name: "sil", dwarf_id: -1, kind: RegisterKind::SubGp, ty: RegisterType::U8, offset: 104 },
            Register::dil => RegisterInfo { name: "dil", dwarf_id: -1, kind: RegisterKind::SubGp, ty: RegisterType::U8, offset: 112 },
            Register::bpl => RegisterInfo { name: "bpl", dwarf_id: -1, kind: RegisterKind::SubGp, ty: RegisterType::U8, offset: 32 },
            Register::spl => RegisterInfo { name: "spl", dwarf_id: -1, kind: RegisterKind::SubGp, ty: RegisterType::U8, offset: 152 },
            Register::r8b => RegisterInfo { name: "r8b", dwarf_id: -1, kind: RegisterKind::SubGp, ty: RegisterType::U8, offset: 72 },
            Register::r9b => RegisterInfo { name: "r9b", dwarf_id: -1, kind: RegisterKind::SubGp, ty: RegisterType::U8, offset: 64 },
            Register::r10b => RegisterInfo { name: "r10b", dwarf_id: -1, kind: RegisterKind::SubGp, ty: RegisterType::U8, offset: 56 },
            Register::r11b => RegisterInfo { name: "r11b", dwarf_id: -1, kind: RegisterKind::SubGp, ty: RegisterType::U8, offset: 48 },
            Register::r12b => RegisterInfo { name: "r12b", dwarf_id: -1, kind: RegisterKind::SubGp, ty: RegisterType::U8, offset: 24 },
            Register::r13b => RegisterInfo { name: "r13b", dwarf_id: -1, kind: RegisterKind::SubGp, ty: RegisterType::U8, offset: 16 },
            Register::r14b => RegisterInfo { name: "r14b", dwarf_id: -1, kind: RegisterKind::SubGp, ty: RegisterType::U8, offset: 8 },
            Register::r15b => RegisterInfo { name: "r15b", dwarf_id: -1, kind: RegisterKind::SubGp, ty: RegisterType::U8, offset: 0 },
            Register::fcw => RegisterInfo { name: "fcw", dwarf_id: 65, kind: RegisterKind::Fp, ty: RegisterType::U16, offset: 224 },
            Register::fsw => RegisterInfo { name: "fsw", dwarf_id: 66, kind: RegisterKind::Fp, ty: RegisterType::U16, offset: 226 },
            Register::ftw => RegisterInfo { name: "ftw", dwarf_id: -1, kind: RegisterKind::Fp, ty: RegisterType::U16, offset: 228 },
            Register::fop => RegisterInfo { name: "fop", dwarf_id: -1, kind: RegisterKind::Fp, ty: RegisterType::U16, offset: 230 },
            Register::frip => RegisterInfo { name: "frip", dwarf_id: -1, kind: RegisterKind::Fp, ty: RegisterType::U64, offset: 232 },
            Register::frdp => RegisterInfo { name: "frdp", dwarf_id: -1, kind: RegisterKind::Fp, ty: RegisterType::U64, offset: 240 },
            Register::mxcsr => RegisterInfo { name: "mxcsr", dwarf_id: 64, kind: RegisterKind::Fp, ty: RegisterType::U32, offset: 248 },
            Register::mxcsrmask => RegisterInfo { name: "mxcsrmask", dwarf_id: -1, kind: RegisterKind::Fp, ty: RegisterType::U32, offset: 252 },
            Register::st0 => RegisterInfo { name: "st0", dwarf_id: 33, kind: RegisterKind::Fp, ty: RegisterType::F80, offset: 256 },
            Register::st1 => RegisterInfo { name: "st1", dwarf_id: 34, kind: RegisterKind::Fp, ty: RegisterType::F80, offset: 272 },
            Register::st2 => RegisterInfo { name: "st2", dwarf_id: 35, kind: RegisterKind::Fp, ty: RegisterType::F80, offset: 288 },
            Register::st3 => RegisterInfo { name: "st3", dwarf_id: 36, kind: RegisterKind::Fp, ty: RegisterType::F80, offset: 304 },
            Register::st4 => RegisterInfo { name: "st4", dwarf_id: 37, kind: RegisterKind::Fp, ty: RegisterType::F80, offset: 320 },
            Register::st5 => RegisterInfo { name: "st5", dwarf_id: 38, kind: RegisterKind::Fp, ty: RegisterType::F80, offset: 336 },
            Register::st6 => RegisterInfo { name: "st6", dwarf_id: 39, kind: RegisterKind::Fp, ty: RegisterType::F80, offset: 352 },
            Register::st7 => RegisterInfo { name: "st7", dwarf_id: 40, kind: RegisterKind::Fp, ty: RegisterType::F80, offset: 368 },
            Register::mm0 => RegisterInfo { name: "mm0", dwarf_id: 41, kind: RegisterKind::Fp, ty: RegisterType::U8x8, offset: 256 },
            Register::mm1 => RegisterInfo { name: "mm1", dwarf_id: 42, kind: RegisterKind::Fp, ty: RegisterType::U8x8, offset: 272 },
            Register::mm2 => RegisterInfo { name: "mm2", dwarf_id: 43, kind: RegisterKind::Fp, ty: RegisterType::U8x8, offset: 288 },
            Register::mm3 => RegisterInfo { name: "mm3", dwarf_id: 44, kind: RegisterKind::Fp, ty: RegisterType::U8x8, offset: 304 },
            Register::mm4 => RegisterInfo { name: "mm4", dwarf_id: 45, kind: RegisterKind::Fp, ty: RegisterType::U8x8, offset: 320 },
            Register::mm5 => RegisterInfo { name: "mm5", dwarf_id: 46, kind: RegisterKind::Fp, ty: RegisterType::U8x8, offset: 336 },
            Register::mm6 => RegisterInfo { name: "mm6", dwarf_id: 47, kind: RegisterKind::Fp, ty: RegisterType::U8x8, offset: 352 },
            Register::mm7 => RegisterInfo { name: "mm7", dwarf_id: 48, kind: RegisterKind::Fp, ty: RegisterType::U8x8, offset: 368 },
            Register::xmm0 => RegisterInfo { name: "xmm0", dwarf_id: 17, kind: RegisterKind::Fp, ty: RegisterType::U8x16, offset: 384 },
            Register::xmm1 => RegisterInfo { name: "xmm1", dwarf_id: 18, kind: RegisterKind::Fp, ty: RegisterType::U8x16, offset: 400 },
            Register::xmm2 => RegisterInfo { name: "xmm2", dwarf_id: 19, kind: RegisterKind::Fp, ty: RegisterType::U8x16, offset: 416 },
            Register::xmm3 => RegisterInfo { name: "xmm3", dwarf_id: 20, kind: RegisterKind::Fp, ty: RegisterType::U8x16, offset: 432 },
            Register::xmm4 => RegisterInfo { name: "xmm4", dwarf_id: 21, kind: RegisterKind::Fp, ty: RegisterType::U8x16, offset: 448 },
            Register::xmm5 => RegisterInfo { name: "xmm5", dwarf_id: 22, kind: RegisterKind::Fp, ty: RegisterType::U8x16, offset: 464 },
            Register::xmm6 => RegisterInfo { name: "xmm6", dwarf_id: 23, kind: RegisterKind::Fp, ty: RegisterType::U8x16, offset: 480 },
            Register::xmm7 => RegisterInfo { name: "xmm7", dwarf_id: 24, kind: RegisterKind::Fp, ty: RegisterType::U8x16, offset: 496 },
            Register::xmm8 => RegisterInfo { name: "xmm8", dwarf_id: 25, kind: RegisterKind::Fp, ty: RegisterType::U8x16, offset: 512 },
            Register::xmm9 => RegisterInfo { name: "xmm9", dwarf_id: 26, kind: RegisterKind::Fp, ty: RegisterType::U8x16, offset: 528 },
            Register::xmm10 => RegisterInfo { name: "xmm10", dwarf_id: 27, kind: RegisterKind::Fp, ty: RegisterType::U8x16, offset: 544 },
            Register::xmm11 => RegisterInfo { name: "xmm11", dwarf_id: 28, kind: RegisterKind::Fp, ty: RegisterType::U8x16, offset: 560 },
            Register::xmm12 => RegisterInfo { name: "xmm12", dwarf_id: 29, kind: RegisterKind::Fp, ty: RegisterType::U8x16, offset: 576 },
            Register::xmm13 => RegisterInfo { name: "xmm13", dwarf_id: 30, kind: RegisterKind::Fp, ty: RegisterType::U8x16, offset: 592 },
            Register::xmm14 => RegisterInfo { name: "xmm14", dwarf_id: 31, kind: RegisterKind::Fp, ty: RegisterType::U8x16, offset: 608 },
            Register::xmm15 => RegisterInfo { name: "xmm15", dwarf_id: 32, kind: RegisterKind::Fp, ty: RegisterType::U8x16, offset: 624 },
            Register::dr0 => RegisterInfo { name: "dr0", dwarf_id: -1, kind: RegisterKind::Debug, ty: RegisterType::U64, offset: 848 },
            Register::dr1 => RegisterInfo { name: "dr1", dwarf_id: -1, kind: RegisterKind::Debug, ty: RegisterType::U64, offset: 856 },
            Register::dr2 => RegisterInfo { name: "dr2", dwarf_id: -1, kind: RegisterKind::Debug, ty: RegisterType::U64, offset: 864 },
            Register::dr3 => RegisterInfo { name: "dr3", dwarf_id: -1, kind: RegisterKind::Debug, ty: RegisterType::U64, offset: 872 },
            Register::dr4 => RegisterInfo { name: "dr4", dwarf_id: -1, kind: RegisterKind::Debug, ty: RegisterType::U64, offset: 880 },
            Register::dr5 => RegisterInfo { name: "dr5", dwarf_id: -1, kind: RegisterKind::Debug, ty: RegisterType::U64, offset: 888 },
            Register::dr6 => RegisterInfo { name: "dr6", dwarf_id: -1, kind: RegisterKind::Debug, ty: RegisterType::U64, offset: 896 },
            Register::dr7 => RegisterInfo { name: "dr7", dwarf_id: -1, kind: RegisterKind::Debug, ty: RegisterType::U64, offset: 904 },
        }
    }

    /// The register with the given DWARF number.
    pub open spec fn spec_from_dwarf_id(dwarf_id: i32) -> Option<Register> {
        match dwarf_id {
            0 => Some(Register::rax),
            1 => Some(Register::rdx),
            2 => Some(Register::rcx),
            3 => Some(Register::rbx),
            4 => Some(Register::rsi),
            5 => Some(Register::rdi),
            6 => Some(Register::rbp),
            7 => Some(Register::rsp),
            8 => Some(Register::r8),
            9 => Some(Register::r9),
            10 => Some(Register::r10),
            11 => Some(Register::r11),
            12 => Some(Register::r12),
            13 => Some(Register::r13),
            14 => Some(Register::r14),
            15 => Some(Register::r15),
            16 => Some(Register::rip),
            49 => Some(Register::eflags),
            51 => Some(Register::cs),
            54 => Some(Register::fs),
            55 => Some(Register::gs),
            52 => Some(Register::ss),
            53 => Some(Register::ds),
            50 => Some(Register::es),
            65 => Some(Register::fcw),
            66 => Some(Register::fsw),
            64 => Some(Register::mxcsr),
            33 => Some(Register::st0),
            34 => Some(Register::st1),
            35 => Some(Register::st2),
            36 => Some(Register::st3),
            37 => Some(Register::st4),
            38 => Some(Register::st5),
            39 => Some(Register::st6),
            40 => Some(Register::st7),
            41 => Some(Register::mm0),
            42 => Some(Register::mm1),
            43 => Some(Register::mm2),
            44 => Some(Register::mm3),
            45 => Some(Register::mm4),
            46 => Some(Register::mm5),
            47 => Some(Register::mm6),
            48 => Some(Register::mm7),
            17 => Some(Register::xmm0),
            18 => Some(Register::xmm1),
            19 => Some(Register::xmm2),
            20 => Some(Register::xmm3),
            21 => Some(Register::xmm4),
            22 => Some(Register::xmm5),
            23 => Some(Register::xmm6),
            24 => Some(Register::xmm7),
            25 => Some(Register::xmm8),
            26 => Some(Register::xmm9),
            27 => Some(Register::xmm10),
            28 => Some(Register::xmm11),
            29 => Some(Register::xmm12),
            30 => Some(Register::xmm13),
            31 => Some(Register::xmm14),
            32 => Some(Register::xmm15),
            _ => None,
        }
    }

    /// The register with the given DWARF number, if any.
    pub fn from_dwarf_id(dwarf_id: i32) -> (r: Option<Register>)
        ensures
            r == Register::spec_from_dwarf_id(dwarf_id),
    {
        match dwarf_id {
            -1 => None,
            0 => Some(Register::rax),
            1 => Some(Register::rdx),
            2 => Some(Register::rcx),
            3 => Some(Register::rbx),
            4 => Some(Register::rsi),
            5 => Some(Register::rdi),
            6 => Some(Register::rbp),
            7 => Some(Register::rsp),
            8 => Some(Register::r8),
            9 => Some(Register::r9),
            10 => Some(Register::r10),
            11 => Some(Register::r11),
            12 => Some(Register::r12),
            13 => Some(Register::r13),
            14 => Some(Register::r14),
            15 => Some(Register::r15),
            16 => Some(Register::rip),
            49 => Some(Register::eflags),
            51 => Some(Register::cs),
            54 => Some(Register::fs),
            55 => Some(Register::gs),
            52 => Some(Register::ss),
            53 => Some(Register::ds),
            50 => Some(Register::es),
            65 => Some(Register::fcw),
            66 => Some(Register::fsw),
            64 => Some(Register::mxcsr),
            33 => Some(Register::st0),
            34 => Some(Register::st1),
            35 => Some(Register::st2),
            36 => Some(Register::st3),
            37 => Some(Register::st4),
            38 => Some(Register::st5),
            39 => Some(Register::st6),
            40 => Some(Register::st7),
            41 => Some(Register::mm0),
            42 => Some(Register::mm1),
            43 => Some(Register::mm2),
            44 => Some(Register::mm3),
            45 => Some(Register::mm4),
            46 => Some(Register::mm5),
            47 => Some(Register::mm6),
            48 => Some(Register::mm7),
            17 => Some(Register::xmm0),
            18 => Some(Register::xmm1),
            19 => Some(Register::xmm2),
            20 => Some(Register::xmm3),
            21 => Some(Register::xmm4),
            22 => Some(Register::xmm5),
            23 => Some(Register::xmm6),
            24 => Some(Register::xmm7),
            25 => Some(Register::xmm8),
            26 => Some(Register::xmm9),
            27 => Some(Register::xmm10),
            28 => Some(Register::xmm11),
            29 => Some(Register::xmm12),
            30 => Some(Register::xmm13),
            31 => Some(Register::xmm14),
            32 => Some(Register::xmm15),
            _ => None,
        }
    }

    /// The register with the given name.
    pub open spec fn spec_from_name(name: Seq<char>) -> Option<Register> {
        if name == "rax"@ {
            Some(Register::rax)
        } else if name == "rdx"@ {
            Some(Register::rdx)
        } else if name == "rcx"@ {
            Some(Register::rcx)
        } else if name == "rbx"@ {
            Some(Register::rbx)
        } else if name == "rsi"@ {
            Some(Register::rsi)
        } else if name == "rdi"@ {
            Some(Register::rdi)
        } else if name == "rbp"@ {
            Some(Register::rbp)
        } else if name == "rsp"@ {
            Some(Register::rsp)
        } else if name == "r8"@ {
            Some(Register::r8)
        } else if name == "r9"@ {
            Some(Register::r9)
        } else if name == "r10"@ {
            Some(Register::r10)
        } else if name == "r11"@ {
            Some(Register::r11)
        } else if name == "r12"@ {
            Some(Register::r12)
        } else if name == "r13"@ {
            Some(Register::r13)
        } else if name == "r14"@ {
            Some(Register::r14)
        } else if name == "r15"@ {
            Some(Register::r15)
        } else if name == "rip"@ {
            Some(Register::rip)
        } else if name == "eflags"@ {
            Some(Register::eflags)
        } else if name == "cs"@ {
            Some(Register::cs)
        } else if name == "fs"@ {
            Some(Register::fs)
        } else if name == "gs"@ {
            Some(Register::gs)
        } else if name == "ss"@ {
            Some(Register::ss)
        } else if name == "ds"@ {
            Some(Register::ds)
        } else if name == "es"@ {
            Some(Register::es)
        } else if name == "orig_rax"@ {
            Some(Register::orig_rax)
        } else if name == "eax"@ {
            Some(Register::eax)
        } else if name == "edx"@ {
            Some(Register::edx)
        } else if name == "ecx"@ {
            Some(Register::ecx)
        } else if name == "ebx"@ {
            Some(Register::ebx)
        } else if name == "esi"@ {
            Some(Register::esi)
        } else if name == "edi"@ {
            Some(Register::edi)
        } else if name == "ebp"@ {
            Some(Register::ebp)
        } else if name == "esp"@ {
            Some(Register::esp)
        } else if name == "r8d"@ {
            Some(Register::r8d)
        } else if name == "r9d"@ {
            Some(Register::r9d)
        } else if name == "r10d"@ {
            Some(Register::r10d)
        } else if name == "r11d"@ {
            Some(Register::r11d)
        } else if name == "r12d"@ {
            Some(Register::r12d)
        } else if name == "r13d"@ {
            Some(Register::r13d)
        } else if name == "r14d"@ {
            Some(Register::r14d)
        } else if name == "r15d"@ {
            Some(Register::r15d)
        } else if name == "ax"@ {
            Some(Register::ax)
        } else if name == "dx"@ {
            Some(Register::dx)
        } else if name == "cx"@ {
            Some(Register::cx)
        } else if name == "bx"@ {
            Some(Register::bx)
        } else if name == "si"@ {
            Some(Register::si)
        } else if name == "di"@ {
            Some(Register::di)
        } else if name == "bp"@ {
            Some(Register::bp)
        } else if name == "sp"@ {
            Some(Register::sp)
        } else if name == "r8w"@ {
            Some(Register::r8w)
        } else if name == "r9w"@ {
            Some(Register::r9w)
        } else if name == "r10w"@ {
            Some(Register::r10w)
        } else if name == "r11w"@ {
            Some(Register::r11w)
        } else if name == "r12w"@ {
            Some(Register::r12w)
        } else if name == "r13w"@ {
            Some(Register::r13w)
        } else if name == "r14w"@ {
            Some(Register::r14w)
        } else if name == "r15w"@ {
            Some(Register::r15w)
        } else if name == "ah"@ {
            Some(Register::ah)
        } else if name == "dh"@ {
            Some(Register::dh)
        } else if name == "ch"@ {
            Some(Register::ch)
        } else if name == "bh"@ {
            Some(Register::bh)
        } else if name == "al"@ {
            Some(Register::al)
        } else if name == "dl"@ {
            Some(Register::dl)
        } else if name == "cl"@ {
            Some(Register::cl)
        } else if name == "bl"@ {
            Some(Register::bl)
        } else if name == "sil"@ {
            Some(Register::sil)
        } else if name == "dil"@ {
            Some(Register::dil)
        } else if name == "bpl"@ {
            Some(Register::bpl)
        } else if name == "spl"@ {
            Some(Register::spl)
        } else if name == "r8b"@ {
            Some(Register::r8b)
        } else if name == "r9b"@ {
            Some(Register::r9b)
        } else if name == "r10b"@ {
            Some(Register::r10b)
        } else if name == "r11b"@ {
            Some(Register::r11b)
        } else if name == "r12b"@ {
            Some(Register::r12b)
        } else if name == "r13b"@ {
            Some(Register::r13b)
        } else if name == "r14b"@ {
            Some(Register::r14b)
        } else if name == "r15b"@ {
            Some(Register::r15b)
        } else if name == "fcw"@ {
            Some(Register::fcw)
        } else if name == "fsw"@ {
            Some(Register::fsw)
        } else if name == "ftw"@ {
            Some(Register::ftw)
        } else if name == "fop"@ {
            Some(Register::fop)
        } else if name == "frip"@ {
            Some(Register::frip)
        } else if name == "frdp"@ {
            Some(Register::frdp)
        } else if name == "mxcsr"@ {
            Some(Register::mxcsr)
        } else if name == "mxcsrmask"@ {
            Some(Register::mxcsrmask)
        } else if name == "st0"@ {
            Some(Register::st0)
        } else if name == "st1"@ {
            Some(Register::st1)
        } else if name == "st2"@ {
            Some(Register::st2)
        } else if name == "st3"@ {
            Some(Register::st3)
        } else if name == "st4"@ {
            Some(Register::st4)
        } else if name == "st5"@ {
            Some(Register::st5)
        } else if name == "st6"@ {
            Some(Register::st6)
        } else if name == "st7"@ {
            Some(Register::st7)
        } else if name == "mm0"@ {
            Some(Register::mm0)
        } else if name == "mm1"@ {
            Some(Register::mm1)
        } else if name == "mm2"@ {
            Some(Register::mm2)
        } else if name == "mm3"@ {
            Some(Register::mm3)
        } else if name == "mm4"@ {
            Some(Register::mm4)
        } else if name == "mm5"@ {
            Some(Register::mm5)
        } else if name == "mm6"@ {
            Some(Register::mm6)
        } else if name == "mm7"@ {
            Some(Register::mm7)
        } else if name == "xmm0"@ {
            Some(Register::xmm0)
        } else if name == "xmm1"@ {
            Some(Register::xmm1)
        } else if name == "xmm2"@ {
            Some(Register::xmm2)
        } else if name == "xmm3"@ {
            Some(Register::xmm3)
        } else if name == "xmm4"@ {
            Some(Register::xmm4)
        } else if name == "xmm5"@ {
            Some(Register::xmm5)
        } else if name == "xmm6"@ {
            Some(Register::xmm6)
        } else if name == "xmm7"@ {
            Some(Register::xmm7)
        } else if name == "xmm8"@ {
            Some(Register::xmm8)
        } else if name == "xmm9"@ {
            Some(Register::xmm9)
        } else if name == "xmm10"@ {
            Some(Register::xmm10)
        } else if name == "xmm11"@ {
            Some(Register::xmm11)
        } else if name == "xmm12"@ {
            Some(Register::xmm12)
        } else if name == "xmm13"@ {
            Some(Register::xmm13)
        } else if name == "xmm14"@ {
            Some(Register::xmm14)
        } else if name == "xmm15"@ {
            Some(Register::xmm15)
        } else if name == "dr0"@ {
            Some(Register::dr0)
        } else if name == "dr1"@ {
            Some(Register::dr1)
        } else if name == "dr2"@ {
            Some(Register::dr2)
        } else if name == "dr3"@ {
            Some(Register::dr3)
        } else if name == "dr4"@ {
            Some(Register::dr4)
        } else if name == "dr5"@ {
            Some(Register::dr5)
        } else if name == "dr6"@ {
            Some(Register::dr6)
        } else if name == "dr7"@ {
            Some(Register::dr7)
        } else {
            None
        }
    }

    /// The register with the given name, if any.
    pub fn from_name(name: &str) -> (r: Option<Register>)
        ensures
            r == Register::spec_from_name(name@),
    {
        if str_eq(name, "rax") {
            return Some(Register::rax);
        }
        if str_eq(name, "rdx") {
            return Some(Register::rdx);
        }
        if str_eq(name, "rcx") {
            return Some(Register::rcx);
        }
        if str_eq(name, "rbx") {
            return Some(Register::rbx);
        }
        if str_eq(name, "rsi") {
            return Some(Register::rsi);
        }
        if str_eq(name, "rdi") {
            return Some(Register::rdi);
        }
        if str_eq(name, "rbp") {
            return Some(Register::rbp);
        }
        if str_eq(name, "rsp") {
            return Some(Register::rsp);
        }
        if str_eq(name, "r8") {
            return Some(Register::r8);
        }
        if str_eq(name, "r9") {
            return Some(Register::r9);
        }
        if str_eq(name, "r10") {
            return Some(Register::r10);
        }
        if str_eq(name, "r11") {
            return Some(Register::r11);
        }
        if str_eq(name, "r12") {
            return Some(Register::r12);
        }
        if str_eq(name, "r13") {
            return Some(Register::r13);
        }
        if str_eq(name, "r14") {
            return Some(Register::r14);
        }
        if str_eq(name, "r15") {
            return Some(Register::r15);
        }
        if str_eq(name, "rip") {
            return Some(Register::rip);
        }
        if str_eq(name, "eflags") {
            return Some(Register::eflags);
        }
        if str_eq(name, "cs") {
            return Some(Register::cs);
        }
        if str_eq(name, "fs") {
            return Some(Register::fs);
        }
        if str_eq(name, "gs") {
            return Some(Register::gs);
        }
        if str_eq(name, "ss") {
            return Some(Register::ss);
        }
        if str_eq(name, "ds") {
            return Some(Register::ds);
        }
        if str_eq(name, "es") {
            return Some(Register::es);
        }
        if str_eq(name, "orig_rax") {
            return Some(Register::orig_rax);
        }
        if str_eq(name, "eax") {
            return Some(Register::eax);
        }
        if str_eq(name, "edx") {
            return Some(Register::edx);
        }
        if str_eq(name, "ecx") {
            return Some(Register::ecx);
        }
        if str_eq(name, "ebx") {
            return Some(Register::ebx);
        }
        if str_eq(name, "esi") {
            return Some(Register::esi);
        }
        if str_eq(name, "edi") {
            return Some(Register::edi);
        }
        if str_eq(name, "ebp") {
            return Some(Register::ebp);
        }
        if str_eq(name, "esp") {
            return Some(Register::esp);
        }
        if str_eq(name, "r8d") {
            return Some(Register::r8d);
        }
        if str_eq(name, "r9d") {
            return Some(Register::r9d);
        }
        if str_eq(name, "r10d") {
            return Some(Register::r10d);
        }
        if str_eq(name, "r11d") {
            return Some(Register::r11d);
        }
        if str_eq(name, "r12d") {
            return Some(Register::r12d);
        }
        if str_eq(name, "r13d") {
            return Some(Register::r13d);
        }
        if str_eq(name, "r14d") {
            return Some(Register::r14d);
        }
        if str_eq(name, "r15d") {
            return Some(Register::r15d);
        }
        if str_eq(name, "ax") {
            return Some(Register::ax);
        }
        if str_eq(name, "dx") {
            return Some(Register::dx);
        }
        if str_eq(name, "cx") {
            return Some(Register::cx);
        }
        if str_eq(name, "bx") {
            return Some(Register::bx);
        }
        if str_eq(name, "si") {
            return Some(Register::si);
        }
        if str_eq(name, "di") {
            return Some(Register::di);
        }
        if str_eq(name, "bp") {
            return Some(Register::bp);
        }
        if str_eq(name, "sp") {
            return Some(Register::sp);
        }
        if str_eq(name, "r8w") {
            return Some(Register::r8w);
        }
        if str_eq(name, "r9w") {
            return Some(Register::r9w);
        }
        if str_eq(name, "r10w") {
            return Some(Register::r10w);
        }
        if str_eq(name, "r11w") {
            return Some(Register::r11w);
        }
        if str_eq(name, "r12w") {
            return Some(Register::r12w);
        }
        if str_eq(name, "r13w") {
            return Some(Register::r13w);
        }
        if str_eq(name, "r14w") {
            return Some(Register::r14w);
        }
        if str_eq(name, "r15w") {
            return Some(Register::r15w);
        }
        if str_eq(name, "ah") {
            return Some(Register::ah);
        }
        if str_eq(name, "dh") {
            return Some(Register::dh);
        }
        if str_eq(name, "ch") {
            return Some(Register::ch);
        }
        if str_eq(name, "bh") {
            return Some(Register::bh);
        }
        if str_eq(name, "al") {
            return Some(Register::al);
        }
        if str_eq(name, "dl") {
            return Some(Register::dl);
        }
        if str_eq(name, "cl") {
            return Some(Register::cl);
        }
        if str_eq(name, "bl") {
            return Some(Register::bl);
        }
        if str_eq(name, "sil") {
            return Some(Register::sil);
        }
        if str_eq(name, "dil") {
            return Some(Register::dil);
        }
        if str_eq(name, "bpl") {
            return Some(Register::bpl);
        }
        if str_eq(name, "spl") {
            return Some(Register::spl);
        }
        if str_eq(name, "r8b") {
            return Some(Register::r8b);
        }
        if str_eq(name, "r9b") {
            return Some(Register::r9b);
        }
        if str_eq(name, "r10b") {
            return Some(Register::r10b);
        }
        if str_eq(name, "r11b") {
            return Some(Register::r11b);
        }
        if str_eq(name, "r12b") {
            return Some(Register::r12b);
        }
        if str_eq(name, "r13b") {
            return Some(Register::r13b);
        }
        if str_eq(name, "r14b") {
            return Some(Register::r14b);
        }
        if str_eq(name, "r15b") {
            return Some(Register::r15b);
        }
        if str_eq(name, "fcw") {
            return Some(Register::fcw);
        }
        if str_eq(name, "fsw") {
            return Some(Register::fsw);
        }
        if str_eq(name, "ftw") {
            return Some(Register::ftw);
        }
        if str_eq(name, "fop") {
            return Some(Register::fop);
        }
        if str_eq(name, "frip") {
            return Some(Register::frip);
        }
        if str_eq(name, "frdp") {
            return Some(Register::frdp);
        }
        if str_eq(name, "mxcsr") {
            return Some(Register::mxcsr);
        }
        if str_eq(name, "mxcsrmask") {
            return Some(Register::mxcsrmask);
        }
        if str_eq(name, "st0") {
            return Some(Register::st0);
        }
        if str_eq(name, "st1") {
            return Some(Register::st1);
        }
        if str_eq(name, "st2") {
            return Some(Register::st2);
        }
        if str_eq(name, "st3") {
            return Some(Register::st3);
        }
        if str_eq(name, "st4") {
            return Some(Register::st4);
        }
        if str_eq(name, "st5") {
            return Some(Register::st5);
        }
        if str_eq(name, "st6") {
            return Some(Register::st6);
        }
        if str_eq(name, "st7") {
            return Some(Register::st7);
        }
        if str_eq(name, "mm0") {
            return Some(Register::mm0);
        }
        if str_eq(name, "mm1") {
            return Some(Register::mm1);
        }
        if str_eq(name, "mm2") {
            return Some(Register::mm2);
        }
        if str_eq(name, "mm3") {
            return Some(Register::mm3);
        }
        if str_eq(name, "mm4") {
            return Some(Register::mm4);
        }
        if str_eq(name, "mm5") {
            return Some(Register::mm5);
        }
        if str_eq(name, "mm6") {
            return Some(Register::mm6);
        }
        if str_eq(name, "mm7") {
            return Some(Register::mm7);
        }
        if str_eq(name, "xmm0") {
            return Some(Register::xmm0);
        }
        if str_eq(name, "xmm1") {
            return Some(Register::xmm1);
        }
        if str_eq(name, "xmm2") {
            return Some(Register::xmm2);
        }
        if str_eq(name, "xmm3") {
            return Some(Register::xmm3);
        }
        if str_eq(name, "xmm4") {
            return Some(Register::xmm4);
        }
        if str_eq(name, "xmm5") {
            return Some(Register::xmm5);
        }
        if str_eq(name, "xmm6") {
            return Some(Register::xmm6);
        }
        if str_eq(name, "xmm7") {
            return Some(Register::xmm7);
        }
        if str_eq(name, "xmm8") {
            return Some(Register::xmm8);
        }
        if str_eq(name, "xmm9") {
            return Some(Register::xmm9);
        }
        if str_eq(name, "xmm10") {
            return Some(Register::xmm10);
        }
        if str_eq(name, "xmm11") {
            return Some(Register::xmm11);
        }
        if str_eq(name, "xmm12") {
            return Some(Register::xmm12);
        }
        if str_eq(name, "xmm13") {
            return Some(Register::xmm13);
        }
        if str_eq(name, "xmm14") {
            return Some(Register::xmm14);
        }
        if str_eq(name, "xmm15") {
            return Some(Register::xmm15);
        }
        if str_eq(name, "dr0") {
            return Some(Register::dr0);
        }
        if str_eq(name, "dr1") {
            return Some(Register::dr1);
        }
        if str_eq(name, "dr2") {
            return Some(Register::dr2);
        }
        if str_eq(name, "dr3") {
            return Some(Register::dr3);
        }
        if str_eq(name, "dr4") {
            return Some(Register::dr4);
        }
        if str_eq(name, "dr5") {
            return Some(Register::dr5);
        }
        if str_eq(name, "dr6") {
            return Some(Register::dr6);
        }
        if str_eq(name, "dr7") {
            return Some(Register::dr7);
        }
        None
    }

    /// The full 64-bit register of which a subregister is a part.
    pub open spec fn spec_super(self) -> Register {
        match self {
            Register::eax => Register::rax,
            Register::edx => Register::rdx,
            Register::ecx => Register::rcx,
            Register::ebx => Register::rbx,
            Register::esi => Register::rsi,
            Register::edi => Register::rdi,
            Register::ebp => Register::rbp,
            Register::esp => Register::rsp,
            Register::r8d => Register::r8,
            Register::r9d => Register::r9,
            Register::r10d => Register::r10,
            Register::r11d => Register::r11,
            Register::r12d => Register::r12,
            Register::r13d => Register::r13,
            Register::r14d => Register::r14,
            Register::r15d => Register::r15,
            Register::ax => Register::rax,
            Register::dx => Register::rdx,
            Register::cx => Register::rcx,
            Register::bx => Register::rbx,
            Register::si => Register::rsi,
            Register::di => Register::rdi,
            Register::bp => Register::rbp,
            Register::sp => Register::rsp,
            Register::r8w => Register::r8,
            Register::r9w => Register::r9,
            Register::r10w => Register::r10,
            Register::r11w => Register::r11,
            Register::r12w => Register::r12,
            Register::r13w => Register::r13,
            Register::r14w => Register::r14,
            Register::r15w => Register::r15,
            Register::ah => Register::rax,
            Register::dh => Register::rdx,
            Register::ch => Register::rcx,
            Register::bh => Register::rbx,
            Register::al => Register::rax,
            Register::dl => Register::rdx,
            Register::cl => Register::rcx,
            Register::bl => Register::rbx,
            Register::sil => Register::rsi,
            Register::dil => Register::rdi,
            Register::bpl => Register::rbp,
            Register::spl => Register::rsp,
            Register::r8b => Register::r8,
            Register::r9b => Register::r9,
            Register::r10b => Register::r10,
            Register::r11b => Register::r11,
            Register::r12b => Register::r12,
            Register::r13b => Register::r13,
            Register::r14b => Register::r14,
            Register::r15b => Register::r15,
            _ => self,
        }
    }
}

} // verus!


verus! {

/// Every register that has a DWARF number is found again by that number.
pub proof fn lemma_dwarf_id_round_trip(r: Register)
    requires
        r.spec_info().dwarf_id != -1,
    ensures
        Register::spec_from_dwarf_id(r.spec_info().dwarf_id) == Some(r),
{
}

/// A register found by a DWARF number has that number.
pub proof fn lemma_from_dwarf_id_sound(dwarf_id: i32)
    ensures
        Register::spec_from_dwarf_id(dwarf_id) matches Some(r) ==> r.spec_info().dwarf_id == dwarf_id,
        Register::spec_from_dwarf_id(-1i32) is None,
{
}

/// A register found by a name has that name.
pub proof fn lemma_from_name_sound(name: Seq<char>)
    ensures
        Register::spec_from_name(name) matches Some(r) ==> r.spec_info().name@ == name,
{
}

/// Every register is found again by its name: no two registers share a name.
pub proof fn lemma_name_round_trip(r: Register)
    ensures
        Register::spec_from_name(r.spec_info().name@) == Some(r),
{
    reveal_strlit("rax");
    reveal_strlit("rdx");
    reveal_strlit("rcx");
    reveal_strlit("rbx");
    reveal_strlit("rsi");
    reveal_strlit("rdi");
    reveal_strlit("rbp");
    reveal_strlit("rsp");
    reveal_strlit("r8");
    reveal_strlit("r9");
    reveal_strlit("r10");
    reveal_strlit("r11");
    reveal_strlit("r12");
    reveal_strlit("r13");
    reveal_strlit("r14");
    reveal_strlit("r15");
    reveal_strlit("rip");
    reveal_strlit("eflags");
    reveal_strlit("cs");
    reveal_strlit("fs");
    reveal_strlit("gs");
    reveal_strlit("ss");
    reveal_strlit("ds");
    reveal_strlit("es");
    reveal_strlit("orig_rax");
    reveal_strlit("eax");
    reveal_strlit("edx");
    reveal_strlit("ecx");
    reveal_strlit("ebx");
    reveal_strlit("esi");
    reveal_strlit("edi");
    reveal_strlit("ebp");
    reveal_strlit("esp");
    reveal_strlit("r8d");
    reveal_strlit("r9d");
    reveal_strlit("r10d");
    reveal_strlit("r11d");
    reveal_strlit("r12d");
    reveal_strlit("r13d");
    reveal_strlit("r14d");
    reveal_strlit("r15d");
    reveal_strlit("ax");
    reveal_strlit("dx");
    reveal_strlit("cx");
    reveal_strlit("bx");
    reveal_strlit("si");
    reveal_strlit("di");
    reveal_strlit("bp");
    reveal_strlit("sp");
    reveal_strlit("r8w");
    reveal_strlit("r9w");
    reveal_strlit("r10w");
    reveal_strlit("r11w");
    reveal_strlit("r12w");
    reveal_strlit("r13w");
    reveal_strlit("r14w");
    reveal_strlit("r15w");
    reveal_strlit("ah");
    reveal_strlit("dh");
    reveal_strlit("ch");
    reveal_strlit("bh");
    reveal_strlit("al");
    reveal_strlit("dl");
    reveal_strlit("cl");
    reveal_strlit("bl");
    reveal_strlit("sil");
    reveal_strlit("dil");
    reveal_strlit("bpl");
    reveal_strlit("spl");
    reveal_strlit("r8b");
    reveal_strlit("r9b");
    reveal_strlit("r10b");
    reveal_strlit("r11b");
    reveal_strlit("r12b");
    reveal_strlit("r13b");
    reveal_strlit("r14b");
    reveal_strlit("r15b");
    reveal_strlit("fcw");
    reveal_strlit("fsw");
    reveal_strlit("ftw");
    reveal_strlit("fop");
    reveal_strlit("frip");
    reveal_strlit("frdp");
    reveal_strlit("mxcsr");
    reveal_strlit("mxcsrmask");
    reveal_strlit("st0");
    reveal_strlit("st1");
    reveal_strlit("st2");
    reveal_strlit("st3");
    reveal_strlit("st4");
    reveal_strlit("st5");
    reveal_strlit("st6");
    reveal_strlit("st7");
    reveal_strlit("mm0");
    reveal_strlit("mm1");
    reveal_strlit("mm2");
    reveal_strlit("mm3");
    reveal_strlit("mm4");
    reveal_strlit("mm5");
    reveal_strlit("mm6");
    reveal_strlit("mm7");
    reveal_strlit("xmm0");
    reveal_strlit("xmm1");
    reveal_strlit("xmm2");
    reveal_strlit("xmm3");
    reveal_strlit("xmm4");
    reveal_strlit("xmm5");
    reveal_strlit("xmm6");
    reveal_strlit("xmm7");
    reveal_strlit("xmm8");
    reveal_strlit("xmm9");
    reveal_strlit("xmm10");
    reveal_strlit("xmm11");
    reveal_strlit("xmm12");
    reveal_strlit("xmm13");
    reveal_strlit("xmm14");
    reveal_strlit("xmm15");
    reveal_strlit("dr0");
    reveal_strlit("dr1");
    reveal_strlit("dr2");
    reveal_strlit("dr3");
    reveal_strlit("dr4");
    reveal_strlit("dr5");
    reveal_strlit("dr6");
    reveal_strlit("dr7");
    assert("rax"@.len() == 3 && "rax"@[0] == 'r' && "rax"@[1] == 'a' && "rax"@[2] == 'x');
    assert("rdx"@.len() == 3 && "rdx"@[0] == 'r' && "rdx"@[1] == 'd' && "rdx"@[2] == 'x');
    assert("rcx"@.len() == 3 && "rcx"@[0] == 'r' && "rcx"@[1] == 'c' && "rcx"@[2] == 'x');
    assert("rbx"@.len() == 3 && "rbx"@[0] == 'r' && "rbx"@[1] == 'b' && "rbx"@[2] == 'x');
    assert("rsi"@.len() == 3 && "rsi"@[0] == 'r' && "rsi"@[1] == 's' && "rsi"@[2] == 'i');
    assert("rdi"@.len() == 3 && "rdi"@[0] == 'r' && "rdi"@[1] == 'd' && "rdi"@[2] == 'i');
    assert("rbp"@.len() == 3 && "rbp"@[0] == 'r' && "rbp"@[1] == 'b' && "rbp"@[2] == 'p');
    assert("rsp"@.len() == 3 && "rsp"@[0] == 'r' && "rsp"@[1] == 's' && "rsp"@[2] == 'p');
    assert("r8"@.len() == 2 && "r8"@[0] == 'r' && "r8"@[1] == '8');
    assert("r9"@.len() == 2 && "r9"@[0] == 'r' && "r9"@[1] == '9');
    assert("r10"@.len() == 3 && "r10"@[0] == 'r' && "r10"@[1] == '1' && "r10"@[2] == '0');
    assert("r11"@.len() == 3 && "r11"@[0] == 'r' && "r11"@[1] == '1' && "r11"@[2] == '1');
    assert("r12"@.len() == 3 && "r12"@[0] == 'r' && "r12"@[1] == '1' && "r12"@[2] == '2');
    assert("r13"@.len() == 3 && "r13"@[0] == 'r' && "r13"@[1] == '1' && "r13"@[2] == '3');
    assert("r14"@.len() == 3 && "r14"@[0] == 'r' && "r14"@[1] == '1' && "r14"@[2] == '4');
    assert("r15"@.len() == 3 && "r15"@[0] == 'r' && "r15"@[1] == '1' && "r15"@[2] == '5');
    assert("rip"@.len() == 3 && "rip"@[0] == 'r' && "rip"@[1] == 'i' && "rip"@[2] == 'p');
    assert("eflags"@.len() == 6 && "eflags"@[0] == 'e' && "eflags"@[1] == 'f' && "eflags"@[2] == 'l' && "eflags"@[3] == 'a' && "eflags"@[4] == 'g' && "eflags"@[5] == 's');
    assert("cs"@.len() == 2 && "cs"@[0] == 'c' && "cs"@[1] == 's');
    assert("fs"@.len() == 2 && "fs"@[0] == 'f' && "fs"@[1] == 's');
    assert("gs"@.len() == 2 && "gs"@[0] == 'g' && "gs"@[1] == 's');
    assert("ss"@.len() == 2 && "ss"@[0] == 's' && "ss"@[1] == 's');
    assert("ds"@.len() == 2 && "ds"@[0] == 'd' && "ds"@[1] == 's');
    assert("es"@.len() == 2 && "es"@[0] == 'e' && "es"@[1] == 's');
    assert("orig_rax"@.len() == 8 && "orig_rax"@[0] == 'o' && "orig_rax"@[1] == 'r' && "orig_rax"@[2] == 'i' && "orig_rax"@[3] == 'g' && "orig_rax"@[4] == '_' && "orig_rax"@[5] == 'r' && "orig_rax"@[6] == 'a' && "orig_rax"@[7] == 'x');
    assert("eax"@.len() == 3 && "eax"@[0] == 'e' && "eax"@[1] == 'a' && "eax"@[2] == 'x');
    assert("edx"@.len() == 3 && "edx"@[0] == 'e' && "edx"@[1] == 'd' && "edx"@[2] == 'x');
    assert("ecx"@.len() == 3 && "ecx"@[0] == 'e' && "ecx"@[1] == 'c' && "ecx"@[2] == 'x');
    assert("ebx"@.len() == 3 && "ebx"@[0] == 'e' && "ebx"@[1] == 'b' && "ebx"@[2] == 'x');
    assert("esi"@.len() == 3 && "esi"@[0] == 'e' && "esi"@[1] == 's' && "esi"@[2] == 'i');
    assert("edi"@.len() == 3 && "edi"@[0] == 'e' && "edi"@[1] == 'd' && "edi"@[2] == 'i');
    assert("ebp"@.len() == 3 && "ebp"@[0] == 'e' && "ebp"@[1] == 'b' && "ebp"@[2] == 'p');
    assert("esp"@.len() == 3 && "esp"@[0] == 'e' && "esp"@[1] == 's' && "esp"@[2] == 'p');
    assert("r8d"@.len() == 3 && "r8d"@[0] == 'r' && "r8d"@[1] == '8' && "r8d"@[2] == 'd');
    assert("r9d"@.len() == 3 && "r9d"@[0] == 'r' && "r9d"@[1] == '9' && "r9d"@[2] == 'd');
    assert("r10d"@.len() == 4 && "r10d"@[0] == 'r' && "r10d"@[1] == '1' && "r10d"@[2] == '0' && "r10d"@[3] == 'd');
    assert("r11d"@.len() == 4 && "r11d"@[0] == 'r' && "r11d"@[1] == '1' && "r11d"@[2] == '1' && "r11d"@[3] == 'd');
    assert("r12d"@.len() == 4 && "r12d"@[0] == 'r' && "r12d"@[1] == '1' && "r12d"@[2] == '2' && "r12d"@[3] == 'd');
    assert("r13d"@.len() == 4 && "r13d"@[0] == 'r' && "r13d"@[1] == '1' && "r13d"@[2] == '3' && "r13d"@[3] == 'd');
    assert("r14d"@.len() == 4 && "r14d"@[0] == 'r' && "r14d"@[1] == '1' && "r14d"@[2] == '4' && "r14d"@[3] == 'd');
    assert("r15d"@.len() == 4 && "r15d"@[0] == 'r' && "r15d"@[1] == '1' && "r15d"@[2] == '5' && "r15d"@[3] == 'd');
    assert("ax"@.len() == 2 && "ax"@[0] == 'a' && "ax"@[1] == 'x');
    assert("dx"@.len() == 2 && "dx"@[0] == 'd' && "dx"@[1] == 'x');
    assert("cx"@.len() == 2 && "cx"@[0] == 'c' && "cx"@[1] == 'x');
    assert("bx"@.len() == 2 && "bx"@[0] == 'b' && "bx"@[1] == 'x');
    assert("si"@.len() == 2 && "si"@[0] == 's' && "si"@[1] == 'i');
    assert("di"@.len() == 2 && "di"@[0] == 'd' && "di"@[1] == 'i');
    assert("bp"@.len() == 2 && "bp"@[0] == 'b' && "bp"@[1] == 'p');
    assert("sp"@.len() == 2 && "sp"@[0] == 's' && "sp"@[1] == 'p');
    assert("r8w"@.len() == 3 && "r8w"@[0] == 'r' && "r8w"@[1] == '8' && "r8w"@[2] == 'w');
    assert("r9w"@.len() == 3 && "r9w"@[0] == 'r' && "r9w"@[1] == '9' && "r9w"@[2] == 'w');
    assert("r10w"@.len() == 4 && "r10w"@[0] == 'r' && "r10w"@[1] == '1' && "r10w"@[2] == '0' && "r10w"@[3] == 'w');
    assert("r11w"@.len() == 4 && "r11w"@[0] == 'r' && "r11w"@[1] == '1' && "r11w"@[2] == '1' && "r11w"@[3] == 'w');
    assert("r12w"@.len() == 4 && "r12w"@[0] == 'r' && "r12w"@[1] == '1' && "r12w"@[2] == '2' && "r12w"@[3] == 'w');
    assert("r13w"@.len() == 4 && "r13w"@[0] == 'r' && "r13w"@[1] == '1' && "r13w"@[2] == '3' && "r13w"@[3] == 'w');
    assert("r14w"@.len() == 4 && "r14w"@[0] == 'r' && "r14w"@[1] == '1' && "r14w"@[2] == '4' && "r14w"@[3] == 'w');
    assert("r15w"@.len() == 4 && "r15w"@[0] == 'r' && "r15w"@[1] == '1' && "r15w"@[2] == '5' && "r15w"@[3] == 'w');
    assert("ah"@.len() == 2 && "ah"@[0] == 'a' && "ah"@[1] == 'h');
    assert("dh"@.len() == 2 && "dh"@[0] == 'd' && "dh"@[1] == 'h');
    assert("ch"@.len() == 2 && "ch"@[0] == 'c' && "ch"@[1] == 'h');
    assert("bh"@.len() == 2 && "bh"@[0] == 'b' && "bh"@[1] == 'h');
    assert("al"@.len() == 2 && "al"@[0] == 'a' && "al"@[1] == 'l');
    assert("dl"@.len() == 2 && "dl"@[0] == 'd' && "dl"@[1] == 'l');
    assert("cl"@.len() == 2 && "cl"@[0] == 'c' && "cl"@[1] == 'l');
    assert("bl"@.len() == 2 && "bl"@[0] == 'b' && "bl"@[1] == 'l');
    assert("sil"@.len() == 3 && "sil"@[0] == 's' && "sil"@[1] == 'i' && "sil"@[2] == 'l');
    assert("dil"@.len() == 3 && "dil"@[0] == 'd' && "dil"@[1] == 'i' && "dil"@[2] == 'l');
    assert("bpl"@.len() == 3 && "bpl"@[0] == 'b' && "bpl"@[1] == 'p' && "bpl"@[2] == 'l');
    assert("spl"@.len() == 3 && "spl"@[0] == 's' && "spl"@[1] == 'p' && "spl"@[2] == 'l');
    assert("r8b"@.len() == 3 && "r8b"@[0] == 'r' && "r8b"@[1] == '8' && "r8b"@[2] == 'b');
    assert("r9b"@.len() == 3 && "r9b"@[0] == 'r' && "r9b"@[1] == '9' && "r9b"@[2] == 'b');
    assert("r10b"@.len() == 4 && "r10b"@[0] == 'r' && "r10b"@[1] == '1' && "r10b"@[2] == '0' && "r10b"@[3] == 'b');
    assert("r11b"@.len() == 4 && "r11b"@[0] == 'r' && "r11b"@[1] == '1' && "r11b"@[2] == '1' && "r11b"@[3] == 'b');
    assert("r12b"@.len() == 4 && "r12b"@[0] == 'r' && "r12b"@[1] == '1' && "r12b"@[2] == '2' && "r12b"@[3] == 'b');
    assert("r13b"@.len() == 4 && "r13b"@[0] == 'r' && "r13b"@[1] == '1' && "r13b"@[2] == '3' && "r13b"@[3] == 'b');
    assert("r14b"@.len() == 4 && "r14b"@[0] == 'r' && "r14b"@[1] == '1' && "r14b"@[2] == '4' && "r14b"@[3] == 'b');
    assert("r15b"@.len() == 4 && "r15b"@[0] == 'r' && "r15b"@[1] == '1' && "r15b"@[2] == '5' && "r15b"@[3] == 'b');
    assert("fcw"@.len() == 3 && "fcw"@[0] == 'f' && "fcw"@[1] == 'c' && "fcw"@[2] == 'w');
    assert("fsw"@.len() == 3 && "fsw"@[0] == 'f' && "fsw"@[1] == 's' && "fsw"@[2] == 'w');
    assert("ftw"@.len() == 3 && "ftw"@[0] == 'f' && "ftw"@[1] == 't' && "ftw"@[2] == 'w');
    assert("fop"@.len() == 3 && "fop"@[0] == 'f' && "fop"@[1] == 'o' && "fop"@[2] == 'p');
    assert("frip"@.len() == 4 && "frip"@[0] == 'f' && "frip"@[1] == 'r' && "frip"@[2] == 'i' && "frip"@[3] == 'p');
    assert("frdp"@.len() == 4 && "frdp"@[0] == 'f' && "frdp"@[1] == 'r' && "frdp"@[2] == 'd' && "frdp"@[3] == 'p');
    assert("mxcsr"@.len() == 5 && "mxcsr"@[0] == 'm' && "mxcsr"@[1] == 'x' && "mxcsr"@[2] == 'c' && "mxcsr"@[3] == 's' && "mxcsr"@[4] == 'r');
    assert("mxcsrmask"@.len() == 9 && "mxcsrmask"@[0] == 'm' && "mxcsrmask"@[1] == 'x' && "mxcsrmask"@[2] == 'c' && "mxcsrmask"@[3] == 's' && "mxcsrmask"@[4] == 'r' && "mxcsrmask"@[5] == 'm' && "mxcsrmask"@[6] == 'a' && "mxcsrmask"@[7] == 's' && "mxcsrmask"@[8] == 'k');
    assert("st0"@.len() == 3 && "st0"@[0] == 's' && "st0"@[1] == 't' && "st0"@[2] == '0');
    assert("st1"@.len() == 3 && "st1"@[0] == 's' && "st1"@[1] == 't' && "st1"@[2] == '1');
    assert("st2"@.len() == 3 && "st2"@[0] == 's' && "st2"@[1] == 't' && "st2"@[2] == '2');
    assert("st3"@.len() == 3 && "st3"@[0] == 's' && "st3"@[1] == 't' && "st3"@[2] == '3');
    assert("st4"@.len() == 3 && "st4"@[0] == 's' && "st4"@[1] == 't' && "st4"@[2] == '4');
    assert("st5"@.len() == 3 && "st5"@[0] == 's' && "st5"@[1] == 't' && "st5"@[2] == '5');
    assert("st6"@.len() == 3 && "st6"@[0] == 's' && "st6"@[1] == 't' && "st6"@[2] == '6');
    assert("st7"@.len() == 3 && "st7"@[0] == 's' && "st7"@[1] == 't' && "st7"@[2] == '7');
    assert("mm0"@.len() == 3 && "mm0"@[0] == 'm' && "mm0"@[1] == 'm' && "mm0"@[2] == '0');
    assert("mm1"@.len() == 3 && "mm1"@[0] == 'm' && "mm1"@[1] == 'm' && "mm1"@[2] == '1');
    assert("mm2"@.len() == 3 && "mm2"@[0] == 'm' && "mm2"@[1] == 'm' && "mm2"@[2] == '2');
    assert("mm3"@.len() == 3 && "mm3"@[0] == 'm' && "mm3"@[1] == 'm' && "mm3"@[2] == '3');
    assert("mm4"@.len() == 3 && "mm4"@[0] == 'm' && "mm4"@[1] == 'm' && "mm4"@[2] == '4');
    assert("mm5"@.len() == 3 && "mm5"@[0] == 'm' && "mm5"@[1] == 'm' && "mm5"@[2] == '5');
    assert("mm6"@.len() == 3 && "mm6"@[0] == 'm' && "mm6"@[1] == 'm' && "mm6"@[2] == '6');
    assert("mm7"@.len() == 3 && "mm7"@[0] == 'm' && "mm7"@[1] == 'm' && "mm7"@[2] == '7');
    assert("xmm0"@.len() == 4 && "xmm0"@[0] == 'x' && "xmm0"@[1] == 'm' && "xmm0"@[2] == 'm' && "xmm0"@[3] == '0');
    assert("xmm1"@.len() == 4 && "xmm1"@[0] == 'x' && "xmm1"@[1] == 'm' && "xmm1"@[2] == 'm' && "xmm1"@[3] == '1');
    assert("xmm2"@.len() == 4 && "xmm2"@[0] == 'x' && "xmm2"@[1] == 'm' && "xmm2"@[2] == 'm' && "xmm2"@[3] == '2');
    assert("xmm3"@.len() == 4 && "xmm3"@[0] == 'x' && "xmm3"@[1] == 'm' && "xmm3"@[2] == 'm' && "xmm3"@[3] == '3');
    assert("xmm4"@.len() == 4 && "xmm4"@[0] == 'x' && "xmm4"@[1] == 'm' && "xmm4"@[2] == 'm' && "xmm4"@[3] == '4');
    assert("xmm5"@.len() == 4 && "xmm5"@[0] == 'x' && "xmm5"@[1] == 'm' && "xmm5"@[2] == 'm' && "xmm5"@[3] == '5');
    assert("xmm6"@.len() == 4 && "xmm6"@[0] == 'x' && "xmm6"@[1] == 'm' && "xmm6"@[2] == 'm' && "xmm6"@[3] == '6');
    assert("xmm7"@.len() == 4 && "xmm7"@[0] == 'x' && "xmm7"@[1] == 'm' && "xmm7"@[2] == 'm' && "xmm7"@[3] == '7');
    assert("xmm8"@.len() == 4 && "xmm8"@[0] == 'x' && "xmm8"@[1] == 'm' && "xmm8"@[2] == 'm' && "xmm8"@[3] == '8');
    assert("xmm9"@.len() == 4 && "xmm9"@[0] == 'x' && "xmm9"@[1] == 'm' && "xmm9"@[2] == 'm' && "xmm9"@[3] == '9');
    assert("xmm10"@.len() == 5 && "xmm10"@[0] == 'x' && "xmm10"@[1] == 'm' && "xmm10"@[2] == 'm' && "xmm10"@[3] == '1' && "xmm10"@[4] == '0');
    assert("xmm11"@.len() == 5 && "xmm11"@[0] == 'x' && "xmm11"@[1] == 'm' && "xmm11"@[2] == 'm' && "xmm11"@[3] == '1' && "xmm11"@[4] == '1');
    assert("xmm12"@.len() == 5 && "xmm12"@[0] == 'x' && "xmm12"@[1] == 'm' && "xmm12"@[2] == 'm' && "xmm12"@[3] == '1' && "xmm12"@[4] == '2');
    assert("xmm13"@.len() == 5 && "xmm13"@[0] == 'x' && "xmm13"@[1] == 'm' && "xmm13"@[2] == 'm' && "xmm13"@[3] == '1' && "xmm13"@[4] == '3');
    assert("xmm14"@.len() == 5 && "xmm14"@[0] == 'x' && "xmm14"@[1] == 'm' && "xmm14"@[2] == 'm' && "xmm14"@[3] == '1' && "xmm14"@[4] == '4');
    assert("xmm15"@.len() == 5 && "xmm15"@[0] == 'x' && "xmm15"@[1] == 'm' && "xmm15"@[2] == 'm' && "xmm15"@[3] == '1' && "xmm15"@[4] == '5');
    assert("dr0"@.len() == 3 && "dr0"@[0] == 'd' && "dr0"@[1] == 'r' && "dr0"@[2] == '0');
    assert("dr1"@.len() == 3 && "dr1"@[0] == 'd' && "dr1"@[1] == 'r' && "dr1"@[2] == '1');
    assert("dr2"@.len() == 3 && "dr2"@[0] == 'd' && "dr2"@[1] == 'r' && "dr2"@[2] == '2');
    assert("dr3"@.len() == 3 && "dr3"@[0] == 'd' && "dr3"@[1] == 'r' && "dr3"@[2] == '3');
    assert("dr4"@.len() == 3 && "dr4"@[0] == 'd' && "dr4"@[1] == 'r' && "dr4"@[2] == '4');
    assert("dr5"@.len() == 3 && "dr5"@[0] == 'd' && "dr5"@[1] == 'r' && "dr5"@[2] == '5');
    assert("dr6"@.len() == 3 && "dr6"@[0] == 'd' && "dr6"@[1] == 'r' && "dr6"@[2] == '6');
    assert("dr7"@.len() == 3 && "dr7"@[0] == 'd' && "dr7"@[1] == 'r' && "dr7"@[2] == '7');
}

/// Each register lies inside the user area, in the block its kind names;
/// general-purpose and debug registers do not cross an 8-byte boundary.
pub proof fn lemma_register_layout(r: Register)
    ensures
        r.spec_info().offset + r.spec_info().ty.spec_size() <= USER_AREA_SIZE,
        r.spec_info().kind == RegisterKind::Gp ==> r.spec_info().offset + 8 <= GP_REGS_SIZE
            && r.spec_info().offset % 8 == 0 && r.spec_info().ty == RegisterType::U64,
        r.spec_info().kind == RegisterKind::SubGp ==> r.spec_info().offset
            + r.spec_info().ty.spec_size() <= GP_REGS_SIZE,
        r.spec_info().kind == RegisterKind::Fp ==> FP_REGS_OFFSET <= r.spec_info().offset
            && r.spec_info().offset + r.spec_info().ty.spec_size() <= FP_REGS_OFFSET
            + FP_REGS_SIZE,
        r.spec_info().kind == RegisterKind::Debug ==> DEBUG_REGS_OFFSET <= r.spec_info().offset
            && r.spec_info().offset + 8 <= USER_AREA_SIZE && r.spec_info().ty
            == RegisterType::U64,
        r.spec_info().kind != RegisterKind::Fp ==> r.spec_info().offset % 8
            + r.spec_info().ty.spec_size() <= 8,
{
}

/// A subregister is the low part (or, for `ah`..`bh`, the second byte) of a
/// general-purpose register; every other register stands for itself.
pub proof fn lemma_subregister_alias(r: Register)
    ensures
        r.spec_info().kind == RegisterKind::SubGp ==> {
            &&& r.spec_super().spec_info().kind == RegisterKind::Gp
            &&& r.spec_super().spec_info().offset <= r.spec_info().offset
            &&& r.spec_info().offset + r.spec_info().ty.spec_size()
                <= r.spec_super().spec_info().offset + 8
        },
        r.spec_info().kind != RegisterKind::SubGp ==> r.spec_super() == r,
{
}

/// The debug registers are listed in the order of their slots.
pub proof fn lemma_debug_regs(i: int)
    requires
        0 <= i < Register::DEBUG_REGS_COUNT,
    ensures
        Register::DEBUG_REGS[i].spec_info().kind == RegisterKind::Debug,
        Register::DEBUG_REGS[i].spec_info().offset == DEBUG_REGS_OFFSET + 8 * i,
{
}

} // verus!
