//! The user area: the tracee's registers as one block of bytes.
use vstd::prelude::*;

use crate::le::{le64, lemma_le64_truncations};
use crate::register::{
    lemma_register_layout, lemma_subregister_alias, Register, RegisterKind, USER_AREA_SIZE,
};
use crate::value::{lemma_decode_image, lemma_image_decode, RegisterType, RegisterValue};

verus! {

/// The bytes of register `r` in the user area `area`.
pub open spec fn reg_bytes(area: Seq<u8>, r: Register) -> Seq<u8> {
    area.subrange(
        r.spec_info().offset as int,
        r.spec_info().offset + r.spec_info().ty.spec_size(),
    )
}

/// The value that register `r` holds in the user area `area`.
pub open spec fn reg_value(area: Seq<u8>, r: Register) -> RegisterValue {
    r.spec_info().ty.decode(reg_bytes(area, r))
}

/// The user area `area` after `v` has been stored into register `r`.
pub open spec fn with_reg(area: Seq<u8>, r: Register, v: RegisterValue) -> Seq<u8> {
    area.subrange(0, r.spec_info().offset as int) + v.image() + area.subrange(
        r.spec_info().offset + r.spec_info().ty.spec_size(),
        area.len() as int,
    )
}

/// Whether the bytes of two registers overlap.
pub open spec fn overlap(r: Register, q: Register) -> bool {
    r.spec_info().offset < q.spec_info().offset + q.spec_info().ty.spec_size()
        && q.spec_info().offset < r.spec_info().offset + r.spec_info().ty.spec_size()
}

/// A register read back after a store gives the stored value.
pub proof fn lemma_read_after_write(area: Seq<u8>, r: Register, v: RegisterValue)
    requires
        area.len() == USER_AREA_SIZE,
        v.spec_ty() == r.spec_info().ty,
    ensures
        with_reg(area, r, v).len() == USER_AREA_SIZE,
        reg_value(with_reg(area, r, v), r) == v,
{
    lemma_register_layout(r);
    lemma_decode_image(v);
    let off = r.spec_info().offset as int;
    let n = r.spec_info().ty.spec_size() as int;
    assert(with_reg(area, r, v).subrange(off, off + n) =~= v.image());
}

/// A store into a register leaves every register whose bytes it does not
/// overlap as it was.
pub proof fn lemma_write_frame(area: Seq<u8>, r: Register, v: RegisterValue, q: Register)
    requires
        area.len() == USER_AREA_SIZE,
        v.spec_ty() == r.spec_info().ty,
        !overlap(r, q),
    ensures
        reg_value(with_reg(area, r, v), q) == reg_value(area, q),
{
    lemma_register_layout(r);
    lemma_register_layout(q);
    lemma_decode_image(v);
    assert(reg_bytes(with_reg(area, r, v), q) =~= reg_bytes(area, q));
}

/// Storing the value a register already holds changes nothing.
pub proof fn lemma_write_same(area: Seq<u8>, r: Register)
    requires
        area.len() == USER_AREA_SIZE,
    ensures
        with_reg(area, r, reg_value(area, r)) == area,
{
    lemma_register_layout(r);
    lemma_image_decode(r.spec_info().ty, reg_bytes(area, r));
    assert(with_reg(area, r, reg_value(area, r)) =~= area);
}

/// The value of a subregister, given the 64-bit value of its full register.
pub open spec fn subregister_value(r: Register, full: u64) -> RegisterValue {
    match r.spec_info().ty {
        RegisterType::U32 => RegisterValue::U32(full as u32),
        RegisterType::U16 => RegisterValue::U16(full as u16),
        _ => if r.spec_info().offset == r.spec_super().spec_info().offset {
            RegisterValue::U8(full as u8)
        } else {
            RegisterValue::U8((full >> 8u64) as u8)
        },
    }
}

/// A subregister holds the low bits of its full register (`ah`..`bh` hold
/// bits 8 to 15).
pub proof fn lemma_subregister_value(area: Seq<u8>, r: Register)
    requires
        area.len() == USER_AREA_SIZE,
        r.spec_info().kind == RegisterKind::SubGp,
    ensures
        reg_value(area, r.spec_super()) == RegisterValue::U64(le64(reg_bytes(area, r.spec_super()))),
        reg_value(area, r) == subregister_value(r, le64(reg_bytes(area, r.spec_super()))),
{
    let s = r.spec_super();
    lemma_register_layout(r);
    lemma_register_layout(s);
    lemma_subregister_alias(r);
    let b = reg_bytes(area, s);
    lemma_le64_truncations(b);
    let so = s.spec_info().offset as int;
    let ro = r.spec_info().offset as int;
    assert(b.len() == 8);
    if r.spec_info().ty == RegisterType::U32 {
        assert(reg_bytes(area, r) =~= b.subrange(0, 4));
    } else if r.spec_info().ty == RegisterType::U16 {
        assert(reg_bytes(area, r) =~= b.subrange(0, 2));
    } else if ro == so {
        assert(reg_bytes(area, r)[0] == b[0]);
    } else {
        assert(reg_bytes(area, r)[0] == b[1]);
    }
}

} // verus!
