use ddb::register::{DEBUG_REGS_OFFSET, FP_REGS_OFFSET};
use ddb::{f80, u8x16, u8x8, Register, RegisterKind, RegisterType, RegisterValue};

#[test]
fn register_info_table() {
    let rax = Register::rax.info();
    assert_eq!(rax.name, "rax");
    assert_eq!(rax.dwarf_id, 0);
    assert_eq!(rax.kind, RegisterKind::Gp);
    assert_eq!(rax.ty, RegisterType::U64);
    assert_eq!(rax.offset, 80);
    assert_eq!(Register::ah.info().offset, 81);
    assert_eq!(Register::ah.info().ty, RegisterType::U8);
    assert_eq!(Register::eax.info().kind, RegisterKind::SubGp);
    assert_eq!(Register::fcw.info().offset, FP_REGS_OFFSET);
    assert_eq!(Register::fcw.info().dwarf_id, 65);
    assert_eq!(Register::mxcsrmask.info().ty, RegisterType::U32);
    assert_eq!(Register::st0.info().offset, 256);
    assert_eq!(Register::st0.info().ty, RegisterType::F80);
    assert_eq!(Register::mm0.info().offset, 256);
    assert_eq!(Register::xmm0.info().offset, 384);
    assert_eq!(Register::xmm15.info().dwarf_id, 32);
    assert_eq!(Register::dr7.info().offset, 904);
    assert_eq!(Register::orig_rax.info().dwarf_id, -1);
}

#[test]
fn register_from_dwarf_id() {
    assert_eq!(Register::from_dwarf_id(0), Some(Register::rax));
    assert_eq!(Register::from_dwarf_id(16), Some(Register::rip));
    assert_eq!(Register::from_dwarf_id(17), Some(Register::xmm0));
    assert_eq!(Register::from_dwarf_id(33), Some(Register::st0));
    assert_eq!(Register::from_dwarf_id(41), Some(Register::mm0));
    assert_eq!(Register::from_dwarf_id(49), Some(Register::eflags));
    assert_eq!(Register::from_dwarf_id(64), Some(Register::mxcsr));
    assert_eq!(Register::from_dwarf_id(66), Some(Register::fsw));
    assert_eq!(Register::from_dwarf_id(-1), None);
    assert_eq!(Register::from_dwarf_id(67), None);
    assert_eq!(Register::from_dwarf_id(56), None);
}

#[test]
fn register_from_name() {
    assert_eq!(Register::from_name("rax"), Some(Register::rax));
    assert_eq!(Register::from_name("r15b"), Some(Register::r15b));
    assert_eq!(Register::from_name("xmm15"), Some(Register::xmm15));
    assert_eq!(Register::from_name("mxcsrmask"), Some(Register::mxcsrmask));
    assert_eq!(Register::from_name("dr0"), Some(Register::dr0));
    assert_eq!(Register::from_name("RAX"), None);
    assert_eq!(Register::from_name(""), None);
    assert_eq!(Register::from_name("xmm16"), None);
}

#[test]
fn names_and_dwarf_ids_round_trip() {
    for r in [Register::rax, Register::es, Register::r9d, Register::spl, Register::frdp, Register::st5, Register::mm3, Register::xmm9, Register::dr2] {
        let info = r.info();
        assert_eq!(Register::from_name(info.name), Some(r));
        if info.dwarf_id != -1 {
            assert_eq!(Register::from_dwarf_id(info.dwarf_id), Some(r));
        }
    }
}

#[test]
fn debug_registers_in_order() {
    assert_eq!(Register::DEBUG_REGS_COUNT, 8);
    for (i, r) in Register::DEBUG_REGS.iter().enumerate() {
        assert_eq!(r.info().offset, DEBUG_REGS_OFFSET + 8 * i);
        assert_eq!(r.info().kind, RegisterKind::Debug);
    }
}

#[test]
fn vector_types_round_trip() {
    let b10 = [1, 2, 3, 4, 5, 6, 7, 8, 9, 10];
    assert_eq!(f80::from_bytes(b10).to_ne_bytes(), b10);
    let b8 = [0xff, 0, 0x80, 1, 2, 3, 4, 0x7f];
    assert_eq!(u8x8::from_bytes(b8).to_ne_bytes(), b8);
    let b16 = [16, 15, 14, 13, 12, 11, 10, 9, 8, 7, 6, 5, 4, 3, 2, 1];
    assert_eq!(u8x16::from_bytes(b16).to_ne_bytes(), b16);
}

#[test]
fn value_conversions() {
    assert!(matches!(RegisterValue::from(7u8), RegisterValue::U8(7)));
    assert!(matches!(RegisterValue::from(-1i8), RegisterValue::U8(255)));
    assert!(matches!(RegisterValue::from(-2i64), RegisterValue::U64(0xffff_ffff_ffff_fffe)));
    assert_eq!(i8::try_from(RegisterValue::U8(255)).unwrap(), -1);
    assert_eq!(i32::try_from(RegisterValue::U32(0x8000_0000)).unwrap(), i32::MIN);
    assert_eq!(u16::try_from(RegisterValue::U16(513)).unwrap(), 513);
    let e = u64::try_from(RegisterValue::U8(1)).unwrap_err();
    assert_eq!(e.expected, RegisterType::U64);
    assert_eq!(e.actual, RegisterType::U8);
    let e = i16::try_from(RegisterValue::F64(0)).unwrap_err();
    assert_eq!(e.expected, RegisterType::U16);
    assert_eq!(e.actual, RegisterType::F64);
    assert_eq!(RegisterValue::F32(1.5f32.to_bits()).ty(), RegisterType::F32);
}

#[test]
fn value_images() {
    assert_eq!(RegisterValue::U16(0x0102).to_image(), vec![2, 1]);
    assert_eq!(RegisterValue::U32(0x01020304).to_image(), vec![4, 3, 2, 1]);
    assert_eq!(RegisterValue::F64(2.0f64.to_bits()).to_image(), 2.0f64.to_le_bytes().to_vec());
    let img = RegisterValue::F80(f80::from_bytes([1; 10])).to_image();
    assert_eq!(img, vec![1, 1, 1, 1, 1, 1, 1, 1, 1, 1, 0, 0, 0, 0, 0, 0]);
    let area = [0u8, 0x34, 0x12, 0];
    assert!(matches!(RegisterType::U16.read(&area, 1), RegisterValue::U16(0x1234)));
    let mut area = vec![0u8; 6];
    RegisterValue::U32(0xaabbccdd).write(&mut area, 1);
    assert_eq!(area, vec![0, 0xdd, 0xcc, 0xbb, 0xaa, 0]);
}

#[test]
fn register_type_sizes_and_names() {
    assert_eq!(RegisterType::F80.size(), 16);
    assert_eq!(RegisterType::U8x8.size(), 8);
    assert_eq!(RegisterType::U8x16.to_string(), "U8x16");
    assert_eq!(RegisterType::F32.to_string(), "F32");
}
