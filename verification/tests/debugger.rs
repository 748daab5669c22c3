use ddb::register::{USER_AREA_SIZE};
use ddb::{f80, u8x16, u8x8, Debugger, Fatal, Register, RegisterType, State, Syscall};

fn loaded_debugger() -> Debugger {
    let mut debugger = Debugger::new(4321);
    let mut regs = [0u8; 216];
    for (i, b) in regs.iter_mut().enumerate() {
        *b = (i * 7 + 3) as u8;
    }
    let mut fp_regs = [0u8; 512];
    for (i, b) in fp_regs.iter_mut().enumerate() {
        *b = (i * 13 + 1) as u8;
    }
    let debug_regs = [1u64, 2, 3, 4, 5, 6, 0x0123_4567_89ab_cdef, 8];
    debugger.load_registers(&regs, &fp_regs, &debug_regs);
    debugger
}

#[test]
fn read_registers() {
    let debugger = loaded_debugger();

    let rax = debugger.read_reg::<u64>(Register::rax).unwrap();
    assert_eq!(debugger.read_reg::<u32>(Register::eax).unwrap(), rax as u32,);
    assert_eq!(debugger.read_reg::<u16>(Register::ax).unwrap(), rax as u16,);
    assert_eq!(
        debugger.read_reg::<u8>(Register::ah).unwrap(),
        (rax >> 8) as u8,
    );
    assert_eq!(debugger.read_reg::<u8>(Register::al).unwrap(), rax as u8,);

    debugger.read_reg_value(Register::fcw);
    debugger.read_reg_value(Register::fsw);
    debugger.read_reg_value(Register::frip);
    debugger.read_reg_value(Register::mxcsr);

    debugger.read_reg::<f80>(Register::st0).unwrap();
    debugger.read_reg::<f80>(Register::st7).unwrap();

    debugger.read_reg::<u8x8>(Register::mm0).unwrap();
    debugger.read_reg::<u8x8>(Register::mm7).unwrap();

    debugger.read_reg::<u8x16>(Register::xmm0).unwrap();
    debugger.read_reg::<u8x16>(Register::xmm15).unwrap();
}

#[test]
fn write_registers() {
    let mut debugger = loaded_debugger();

    const TEST_DATA_8X8: [u8; 8] =
        [0x01, 0x23, 0x45, 0x67, 0x89, 0xab, 0xcd, 0xef];
    const TEST_DATA_8X10: [u8; 10] =
        [0x01, 0x23, 0x45, 0x67, 0x89, 0xab, 0xcd, 0xef, 0x01, 0x23];
    const TEST_DATA_8X16: [u8; 16] = [
        0x01, 0x23, 0x45, 0x67, 0x89, 0xab, 0xcd, 0xef, 0x01, 0x23, 0x45, 0x67,
        0x89, 0xab, 0xcd, 0xef,
    ];

    let test_80: f80 = f80::from_bytes(TEST_DATA_8X10);
    const TEST_64: u64 = 0x0123_4567_89ab_cdef;
    const TEST_32: u32 = 0x0123_4567;
    const TEST_16: u16 = 0x0123;
    const TEST_8: u8 = 0x01;
    let test_8x8: u8x8 = u8x8::from_bytes(TEST_DATA_8X8);
    let test_8x16: u8x16 = u8x16::from_bytes(TEST_DATA_8X16);

    debugger.write_reg(Register::rax, TEST_64).unwrap();
    assert_eq!(debugger.read_reg::<u64>(Register::rax).unwrap(), TEST_64);

    debugger.write_reg(Register::eax, TEST_32).unwrap();
    assert_eq!(debugger.read_reg::<u32>(Register::eax).unwrap(), TEST_32);

    debugger.write_reg(Register::ax, TEST_16).unwrap();
    assert_eq!(debugger.read_reg::<u16>(Register::ax).unwrap(), TEST_16);

    debugger.write_reg(Register::ah, TEST_8).unwrap();
    assert_eq!(debugger.read_reg::<u8>(Register::ah).unwrap(), TEST_8);

    debugger.write_reg(Register::al, TEST_8).unwrap();
    assert_eq!(debugger.read_reg::<u8>(Register::al).unwrap(), TEST_8);

    debugger.write_reg(Register::fcw, TEST_16).unwrap();
    assert_eq!(debugger.read_reg::<u16>(Register::fcw).unwrap(), TEST_16);

    debugger.write_reg(Register::fsw, TEST_16).unwrap();
    assert_eq!(debugger.read_reg::<u16>(Register::fsw).unwrap(), TEST_16);

    debugger.write_reg(Register::frip, TEST_64).unwrap();
    assert_eq!(debugger.read_reg::<u64>(Register::frip).unwrap(), TEST_64);

    debugger.write_reg(Register::st0, test_80).unwrap();
    assert_eq!(
        debugger
            .read_reg::<f80>(Register::st0)
            .unwrap()
            .to_ne_bytes(),
        TEST_DATA_8X10,
    );

    debugger.write_reg(Register::st7, test_80).unwrap();
    assert_eq!(
        debugger
            .read_reg::<f80>(Register::st7)
            .unwrap()
            .to_ne_bytes(),
        TEST_DATA_8X10,
    );

    debugger.write_reg(Register::mm0, test_8x8).unwrap();
    assert_eq!(
        debugger
            .read_reg::<u8x8>(Register::mm0)
            .unwrap()
            .to_ne_bytes(),
        TEST_DATA_8X8,
    );

    debugger.write_reg(Register::mm7, test_8x8).unwrap();
    assert_eq!(
        debugger
            .read_reg::<u8x8>(Register::mm7)
            .unwrap()
            .to_ne_bytes(),
        TEST_DATA_8X8,
    );

    debugger.write_reg(Register::xmm0, test_8x16).unwrap();
    assert_eq!(
        debugger
            .read_reg::<u8x16>(Register::xmm0)
            .unwrap()
            .to_ne_bytes(),
        TEST_DATA_8X16,
    );

    debugger.write_reg(Register::xmm7, test_8x16).unwrap();
    assert_eq!(
        debugger
            .read_reg::<u8x16>(Register::xmm7)
            .unwrap()
            .to_ne_bytes(),
        TEST_DATA_8X16,
    );
}

#[test]
fn launch_fail_resume_terminated() {
    let mut debugger = Debugger::new(77);
    let call = debugger.resume().unwrap();
    assert!(matches!(call, Some(Syscall::Continue { pid: 77 })));
    debugger.resumed();
    // The tracee exits with status 0.
    let change = debugger.wait_for_state_change(0);
    assert_eq!(change.state, State::Exited);
    debugger.resume().unwrap_err();
}

#[test]
fn new_debugger_is_stopped_and_zeroed() {
    let debugger = Debugger::new(5);
    assert_eq!(debugger.pid(), 5);
    assert_eq!(debugger.state(), State::Stopped);
    assert_eq!(debugger.area_len(), USER_AREA_SIZE);
    assert_eq!(debugger.read_reg::<u64>(Register::rip).unwrap(), 0);
}

#[test]
fn resume_and_stop_decisions() {
    let mut debugger = Debugger::new(9);
    assert!(debugger.stop().unwrap().is_none());
    debugger.resumed();
    assert_eq!(debugger.state(), State::Running);
    assert!(debugger.resume().unwrap().is_none());
    match debugger.stop().unwrap() {
        Some(Syscall::Kill { pid, signal }) => {
            assert_eq!(pid, 9);
            assert_eq!(signal, 19);
        }
        other => panic!("unexpected {other:?}"),
    }
    // The tracee is stopped by SIGSTOP: status (19 << 8) | 0x7f.
    let change = debugger.wait_for_state_change((19 << 8) | 0x7f);
    assert_eq!(change.state, State::Stopped);
    assert_eq!(change.signal.value(), 19);
    assert_eq!(debugger.state(), State::Stopped);
    // Killed by SIGKILL.
    let change = debugger.wait_for_state_change(9);
    assert_eq!(change.state, State::Terminated);
    let e = debugger.stop().unwrap_err();
    assert_eq!(e.to_string(), "cannot stop from 'terminated' state");
    let e = debugger.resume().unwrap_err();
    assert_eq!(e.to_string(), "cannot resume from 'terminated' state");
}

#[test]
fn detach_calls_release_tracee() {
    let debugger = Debugger::new(11);
    let calls = debugger.detach_calls();
    assert_eq!(calls.len(), 2);
    assert!(matches!(calls[0], Syscall::Detach { pid: 11 }));
    assert!(matches!(calls[1], Syscall::Kill { pid: 11, signal: 18 }));
}

#[test]
fn write_type_mismatch_is_refused() {
    let mut debugger = Debugger::new(1);
    match debugger.write_reg(Register::rax, 5u32) {
        Err(Fatal::RegisterTypeError(e)) => {
            assert_eq!(e.expected, RegisterType::U64);
            assert_eq!(e.actual, RegisterType::U32);
            assert_eq!(
                e.to_string(),
                "expected register value of type U64, but found value of type U32"
            );
        }
        other => panic!("unexpected {other:?}"),
    }
    assert_eq!(debugger.read_reg::<u64>(Register::rax).unwrap(), 0);
}

#[test]
fn write_returns_the_syncing_call() {
    let mut debugger = Debugger::new(3);
    match debugger.write_reg(Register::rax, 0x1122_3344_5566_7788u64).unwrap() {
        Syscall::PokeUser { pid, offset, word } => {
            assert_eq!(pid, 3);
            assert_eq!(offset, 80);
            assert_eq!(word, 0x1122_3344_5566_7788);
        }
        other => panic!("unexpected {other:?}"),
    }
    match debugger.write_reg(Register::ah, 0xabu8).unwrap() {
        Syscall::PokeUser { offset, word, .. } => {
            assert_eq!(offset, 80);
            assert_eq!(word, 0x1122_3344_5566_ab88);
        }
        other => panic!("unexpected {other:?}"),
    }
    match debugger.write_reg(Register::dr7, 0x55u64).unwrap() {
        Syscall::PokeUser { offset, word, .. } => {
            assert_eq!(offset, 904);
            assert_eq!(word, 0x55);
        }
        other => panic!("unexpected {other:?}"),
    }
    match debugger.write_reg(Register::mxcsr, 0x1f80u32).unwrap() {
        Syscall::SetFpRegs { pid, fp_regs } => {
            assert_eq!(pid, 3);
            assert_eq!(fp_regs.len(), 512);
            assert_eq!(&fp_regs[24..28], &[0x80, 0x1f, 0, 0]);
        }
        other => panic!("unexpected {other:?}"),
    }
}

#[test]
fn subregisters_alias_full_register() {
    let mut debugger = Debugger::new(2);
    debugger.write_reg(Register::rbx, 0x0123_4567_89ab_cdefu64).unwrap();
    assert_eq!(debugger.read_reg::<u32>(Register::ebx).unwrap(), 0x89ab_cdef);
    assert_eq!(debugger.read_reg::<u16>(Register::bx).unwrap(), 0xcdef);
    assert_eq!(debugger.read_reg::<u8>(Register::bh).unwrap(), 0xcd);
    assert_eq!(debugger.read_reg::<u8>(Register::bl).unwrap(), 0xef);
    debugger.write_reg(Register::bl, 0x11u8).unwrap();
    assert_eq!(debugger.read_reg::<u64>(Register::rbx).unwrap(), 0x0123_4567_89ab_cd11);
}

#[test]
fn write_leaves_other_registers() {
    let mut debugger = loaded_debugger();
    let st0 = debugger.read_reg::<f80>(Register::st0).unwrap().to_ne_bytes();
    let rcx = debugger.read_reg::<u64>(Register::rcx).unwrap();
    debugger.write_reg(Register::xmm0, u8x16::from_bytes([9; 16])).unwrap();
    debugger.write_reg(Register::rax, 1u64).unwrap();
    assert_eq!(debugger.read_reg::<f80>(Register::st0).unwrap().to_ne_bytes(), st0);
    assert_eq!(debugger.read_reg::<u64>(Register::rcx).unwrap(), rcx);
}

#[test]
fn loaded_registers_are_read_back() {
    let debugger = loaded_debugger();
    // r15 is the first word of the general-purpose block.
    let expected = u64::from_le_bytes([3, 10, 17, 24, 31, 38, 45, 52]);
    assert_eq!(debugger.read_reg::<u64>(Register::r15).unwrap(), expected);
    assert_eq!(debugger.read_reg::<u64>(Register::dr6).unwrap(), 0x0123_4567_89ab_cdef);
    // fcw is the first half-word of the floating-point block.
    assert_eq!(debugger.read_reg::<u16>(Register::fcw).unwrap(), u16::from_le_bytes([1, 14]));
}

#[test]
fn read_of_wrong_type_is_refused() {
    let debugger = Debugger::new(1);
    match debugger.read_reg::<u32>(Register::rax) {
        Err(Fatal::RegisterTypeError(e)) => {
            assert_eq!(e.expected, RegisterType::U32);
            assert_eq!(e.actual, RegisterType::U64);
        }
        other => panic!("unexpected {other:?}"),
    }
}

#[test]
fn stop_undoes_resume() {
    let mut debugger = Debugger::new(21);
    debugger.write_reg(Register::rax, 7u64).unwrap();
    match debugger.resume().unwrap() {
        Some(Syscall::Continue { pid }) => assert_eq!(pid, 21),
        other => panic!("unexpected {other:?}"),
    }
    debugger.resumed();
    assert_eq!(debugger.state(), State::Running);
    assert!(!debugger.needs_register_load());
    match debugger.stop().unwrap() {
        Some(Syscall::Kill { pid, signal }) => {
            assert_eq!(pid, 21);
            assert_eq!(signal, 19);
        }
        other => panic!("unexpected {other:?}"),
    }
    let change = debugger.wait_for_state_change((19 << 8) | 0x7f);
    assert_eq!(change.signal.value(), 19);
    assert_eq!(debugger.state(), State::Stopped);
    assert_eq!(debugger.pid(), 21);
    assert!(debugger.needs_register_load());
    assert_eq!(debugger.read_reg::<u64>(Register::rax).unwrap(), 7);
    assert!(debugger.stop().unwrap().is_none());
}

#[test]
fn state_change_carries_its_signal() {
    let mut debugger = Debugger::new(4);
    let change = debugger.wait_for_state_change(3 << 8);
    assert_eq!(change.state, State::Exited);
    assert_eq!(change.signal.value(), 3);
    assert!(!debugger.needs_register_load());
    let change = debugger.wait_for_state_change(9 | 0x80);
    assert_eq!(change.state, State::Terminated);
    assert_eq!(change.signal.value(), 9);
}
