use cisc16::alu::{binary, pow, rotate_left, rotate_right};
use cisc16::assembler::Parameter;
use cisc16::emitter::encode;
use cisc16::isa::Opcode;
use cisc16::machine::{
    Emulator, Flow, Halt, CONDITION_FLAG, CYCLES, FAULT_CALLBACK_ADDR, FAULT_FLAG,
    INTERRUPTED_LINE, INTERRUPT_CALLBACK_ADDR, OVERFLOW_FLAG, PROGRAM_COUNTER, PROGRAM_SIZE,
    PROGRAM_START, PROTECTED, RAM_FRAME_START, RAM_SIZE, STACK_FRAME_START, STACK_SIZE,
    STACK_TOP_PTR, TIMEOUT_CALLBACK_ADDR, TIMEOUT_DURATION, ZERO_FLAG,
};

fn adr(n: u32) -> Parameter {
    Parameter::Address(n)
}

fn con(n: u16) -> Parameter {
    Parameter::Constant(n)
}

fn ptr(n: u8) -> Parameter {
    Parameter::Pointer(n)
}

fn reg(n: u8) -> Parameter {
    Parameter::Register(n)
}

/// A privileged machine about to execute one instruction at address 300.
fn ready(op: Opcode, operands: Vec<Parameter>) -> Emulator {
    let mut emulator = Emulator::new();
    emulator.set_reg(PROTECTED, 1);
    emulator.set_reg(PROGRAM_COUNTER, 300);
    emulator.set_reg(FAULT_CALLBACK_ADDR, 9000);
    emulator.set_reg(TIMEOUT_DURATION, 0xffff);
    emulator.set_reg(PROGRAM_SIZE, 0xffff);
    place(&mut emulator, 300, op, operands);
    emulator
}

fn place(emulator: &mut Emulator, at: u16, op: Opcode, operands: Vec<Parameter>) {
    let words = encode(op, &operands).unwrap();
    for (k, w) in words.iter().enumerate() {
        emulator.set_ram_word(at.wrapping_add(k as u16), *w);
    }
}

/// The same, unprivileged, with frames of RAM and stack that start at 1000 and 2000.
fn ready_unprivileged(op: Opcode, operands: Vec<Parameter>) -> Emulator {
    let mut emulator = ready(op, operands);
    emulator.set_reg(RAM_FRAME_START, 1000);
    emulator.set_reg(RAM_SIZE, 100);
    emulator.set_reg(STACK_FRAME_START, 2000);
    emulator.set_reg(STACK_SIZE, 50);
    emulator.set_reg(PROTECTED, 0);
    emulator
}

fn faulted(emulator: &Emulator) -> bool {
    emulator.reg(PROTECTED) == 1 && emulator.reg(PROGRAM_COUNTER) == 9000
}

#[test]
fn arithmetic_wraps_at_sixteen_bits() {
    assert_eq!(binary(Opcode::Add, 0xffff, 2), Some(1));
    assert_eq!(binary(Opcode::AddImm, 5, 74), Some(79));
    assert_eq!(binary(Opcode::Sub, 2, 3), Some(0xffff));
    assert_eq!(binary(Opcode::SubImm, 10, 3), Some(7));
    assert_eq!(binary(Opcode::SubRev, 3, 10), Some(7));
    assert_eq!(binary(Opcode::SubRevImm, 10, 3), Some(0xfff9));
    assert_eq!(binary(Opcode::Mul, 300, 300), Some(24464));
    assert_eq!(binary(Opcode::MulImm, 7, 6), Some(42));
    assert_eq!(binary(Opcode::Div, 100, 7), Some(14));
    assert_eq!(binary(Opcode::DivImm, 100, 0), None);
    assert_eq!(binary(Opcode::Mod, 100, 7), Some(2));
    assert_eq!(binary(Opcode::ModImm, 100, 0), None);
    assert_eq!(binary(Opcode::And, 0b1100, 0b1010), Some(0b1000));
    assert_eq!(binary(Opcode::OrImm, 0b1100, 0b1010), Some(0b1110));
    assert_eq!(binary(Opcode::Xor, 0b1100, 0b1010), Some(0b0110));
    assert_eq!(binary(Opcode::XorImm, 0xffff, 0x00ff), Some(0xff00));
    assert_eq!(binary(Opcode::Pow, 2, 10), Some(1024));
    assert_eq!(binary(Opcode::PowImm, 3, 11), Some(46075));
    assert_eq!(binary(Opcode::Left, 1, 4), Some(16));
    assert_eq!(binary(Opcode::LeftImm, 0x8001, 1), Some(2));
    assert_eq!(binary(Opcode::Left, 1, 16), Some(1));
    assert_eq!(binary(Opcode::Left, 1, 17), Some(2));
    assert_eq!(binary(Opcode::Right, 0x8000, 15), Some(1));
    assert_eq!(binary(Opcode::RightImm, 0x8000, 16), Some(0x8000));
    assert_eq!(binary(Opcode::RotLeft, 0x8001, 1), Some(0x0003));
    assert_eq!(binary(Opcode::RotLeftImm, 0x1234, 4), Some(0x2341));
    assert_eq!(binary(Opcode::RotRight, 0x8001, 1), Some(0xc000));
    assert_eq!(binary(Opcode::RotRightImm, 0x1234, 20), Some(0x4123));
}

#[test]
fn powers_and_rotations_agree_with_the_integers() {
    for (base, exp) in [(0u16, 0u16), (0, 5), (1, 65535), (2, 15), (2, 16), (3, 7), (255, 3), (65535, 65535), (7, 1000)] {
        assert_eq!(pow(base, exp), base.wrapping_pow(exp as u32), "{}^{}", base, exp);
    }
    for x in [0u16, 1, 0x8000, 0x1234, 0xffff, 0xa5a5] {
        for by in [0u16, 1, 4, 15, 16, 17, 31, 32, 1000, 65535] {
            assert_eq!(rotate_left(x, by), x.rotate_left(by as u32));
            assert_eq!(rotate_right(x, by), x.rotate_right(by as u32));
        }
    }
}

#[test]
fn register_forms_write_the_last_operand() {
    let mut e = ready(Opcode::Sub, vec![reg(1), reg(2), reg(3)]);
    e.set_reg(1, 50);
    e.set_reg(2, 8);
    assert_eq!(e.step(false), None);
    assert_eq!(e.reg(3), 42);
    assert_eq!(e.reg(PROGRAM_COUNTER), 303);

    let mut e = ready(Opcode::SubRev, vec![reg(1), reg(2), reg(3)]);
    e.set_reg(1, 8);
    e.set_reg(2, 50);
    e.step(false);
    assert_eq!(e.reg(3), 42);

    let mut e = ready(Opcode::SubRevImm, vec![reg(1), con(50), reg(3)]);
    e.set_reg(1, 8);
    e.step(false);
    assert_eq!(e.reg(3), 42);

    let mut e = ready(Opcode::Not, vec![reg(1), reg(2)]);
    e.set_reg(1, 0x00ff);
    e.step(false);
    assert_eq!(e.reg(2), 0xff00);
    assert_eq!(e.reg(1), 0x00ff);

    let mut e = ready(Opcode::PowImm, vec![reg(1), con(3), reg(1)]);
    e.set_reg(1, 5);
    e.step(false);
    assert_eq!(e.reg(1), 125);
}

#[test]
fn division_by_zero_faults() {
    for (op, operands) in [
        (Opcode::Div, vec![reg(1), reg(2), reg(3)]),
        (Opcode::Mod, vec![reg(1), reg(2), reg(3)]),
        (Opcode::DivImm, vec![reg(1), con(0), reg(3)]),
        (Opcode::ModImm, vec![reg(1), con(0), reg(3)]),
    ] {
        for privileged in [true, false] {
            let mut e = if privileged { ready(op, operands.clone()) } else { ready_unprivileged(op, operands.clone()) };
            e.set_reg(1, 9);
            e.set_reg(3, 77);
            assert_eq!(e.step(false), None);
            assert!(faulted(&e));
            assert_eq!(e.reg(3), 77);
        }
    }
}

#[test]
fn moves_between_registers() {
    let mut e = ready(Opcode::Ldi, vec![reg(200), con(0xabcd)]);
    e.step(false);
    assert_eq!(e.reg(200), 0xabcd);

    let mut e = ready(Opcode::Mov, vec![reg(1), reg(2)]);
    e.set_reg(1, 11);
    e.set_reg(2, 22);
    e.step(false);
    assert_eq!((e.reg(1), e.reg(2)), (11, 11));

    let mut e = ready(Opcode::Swp, vec![reg(1), reg(2)]);
    e.set_reg(1, 11);
    e.set_reg(2, 22);
    e.step(false);
    assert_eq!((e.reg(1), e.reg(2)), (22, 11));

    let mut e = ready(Opcode::Nop, vec![]);
    assert_eq!(e.step(false), None);
    assert_eq!(e.reg(PROGRAM_COUNTER), 303);
    assert_eq!(e.reg(CYCLES), 1);
}

#[test]
fn the_mode_register_holds_only_zero_and_one() {
    let mut e = ready(Opcode::Ldi, vec![reg(PROTECTED), con(500)]);
    e.step(false);
    assert_eq!(e.reg(PROTECTED), 1);
    let mut e = Emulator::new();
    e.set_reg(PROTECTED, 0xffff);
    assert_eq!(e.reg(PROTECTED), 1);
    e.set_reg(PROTECTED, 0);
    assert_eq!(e.reg(PROTECTED), 0);
    let mut e = ready(Opcode::LodRegisters, vec![reg(1)]);
    e.set_reg(1, 5000);
    e.set_ram_word(5000 + PROTECTED as u16, 77);
    e.set_ram_word(5000 + 63, 1234);
    e.set_ram_word(5000 + 64, 4321);
    e.step(false);
    assert_eq!(e.reg(PROTECTED), 1);
    assert_eq!(e.reg(63), 1234);
    assert_eq!(e.reg(64), 0);
    assert_eq!(e.reg(1), 0);
}

#[test]
fn memory_by_address_pointer_and_offset() {
    let mut e = ready(Opcode::LdiR, vec![adr(40), con(7)]);
    e.step(false);
    assert_eq!(e.ram_word(40), 7);

    let mut e = ready(Opcode::Sto, vec![adr(40), reg(1)]);
    e.set_reg(1, 8);
    e.step(false);
    assert_eq!(e.ram_word(40), 8);

    let mut e = ready(Opcode::Get, vec![adr(40), reg(1)]);
    e.set_ram_word(40, 9);
    e.step(false);
    assert_eq!(e.reg(1), 9);

    let mut e = ready(Opcode::LdiPtr, vec![ptr(2), con(10)]);
    e.set_reg(2, 41);
    e.step(false);
    assert_eq!(e.ram_word(41), 10);

    let mut e = ready(Opcode::StoPtr, vec![ptr(2), reg(1)]);
    e.set_reg(2, 41);
    e.set_reg(1, 11);
    e.step(false);
    assert_eq!(e.ram_word(41), 11);

    let mut e = ready(Opcode::GetPtr, vec![ptr(2), reg(1)]);
    e.set_reg(2, 41);
    e.set_ram_word(41, 12);
    e.step(false);
    assert_eq!(e.reg(1), 12);

    let mut e = ready(Opcode::StoPtrOff, vec![ptr(2), con(5), reg(1)]);
    e.set_reg(2, 41);
    e.set_reg(1, 13);
    e.step(false);
    assert_eq!(e.ram_word(46), 13);
    assert_eq!(e.ram_word(41), 0);

    let mut e = ready(Opcode::GetPtrOff, vec![ptr(2), con(5), reg(1)]);
    e.set_reg(2, 41);
    e.set_ram_word(46, 14);
    e.step(false);
    assert_eq!(e.reg(1), 14);

    let mut e = ready(Opcode::StoPtrOffPtr, vec![ptr(2), reg(1), reg(3)]);
    e.set_reg(2, 41);
    e.set_reg(3, 6);
    e.set_reg(1, 15);
    e.step(false);
    assert_eq!(e.ram_word(47), 15);

    let mut e = ready(Opcode::GetPtrOffPtr, vec![ptr(2), reg(1), reg(3)]);
    e.set_reg(2, 41);
    e.set_reg(3, 6);
    e.set_ram_word(47, 16);
    e.step(false);
    assert_eq!(e.reg(1), 16);

    let mut e = ready(Opcode::MovR, vec![adr(50), adr(51)]);
    e.set_ram_word(51, 17);
    e.step(false);
    assert_eq!(e.ram_word(50), 17);
}

#[test]
fn unprivileged_memory_is_relocated_and_bounded() {
    let mut e = ready_unprivileged(Opcode::Get, vec![adr(100), reg(1)]);
    e.set_ram_word(1100, 55);
    assert_eq!(e.step(false), None);
    assert_eq!(e.reg(1), 55);
    assert_eq!(e.reg(PROTECTED), 0);

    let mut e = ready_unprivileged(Opcode::Get, vec![adr(101), reg(1)]);
    e.set_ram_word(1101, 55);
    e.set_ram_word(101, 56);
    e.set_reg(1, 3);
    assert_eq!(e.step(false), None);
    assert!(faulted(&e));
    assert_eq!(e.reg(1), 3);

    let mut e = ready_unprivileged(Opcode::StoPtrOff, vec![ptr(2), con(60), reg(1)]);
    e.set_reg(2, 41);
    e.set_reg(1, 5);
    e.step(false);
    assert!(faulted(&e));
    assert_eq!(e.ram_word(1101), 0);
    assert_eq!(e.ram_word(101), 0);

    let mut e = ready_unprivileged(Opcode::MovR, vec![adr(1), adr(200)]);
    e.set_ram_word(1200, 9);
    e.step(false);
    assert!(faulted(&e));
    assert_eq!(e.ram_word(1001), 0);
}

#[test]
fn privileged_view_of_a_frame() {
    // What the program reads at index 7 of its frame is what privileged code reads at the
    // frame's origin plus 7.
    let mut e = ready_unprivileged(Opcode::Get, vec![adr(7), reg(1)]);
    e.set_ram_word(1007, 0x7777);
    e.step(false);
    let seen = e.reg(1);
    let mut p = ready(Opcode::Get, vec![adr(1007), reg(1)]);
    p.set_ram_word(1007, 0x7777);
    p.step(false);
    assert_eq!(seen, p.reg(1));
    assert_eq!(seen, 0x7777);
    assert_eq!(e.load(7), 0x7777);
    assert_eq!(e.get_protected_ram_offset(), 1000);
    assert_eq!(e.get_protected_stack_offset(), 2000);
    assert_eq!(p.get_protected_ram_offset(), 0);
    assert_eq!(p.get_protected_stack_offset(), 0);
    e.set_reg(PROGRAM_START, 3000);
    assert_eq!(e.get_protected_pgc_offset(), 3000);
    assert_eq!(p.get_protected_pgc_offset(), 0);
}

#[test]
fn block_copy_moves_overlapping_spans_whole() {
    let mut e = ready(Opcode::MemCpy, vec![adr(10), adr(12), con(5)]);
    for k in 0..5 {
        e.set_ram_word(10 + k, 100 + k);
    }
    e.step(false);
    let copied: Vec<u16> = (10..18).map(|i| e.ram_word(i)).collect();
    assert_eq!(copied, vec![100, 101, 100, 101, 102, 103, 104, 0]);

    let mut e = ready(Opcode::MemCpyPtr, vec![ptr(1), ptr(2), reg(3)]);
    e.set_reg(1, 12);
    e.set_reg(2, 10);
    e.set_reg(3, 3);
    for k in 0..3 {
        e.set_ram_word(12 + k, 7 + k);
    }
    e.step(false);
    let copied: Vec<u16> = (10..16).map(|i| e.ram_word(i)).collect();
    assert_eq!(copied, vec![7, 8, 9, 8, 9, 0]);

    let mut e = ready(Opcode::MemCpy, vec![adr(0xfffe), adr(20), con(4)]);
    e.set_ram_word(0xfffe, 1);
    e.set_ram_word(0xffff, 2);
    e.set_ram_word(0, 3);
    e.set_ram_word(1, 4);
    e.step(false);
    let copied: Vec<u16> = (20..24).map(|i| e.ram_word(i)).collect();
    assert_eq!(copied, vec![1, 2, 3, 4]);
}

#[test]
fn block_fill_and_compare() {
    let mut e = ready(Opcode::MemFill, vec![ptr(1), con(3), con(0xeeee)]);
    e.set_reg(1, 500);
    e.step(false);
    let filled: Vec<u16> = (499..504).map(|i| e.ram_word(i)).collect();
    assert_eq!(filled, vec![0, 0xeeee, 0xeeee, 0xeeee, 0]);

    let mut e = ready(Opcode::MemComparePtr, vec![ptr(1), ptr(2), reg(3)]);
    e.set_reg(1, 500);
    e.set_reg(2, 600);
    e.set_reg(3, 2);
    e.set_ram_word(500, 4);
    e.set_ram_word(600, 4);
    e.set_ram_word(502, 1);
    e.step(false);
    assert_eq!(e.reg(CONDITION_FLAG), 1);

    let mut e = ready(Opcode::MemCompare, vec![adr(500), adr(600), con(0)]);
    e.set_ram_word(500, 4);
    e.step(false);
    assert_eq!(e.reg(CONDITION_FLAG), 1);
}

#[test]
fn blocks_must_end_inside_the_frame() {
    let mut e = ready_unprivileged(Opcode::MemFill, vec![ptr(1), con(10), con(3)]);
    e.set_reg(1, 90);
    e.step(false);
    assert_eq!(e.reg(PROTECTED), 0);
    assert_eq!(e.ram_word(1090), 3);
    assert_eq!(e.ram_word(1099), 3);
    assert_eq!(e.ram_word(1100), 0);

    let mut e = ready_unprivileged(Opcode::MemFill, vec![ptr(1), con(11), con(3)]);
    e.set_reg(1, 90);
    e.step(false);
    assert!(faulted(&e));
    assert_eq!(e.ram_word(1090), 0);

    let mut e = ready_unprivileged(Opcode::MemCpy, vec![adr(0), adr(98), con(3)]);
    e.set_ram_word(1000, 5);
    e.step(false);
    assert!(faulted(&e));
    assert_eq!(e.ram_word(1098), 0);

    let mut e = ready_unprivileged(Opcode::MemCompare, vec![adr(0), adr(98), con(3)]);
    e.set_reg(CONDITION_FLAG, 0);
    e.step(false);
    assert!(faulted(&e));
    assert_eq!(e.reg(CONDITION_FLAG), 0);
}

#[test]
fn comparisons_set_the_condition_flag() {
    for (op, x, y, expected) in [
        (Opcode::Less, 3, 4, 1),
        (Opcode::Less, 4, 4, 0),
        (Opcode::Grtr, 5, 4, 1),
        (Opcode::Grtr, 4, 4, 0),
        (Opcode::Eq, 4, 4, 1),
        (Opcode::Eq, 4, 5, 0),
    ] {
        let mut e = ready(op, vec![reg(1), reg(2)]);
        e.set_reg(1, x);
        e.set_reg(2, y);
        e.set_reg(CONDITION_FLAG, 1 - expected);
        e.step(false);
        assert_eq!(e.reg(CONDITION_FLAG), expected, "{:?} {} {}", op, x, y);
    }
    for (op, x, y, expected) in [
        (Opcode::LessImm, 3, 4, 1),
        (Opcode::GrtrImm, 3, 4, 0),
        (Opcode::EqImm, 0x1234, 0x1234, 1),
    ] {
        let mut e = ready(op, vec![reg(1), con(y)]);
        e.set_reg(1, x);
        e.step(false);
        assert_eq!(e.reg(CONDITION_FLAG), expected, "{:?} {} {}", op, x, y);
    }
    let mut e = ready(Opcode::Zero, vec![reg(1)]);
    e.step(false);
    assert_eq!(e.reg(CONDITION_FLAG), 1);
    assert_eq!(e.reg(ZERO_FLAG), 0);
    let mut e = ready(Opcode::Zero, vec![reg(1)]);
    e.set_reg(1, 2);
    e.set_reg(CONDITION_FLAG, 1);
    e.step(false);
    assert_eq!(e.reg(CONDITION_FLAG), 0);
}

#[test]
fn flags_pack_into_a_word() {
    let mut e = ready(Opcode::SaveFlags, vec![reg(1)]);
    e.set_reg(CONDITION_FLAG, 1);
    e.set_reg(OVERFLOW_FLAG, 1);
    e.step(false);
    assert_eq!(e.reg(1), 0b0101);

    let mut e = ready(Opcode::SaveFlags, vec![reg(1)]);
    e.set_reg(ZERO_FLAG, 1);
    e.set_reg(FAULT_FLAG, 9);
    e.step(false);
    assert_eq!(e.reg(1), 0b1010);

    let mut e = ready(Opcode::LoadFlags, vec![reg(1)]);
    e.set_reg(1, 0b1111_0110);
    e.set_reg(CONDITION_FLAG, 1);
    e.step(false);
    assert_eq!(
        (e.reg(CONDITION_FLAG), e.reg(ZERO_FLAG), e.reg(OVERFLOW_FLAG), e.reg(FAULT_FLAG)),
        (0, 1, 1, 0)
    );

    let mut e = ready(Opcode::ClrFlags, vec![]);
    for r in [CONDITION_FLAG, ZERO_FLAG, OVERFLOW_FLAG, FAULT_FLAG] {
        e.set_reg(r, 1);
    }
    e.step(false);
    for r in [CONDITION_FLAG, ZERO_FLAG, OVERFLOW_FLAG, FAULT_FLAG] {
        assert_eq!(e.reg(r), 0);
    }
}

#[test]
fn jumps_follow_their_flags() {
    let cases = [
        (Opcode::Jmp, CONDITION_FLAG, 0, true),
        (Opcode::Jic, CONDITION_FLAG, 1, true),
        (Opcode::Jic, CONDITION_FLAG, 0, false),
        (Opcode::Jnc, CONDITION_FLAG, 0, true),
        (Opcode::Jnc, CONDITION_FLAG, 2, false),
        (Opcode::Jiz, ZERO_FLAG, 1, true),
        (Opcode::Jiz, ZERO_FLAG, 0, false),
        (Opcode::Jnz, ZERO_FLAG, 0, true),
        (Opcode::Jnz, ZERO_FLAG, 1, false),
        (Opcode::JiErr, FAULT_FLAG, 1, true),
        (Opcode::JiErr, FAULT_FLAG, 0, false),
        (Opcode::JnErr, FAULT_FLAG, 0, true),
        (Opcode::JnErr, FAULT_FLAG, 1, false),
        (Opcode::JiCry, OVERFLOW_FLAG, 1, true),
        (Opcode::JiCry, OVERFLOW_FLAG, 0, false),
        (Opcode::JnCry, OVERFLOW_FLAG, 0, true),
        (Opcode::JnCry, OVERFLOW_FLAG, 1, false),
    ];
    for (op, flag, value, taken) in cases {
        let mut e = ready(op, vec![adr(600)]);
        e.set_reg(flag, value);
        assert_eq!(e.step(false), None);
        assert_eq!(e.reg(PROGRAM_COUNTER), if taken { 600 } else { 303 }, "{:?}", op);
    }
    let pointer_cases = [
        (Opcode::JmpPtr, CONDITION_FLAG, 0, true),
        (Opcode::JicPtr, CONDITION_FLAG, 0, false),
        (Opcode::JncPtr, CONDITION_FLAG, 0, true),
        (Opcode::JizPtr, ZERO_FLAG, 5, true),
        (Opcode::JnzPtr, ZERO_FLAG, 5, false),
        (Opcode::JiCryPtr, OVERFLOW_FLAG, 0, false),
        (Opcode::JnCryPtr, OVERFLOW_FLAG, 0, true),
    ];
    for (op, flag, value, taken) in pointer_cases {
        let mut e = ready(op, vec![reg(4)]);
        e.set_reg(4, 700);
        e.set_reg(flag, value);
        assert_eq!(e.step(false), None);
        assert_eq!(e.reg(PROGRAM_COUNTER), if taken { 700 } else { 303 }, "{:?}", op);
    }
}

#[test]
fn unprivileged_jumps_are_relocated() {
    let mut e = ready_unprivileged(Opcode::Jmp, vec![adr(30)]);
    e.set_reg(PROGRAM_START, 250);
    e.step(false);
    assert_eq!(e.reg(PROGRAM_COUNTER), 280);

    let mut e = ready_unprivileged(Opcode::JmpPtr, vec![reg(4)]);
    e.set_reg(PROGRAM_START, 250);
    e.set_reg(4, 31);
    e.step(false);
    assert_eq!(e.reg(PROGRAM_COUNTER), 281);
}

#[test]
fn push_and_pop() {
    let mut e = ready(Opcode::Psh, vec![reg(1)]);
    e.set_reg(1, 77);
    e.set_reg(STACK_TOP_PTR, 4);
    e.step(false);
    assert_eq!(e.stack_word(4), 77);
    assert_eq!(e.reg(STACK_TOP_PTR), 5);

    let mut e = ready(Opcode::PshCon, vec![con(0x1234)]);
    e.step(false);
    assert_eq!(e.stack_word(0), 0x1234);
    assert_eq!(e.reg(STACK_TOP_PTR), 1);

    let mut e = ready(Opcode::PshPtr, vec![ptr(1)]);
    e.set_reg(1, 40);
    e.set_ram_word(40, 66);
    e.step(false);
    assert_eq!(e.stack_word(0), 66);
    assert_eq!(e.reg(STACK_TOP_PTR), 1);

    // Pop reads the word at the stack pointer, then moves the pointer down.
    let mut e = ready(Opcode::Pop, vec![reg(1)]);
    e.set_reg(STACK_TOP_PTR, 4);
    e.set_stack_word(4, 88);
    e.set_stack_word(3, 99);
    e.step(false);
    assert_eq!(e.reg(1), 88);
    assert_eq!(e.reg(STACK_TOP_PTR), 3);

    let mut e = ready(Opcode::Pop, vec![reg(1)]);
    e.step(false);
    assert_eq!(e.reg(STACK_TOP_PTR), 0xffff);
}

#[test]
fn stack_by_index() {
    let mut e = ready(Opcode::Index, vec![adr(9), reg(1)]);
    e.set_stack_word(9, 5);
    e.step(false);
    assert_eq!(e.reg(1), 5);

    let mut e = ready(Opcode::Edit, vec![adr(9), reg(1)]);
    e.set_reg(1, 6);
    e.step(false);
    assert_eq!(e.stack_word(9), 6);

    let mut e = ready(Opcode::IndexPtr, vec![reg(2), reg(1)]);
    e.set_reg(2, 9);
    e.set_stack_word(9, 7);
    e.step(false);
    assert_eq!(e.reg(1), 7);

    let mut e = ready(Opcode::EditPtr, vec![reg(2), reg(1)]);
    e.set_reg(2, 9);
    e.set_reg(1, 8);
    e.step(false);
    assert_eq!(e.stack_word(9), 8);

    let mut e = ready(Opcode::IndexOff, vec![reg(2), reg(1)]);
    e.set_reg(STACK_TOP_PTR, 12);
    e.set_reg(2, 3);
    e.set_stack_word(9, 9);
    e.step(false);
    assert_eq!(e.reg(1), 9);

    let mut e = ready(Opcode::IndexOffConst, vec![con(3), reg(1)]);
    e.set_reg(STACK_TOP_PTR, 12);
    e.set_stack_word(9, 10);
    e.step(false);
    assert_eq!(e.reg(1), 10);

    let mut e = ready(Opcode::SetStackPtr, vec![reg(1)]);
    e.set_reg(1, 321);
    e.step(false);
    assert_eq!(e.reg(STACK_TOP_PTR), 321);
}

#[test]
fn calls_and_returns() {
    let mut e = ready(Opcode::Call, vec![adr(800)]);
    e.set_reg(STACK_TOP_PTR, 2);
    e.step(false);
    assert_eq!(e.reg(PROGRAM_COUNTER), 800);
    assert_eq!(e.stack_word(2), 303);
    assert_eq!(e.reg(STACK_TOP_PTR), 3);
    assert_eq!(e.reg(CYCLES), 3);

    let mut e = ready(Opcode::Ret, vec![]);
    e.set_reg(STACK_TOP_PTR, 3);
    e.set_stack_word(2, 303);
    e.step(false);
    assert_eq!(e.reg(PROGRAM_COUNTER), 303);
    assert_eq!(e.reg(STACK_TOP_PTR), 2);

    let mut e = ready(Opcode::RetConst, vec![con(2)]);
    e.set_reg(STACK_TOP_PTR, 6);
    e.set_stack_word(3, 555);
    e.step(false);
    assert_eq!(e.reg(PROGRAM_COUNTER), 555);
    assert_eq!(e.reg(STACK_TOP_PTR), 3);

    let mut e = ready(Opcode::RetFramed, vec![reg(1)]);
    e.set_reg(STACK_TOP_PTR, 6);
    e.set_reg(1, 4);
    e.set_stack_word(4, 666);
    e.step(false);
    assert_eq!(e.reg(PROGRAM_COUNTER), 666);
    assert_eq!(e.reg(STACK_TOP_PTR), 4);
}

#[test]
fn unprivileged_stack_is_relocated_and_bounded() {
    let mut e = ready_unprivileged(Opcode::Psh, vec![reg(1)]);
    e.set_reg(1, 77);
    e.set_reg(STACK_TOP_PTR, 50);
    e.step(false);
    assert_eq!(e.reg(PROTECTED), 0);
    assert_eq!(e.stack_word(2050), 77);
    assert_eq!(e.reg(STACK_TOP_PTR), 51);

    let mut e = ready_unprivileged(Opcode::Psh, vec![reg(1)]);
    e.set_reg(1, 77);
    e.set_reg(STACK_TOP_PTR, 51);
    e.step(false);
    assert!(faulted(&e));
    assert_eq!(e.stack_word(2051), 0);
    assert_eq!(e.reg(STACK_TOP_PTR), 51);

    let mut e = ready_unprivileged(Opcode::Call, vec![adr(30)]);
    e.set_reg(PROGRAM_START, 250);
    e.set_reg(STACK_TOP_PTR, 1);
    e.step(false);
    assert_eq!(e.stack_word(2001), 303);
    assert_eq!(e.reg(PROGRAM_COUNTER), 280);

    let mut e = ready_unprivileged(Opcode::Edit, vec![adr(51), reg(1)]);
    e.set_reg(1, 5);
    e.step(false);
    assert!(faulted(&e));
    assert_eq!(e.stack_word(2051), 0);

    let mut e = ready_unprivileged(Opcode::PshPtr, vec![ptr(1)]);
    e.set_reg(1, 101);
    e.step(false);
    assert!(faulted(&e));
    assert_eq!(e.reg(STACK_TOP_PTR), 0);

    let mut e = ready_unprivileged(Opcode::Ret, vec![]);
    e.set_reg(STACK_TOP_PTR, 51);
    e.step(false);
    assert!(faulted(&e));
    assert_eq!(e.reg(STACK_TOP_PTR), 51);
}

#[test]
fn control_registers_are_for_privileged_code() {
    let sets = [
        (Opcode::SetRamFrame, RAM_FRAME_START),
        (Opcode::SetStackFrame, STACK_FRAME_START),
        (Opcode::SetTimeout, TIMEOUT_DURATION),
        (Opcode::SetPgrmStart, PROGRAM_START),
        (Opcode::SetRamSize, RAM_SIZE),
        (Opcode::SetPgrmSize, PROGRAM_SIZE),
        (Opcode::SetStackSize, STACK_SIZE),
    ];
    for (op, register) in sets {
        let mut e = ready(op, vec![reg(1)]);
        e.set_reg(1, 4242);
        e.step(false);
        assert_eq!(e.reg(register), 4242, "{:?}", op);
        assert_eq!(e.reg(PROGRAM_COUNTER), 303);

        let mut e = ready_unprivileged(op, vec![reg(1)]);
        let before = e.reg(register);
        e.set_reg(1, 4242);
        e.step(false);
        assert!(faulted(&e), "{:?}", op);
        assert_eq!(e.reg(register), before);
    }
    let addresses = [
        (Opcode::SetTimeoutAdd, TIMEOUT_CALLBACK_ADDR),
        (Opcode::SetIntAddr, INTERRUPT_CALLBACK_ADDR),
        (Opcode::SetFaultAddr, FAULT_CALLBACK_ADDR),
    ];
    for (op, register) in addresses {
        let mut e = ready(op, vec![adr(0x1357)]);
        e.step(false);
        assert_eq!(e.reg(register), 0x1357, "{:?}", op);

        let mut e = ready_unprivileged(op, vec![adr(0x1357)]);
        e.step(false);
        assert!(faulted(&e), "{:?}", op);
    }
}

#[test]
fn registers_are_saved_and_loaded() {
    let mut e = ready(Opcode::SaveRegisters, vec![reg(1)]);
    e.set_reg(1, 7000);
    e.set_reg(5, 55);
    e.set_reg(63, 63);
    e.set_reg(64, 64);
    e.set_ram_word(7064, 9);
    e.step(false);
    assert_eq!(e.ram_word(7001), 7000);
    assert_eq!(e.ram_word(7005), 55);
    assert_eq!(e.ram_word(7000 + PROGRAM_COUNTER as u16), 300);
    assert_eq!(e.ram_word(7000 + CYCLES as u16), 3);
    assert_eq!(e.ram_word(7063), 63);
    assert_eq!(e.ram_word(7064), 9);
    assert_eq!(e.ram_word(6999), 0);

    let mut e = ready_unprivileged(Opcode::SaveRegisters, vec![reg(1)]);
    e.set_reg(1, 7000);
    e.set_reg(5, 55);
    e.step(false);
    assert!(faulted(&e));
    assert_eq!(e.ram_word(7005), 0);
}

#[test]
fn interrupts_enter_and_leave_privileged_mode() {
    let mut e = ready_unprivileged(Opcode::Int, vec![]);
    e.set_reg(INTERRUPT_CALLBACK_ADDR, 4000);
    assert_eq!(e.step(false), None);
    assert_eq!(e.reg(PROGRAM_COUNTER), 4000);
    assert_eq!(e.reg(PROTECTED), 1);
    assert_eq!(e.reg(INTERRUPTED_LINE), 303);

    let mut e = ready(Opcode::Int, vec![]);
    e.set_reg(INTERRUPT_CALLBACK_ADDR, 4000);
    e.step(false);
    assert_eq!(e.reg(PROGRAM_COUNTER), 303);
    assert_eq!(e.reg(PROTECTED), 1);
    assert_eq!(e.reg(INTERRUPTED_LINE), 0);

    let mut e = ready(Opcode::RetInt, vec![]);
    e.set_reg(INTERRUPTED_LINE, 606);
    e.step(false);
    assert_eq!(e.reg(PROGRAM_COUNTER), 606);
    assert_eq!(e.reg(PROTECTED), 0);

    let mut e = ready_unprivileged(Opcode::RetInt, vec![]);
    e.step(false);
    assert!(faulted(&e));

    let mut e = ready(Opcode::CallPgrm, vec![reg(1)]);
    e.set_reg(1, 909);
    e.set_reg(CYCLES, 500);
    e.step(false);
    assert_eq!(e.reg(PROGRAM_COUNTER), 909);
    assert_eq!(e.reg(PROTECTED), 0);
    assert_eq!(e.held_cycle_count(), 501);

    let mut e = ready_unprivileged(Opcode::CallPgrm, vec![reg(1)]);
    e.step(false);
    assert!(faulted(&e));
    assert_eq!(e.held_cycle_count(), 0);
}

#[test]
fn the_ways_the_machine_stops() {
    let mut e = ready(Opcode::Kill, vec![]);
    assert_eq!(e.step(false), Some(Halt::Kill));
    assert_eq!(e.reg(PROGRAM_COUNTER), 300);
    assert_eq!(e.run(10), Some(Halt::Kill));

    let mut e = ready_unprivileged(Opcode::Kill, vec![]);
    assert_eq!(e.step(false), None);
    assert!(faulted(&e));

    let mut e = ready(Opcode::Nop, vec![]);
    e.set_ram_word(300, 0x0400);
    assert_eq!(e.step(false), Some(Halt::UnknownOpcode));
    assert_eq!(e.reg(PROGRAM_COUNTER), 300);
    assert_eq!(e.reg(CYCLES), 1);

    let mut e = ready_unprivileged(Opcode::Nop, vec![]);
    e.set_reg(PROGRAM_START, 200);
    e.set_reg(PROGRAM_SIZE, 102);
    assert_eq!(e.step(false), Some(Halt::ProgramBounds));
    assert_eq!(e.reg(PROGRAM_COUNTER), 300);

    let mut e = ready_unprivileged(Opcode::Nop, vec![]);
    e.set_reg(PROGRAM_START, 200);
    e.set_reg(PROGRAM_SIZE, 103);
    assert_eq!(e.step(false), None);
    assert_eq!(e.reg(PROGRAM_COUNTER), 303);

    let mut e = ready_unprivileged(Opcode::Jmp, vec![adr(10)]);
    e.set_reg(PROGRAM_START, 400);
    e.set_reg(PROGRAM_SIZE, 5);
    assert_eq!(e.step(false), Some(Halt::ProgramBounds));

    let mut e = ready(Opcode::Nop, vec![]);
    assert_eq!(e.run(0), None);
    assert_eq!(e.reg(PROGRAM_COUNTER), 300);
    assert_eq!(e.run(4), None);
    assert_eq!(e.reg(PROGRAM_COUNTER), 312);
    assert_eq!(e.reg(CYCLES), 4);
}

#[test]
fn the_program_counter_wraps_around() {
    let mut e = ready(Opcode::Nop, vec![]);
    e.set_reg(PROGRAM_COUNTER, 0xffff);
    place(&mut e, 0xffff, Opcode::Ldi, vec![reg(1), con(0x4321)]);
    assert_eq!(e.ram_word(0xffff), 0x0101);
    assert_eq!(e.ram_word(0), 0x2143);
    assert_eq!(e.step(false), None);
    assert_eq!(e.reg(1), 0x4321);
    assert_eq!(e.reg(PROGRAM_COUNTER), 2);
}

#[test]
fn cycles_count_up_by_the_cost_of_each_instruction() {
    let mut e = ready(Opcode::Nop, vec![]);
    place(&mut e, 303, Opcode::MemCpy, vec![adr(0), adr(0), con(0)]);
    place(&mut e, 306, Opcode::WriteSeg, vec![reg(0), reg(0), reg(0), reg(0)]);
    place(&mut e, 309, Opcode::Jmp, vec![adr(312)]);
    let mut seen = vec![e.reg(CYCLES)];
    for _ in 0..4 {
        assert_eq!(e.step(false), None);
        seen.push(e.reg(CYCLES));
    }
    assert_eq!(seen, vec![0, 1, 6, 14, 16]);

    let mut e = ready(Opcode::Nop, vec![]);
    e.set_reg(CYCLES, 0xffff);
    e.step(false);
    assert_eq!(e.reg(CYCLES), 0);

    let mut e = ready(Opcode::Ldi, vec![reg(CYCLES), con(3)]);
    e.set_reg(CYCLES, 100);
    e.step(false);
    assert_eq!(e.reg(CYCLES), 3);
}

#[test]
fn a_timeout_is_counted_from_the_entry_into_the_program() {
    let mut e = ready_unprivileged(Opcode::Nop, vec![]);
    e.set_reg(TIMEOUT_DURATION, 2);
    e.set_reg(TIMEOUT_CALLBACK_ADDR, 5000);
    e.set_reg(CYCLES, 0xfffe);
    e.set_held_cycle_count(0xfffe);
    assert_eq!(e.step(false), None);
    assert_eq!((e.reg(CYCLES), e.reg(PROGRAM_COUNTER), e.reg(PROTECTED)), (0xffff, 303, 0));
    assert_eq!(e.step(false), None);
    assert_eq!((e.reg(CYCLES), e.reg(PROGRAM_COUNTER), e.reg(PROTECTED)), (0, 306, 0));
    assert_eq!(e.step(false), None);
    assert_eq!((e.reg(CYCLES), e.reg(PROGRAM_COUNTER), e.reg(PROTECTED)), (1, 5000, 1));
    assert_eq!(e.held_cycle_count(), 0xfffe);
}

#[test]
fn flow_of_a_single_instruction() {
    let mut e = ready(Opcode::Jmp, vec![adr(5)]);
    assert_eq!(e.execute(Opcode::Jmp, &vec![adr(5)], 300, false), Flow::Jump(5));
    assert_eq!(e.execute(Opcode::Nop, &vec![], 300, false), Flow::Next);
    assert_eq!(e.execute(Opcode::Kill, &vec![], 300, false), Flow::Stop(Halt::Kill));
    assert_eq!(e.reg(PROGRAM_COUNTER), 300);
    assert_eq!(e.finish(Flow::Jump(5), 300), None);
    assert_eq!(e.reg(PROGRAM_COUNTER), 5);
    assert_eq!(e.fetched(), Some(Opcode::Nop));
}
