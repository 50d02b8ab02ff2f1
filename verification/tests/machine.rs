use cisc16::assembler::Parameter;
use cisc16::emitter::{compile_script, encode};
use cisc16::isa::Opcode;
use cisc16::machine::{
    Emulator, Halt, CONDITION_FLAG, CYCLES, FAULT_CALLBACK_ADDR, PROGRAM_COUNTER, PROGRAM_SIZE,
    PROGRAM_START, PROTECTED, RAM_FRAME_START, RAM_SIZE, STACK_TOP_PTR, TIMEOUT_CALLBACK_ADDR,
    TIMEOUT_DURATION,
};
use cisc16::parser::parse_sudo;
use cisc16::text::tokenize_script;

fn booted(source: &[&str]) -> Emulator {
    let lines: Vec<&str> = source.to_vec();
    let script = tokenize_script(&lines);
    let (items, labels) = parse_sudo(script).unwrap();
    let image = compile_script(items, labels).unwrap();
    let mut emulator = Emulator::new();
    emulator.load_image(&image);
    emulator.boot();
    emulator
}

fn put(emulator: &mut Emulator, at: u16, op: Opcode, operands: Vec<Parameter>) {
    let words = encode(op, &operands).unwrap();
    for (k, w) in words.iter().enumerate() {
        emulator.set_ram_word(at + k as u16, *w);
    }
}

#[test]
fn ldi_then_add() {
    let mut emulator = booted(&[
        "! header main",
        "ldi %rda $5",
        "ldi %rdb $74",
        "add %rda %rdb %rdc",
    ]);
    assert_eq!(emulator.run(3), None);
    assert_eq!(emulator.reg(0), 5);
    assert_eq!(emulator.reg(1), 74);
    assert_eq!(emulator.reg(2), 79);
    assert_eq!(emulator.reg(PROGRAM_COUNTER), 12);
    assert_eq!(emulator.reg(CYCLES), 3);
}

#[test]
fn fault_on_out_of_bounds_store() {
    let mut emulator = Emulator::new();
    emulator.set_reg(RAM_SIZE, 16);
    emulator.set_reg(RAM_FRAME_START, 1000);
    emulator.set_reg(PROGRAM_SIZE, 300);
    emulator.set_reg(TIMEOUT_DURATION, 100);
    emulator.set_reg(FAULT_CALLBACK_ADDR, 600);
    emulator.set_reg(0, 0xbeef);
    emulator.set_reg(PROGRAM_COUNTER, 30);
    put(&mut emulator, 30, Opcode::Sto, vec![Parameter::Address(32), Parameter::Register(0)]);
    emulator.set_reg(PROTECTED, 0);
    assert_eq!(emulator.step(false), None);
    assert_eq!(emulator.reg(PROGRAM_COUNTER), 600);
    assert_eq!(emulator.reg(PROTECTED), 1);
    assert_eq!(emulator.ram_word(32), 0);
    assert_eq!(emulator.ram_word(1032), 0);
}

#[test]
fn store_inside_the_frame_is_relocated() {
    let mut emulator = Emulator::new();
    emulator.set_reg(RAM_SIZE, 16);
    emulator.set_reg(RAM_FRAME_START, 1000);
    emulator.set_reg(PROGRAM_SIZE, 300);
    emulator.set_reg(TIMEOUT_DURATION, 100);
    emulator.set_reg(0, 0xbeef);
    emulator.set_reg(PROGRAM_COUNTER, 30);
    put(&mut emulator, 30, Opcode::Sto, vec![Parameter::Address(16), Parameter::Register(0)]);
    emulator.set_reg(PROTECTED, 0);
    assert_eq!(emulator.step(false), None);
    assert_eq!(emulator.reg(PROGRAM_COUNTER), 33);
    assert_eq!(emulator.reg(PROTECTED), 0);
    assert_eq!(emulator.ram_word(1016), 0xbeef);
    assert_eq!(emulator.ram_word(16), 0);
}

#[test]
fn timeout_vectors_to_the_callback() {
    let mut emulator = Emulator::new();
    emulator.set_reg(PROTECTED, 1);
    emulator.set_reg(TIMEOUT_DURATION, 10);
    emulator.set_reg(TIMEOUT_CALLBACK_ADDR, 900);
    emulator.set_reg(PROGRAM_START, 0);
    emulator.set_reg(PROGRAM_SIZE, 0xffff);
    emulator.set_reg(5, 300);
    emulator.set_reg(CYCLES, 40);
    emulator.set_reg(PROGRAM_COUNTER, 3);
    put(&mut emulator, 3, Opcode::CallPgrm, vec![Parameter::Register(5)]);
    // Jmp costs two cycles: the sixth one is the first to bring the count above ten.
    for k in 0..8u16 {
        put(&mut emulator, 300 + 3 * k, Opcode::Jmp, vec![Parameter::Address((303 + 3 * k) as u32)]);
    }
    assert_eq!(emulator.step(false), None);
    assert_eq!(emulator.reg(PROTECTED), 0);
    assert_eq!(emulator.reg(PROGRAM_COUNTER), 300);
    assert_eq!(emulator.held_cycle_count(), 41);
    for k in 0..5u16 {
        assert_eq!(emulator.step(false), None);
        assert_eq!(emulator.reg(PROTECTED), 0);
        assert_eq!(emulator.reg(PROGRAM_COUNTER), 303 + 3 * k);
    }
    assert_eq!(emulator.reg(CYCLES), 51);
    assert_eq!(emulator.step(false), None);
    assert_eq!(emulator.reg(CYCLES), 53);
    assert_eq!(emulator.reg(PROGRAM_COUNTER), 900);
    assert_eq!(emulator.reg(PROTECTED), 1);
}

#[test]
fn block_compare() {
    let mut emulator = booted(&[
        "! header main",
        "jmp #start",
        ". page 30",
        "! label start",
        "memcmp #0 #16 $4",
        "memcmp #0 #16 $4",
    ]);
    assert_eq!(emulator.step(false), None);
    assert_eq!(emulator.reg(PROGRAM_COUNTER), 30);
    for k in 0..4u16 {
        emulator.set_ram_word(k, k + 1);
        emulator.set_ram_word(16 + k, k + 1);
    }
    assert_eq!(emulator.step(false), None);
    assert_eq!(emulator.reg(CONDITION_FLAG), 1);
    emulator.set_ram_word(18, 9);
    assert_eq!(emulator.step(false), None);
    assert_eq!(emulator.reg(CONDITION_FLAG), 0);
}

#[test]
fn call_then_ret() {
    let mut emulator = booted(&[
        "! header main",
        "call #foo",
        "kill",
        "! function foo",
        "ret",
    ]);
    let mut before = Vec::new();
    for r in 0..=255u8 {
        before.push(emulator.reg(r));
    }
    assert_eq!(emulator.step(false), None);
    assert_eq!(emulator.reg(PROGRAM_COUNTER), 9);
    assert_eq!(emulator.reg(STACK_TOP_PTR), 1);
    assert_eq!(emulator.stack_word(0), 6);
    assert_eq!(emulator.step(false), None);
    assert_eq!(emulator.reg(PROGRAM_COUNTER), 6);
    assert_eq!(emulator.reg(STACK_TOP_PTR), 0);
    for r in 0..=255u8 {
        if r != PROGRAM_COUNTER && r != CYCLES {
            assert_eq!(emulator.reg(r), before[r as usize]);
        }
    }
    assert_eq!(emulator.step(false), Some(Halt::Kill));
}

#[test]
fn framebuffer_swap() {
    let mut emulator = booted(&["! header main", "swapframebuf", "swapframebuf"]);
    assert_eq!(emulator.frame_buffer_ptr(), 0);
    assert_eq!(emulator.step(false), None);
    assert_eq!(emulator.frame_buffer_ptr(), 153600);
    assert_eq!(emulator.step(false), None);
    assert_eq!(emulator.frame_buffer_ptr(), 0);
}
