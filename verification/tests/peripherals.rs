use std::sync::Arc;

use cisc16::assembler::Parameter;
use cisc16::console::{Console, RunEnd};
use cisc16::emitter::encode;
use cisc16::isa::Opcode;
use cisc16::machine::{
    Emulator, Halt, CONDITION_FLAG, FAULT_CALLBACK_ADDR, PROGRAM_COUNTER, PROGRAM_SIZE, PROTECTED,
    TIMEOUT_DURATION,
};

fn ready(program: Vec<(Opcode, Vec<Parameter>)>) -> Emulator {
    let mut emulator = Emulator::new();
    emulator.set_reg(PROTECTED, 1);
    emulator.set_reg(PROGRAM_COUNTER, 300);
    emulator.set_reg(FAULT_CALLBACK_ADDR, 9000);
    emulator.set_reg(TIMEOUT_DURATION, 0xffff);
    emulator.set_reg(PROGRAM_SIZE, 0xffff);
    for (k, (op, operands)) in program.into_iter().enumerate() {
        let words = encode(op, &operands).unwrap();
        for (j, w) in words.iter().enumerate() {
            emulator.set_ram_word(300 + 3 * k as u16 + j as u16, *w);
        }
    }
    emulator
}

fn unprivileged(program: Vec<(Opcode, Vec<Parameter>)>) -> Emulator {
    let mut emulator = ready(program);
    emulator.set_reg(PROTECTED, 0);
    emulator
}

fn dead_pixel(emulator: &Emulator, x: usize, y: usize) -> u16 {
    emulator.v_ram_word(emulator.dead_zone() + x + y * 480)
}

const BACKGROUND: u16 = 0b11000_00101_11010_0;

#[test]
fn a_new_machine_is_blank() {
    let emulator = Emulator::new();
    for r in 0..=255u8 {
        assert_eq!(emulator.reg(r), 0);
    }
    assert_eq!(emulator.ram_word(0), 0);
    assert_eq!(emulator.ram_word(0xffff), 0);
    assert_eq!(emulator.stack_word(0xffff), 0);
    assert_eq!(emulator.disc_word(0), 0);
    assert_eq!(emulator.disc_word(u32::MAX), 0);
    assert_eq!(emulator.frame().len(), 307200);
    assert_eq!(emulator.v_ram_word(0), BACKGROUND);
    assert_eq!(emulator.v_ram_word(307199), BACKGROUND);
    assert_eq!(emulator.frame_buffer_ptr(), 0);
    assert_eq!(emulator.dead_zone(), 153600);
    assert_eq!(emulator.in_port(0), (0, false));
    assert_eq!(emulator.out_port(255), (0, false));
    assert_eq!(emulator.held_cycle_count(), 0);
    for code in 0..=255u8 {
        let expected = Opcode::from_code(code).map(|op| op.cycle_cost()).unwrap_or(1);
        assert_eq!(emulator.cycle_cost(code), expected);
    }
}

#[test]
fn booting_reads_the_first_words_of_the_disc() {
    let mut emulator = Emulator::new();
    let image: Vec<(usize, (u16, usize))> =
        (0..300).map(|i| (i, (1000 + i as u16, 0))).chain([(5, (7, 1))]).collect();
    emulator.load_image(&image);
    assert_eq!(emulator.disc_word(5), 7);
    assert_eq!(emulator.disc_word(299), 1299);
    emulator.set_ram_word(256, 0xaaaa);
    emulator.set_reg(PROGRAM_COUNTER, 900);
    emulator.boot();
    assert_eq!(emulator.ram_word(0), 1000);
    assert_eq!(emulator.ram_word(5), 7);
    assert_eq!(emulator.ram_word(255), 1255);
    assert_eq!(emulator.ram_word(256), 0xaaaa);
    assert_eq!(emulator.ram_word(257), 0);
    assert_eq!(emulator.reg(PROGRAM_COUNTER), 3);
    assert_eq!(emulator.reg(PROTECTED), 1);
}

#[test]
fn words_keep_the_tags_of_their_source_lines() {
    let mut e = ready(vec![
        (
            Opcode::LoadSeg,
            vec![
                Parameter::Register(1),
                Parameter::Register(2),
                Parameter::Register(3),
                Parameter::Register(4),
            ],
        ),
        (
            Opcode::WriteSeg,
            vec![
                Parameter::Register(5),
                Parameter::Register(2),
                Parameter::Register(3),
                Parameter::Register(4),
            ],
        ),
    ]);
    e.load_image(&vec![(0, (1, 0)), (400, (0x1111, 17)), (401, (0x2222, 18)), (401, (0x3333, 19))]);
    assert_eq!(e.disc_line(400), 17);
    assert_eq!(e.disc_line(401), 19);
    assert_eq!(e.disc_word(401), 0x3333);
    assert_eq!(e.disc_line(402), 0);
    assert_eq!(e.ram_line(600), 0);
    e.set_reg(1, 400);
    e.set_reg(3, 600);
    e.set_reg(4, 2);
    e.set_reg(5, 9000);
    assert_eq!(e.step(false), None);
    assert_eq!((e.ram_word(600), e.ram_line(600)), (0x1111, 17));
    assert_eq!((e.ram_word(601), e.ram_line(601)), (0x3333, 19));
    assert_eq!((e.ram_word(602), e.ram_line(602)), (0, 0));
    assert_eq!(e.step(false), None);
    assert_eq!((e.disc_word(9000), e.disc_line(9000)), (0x1111, 17));
    assert_eq!((e.disc_word(9001), e.disc_line(9001)), (0x3333, 19));
    assert_eq!((e.disc_word(9002), e.disc_line(9002)), (0, 0));

    let mut e = Emulator::new();
    e.load_image(&vec![(3, (0x2f00, 41)), (255, (7, 42)), (256, (8, 43))]);
    e.set_ram_line(256, 5);
    e.boot();
    assert_eq!(e.ram_line(3), 41);
    assert_eq!(e.ram_line(4), 0);
    assert_eq!(e.ram_line(255), 42);
    assert_eq!(e.ram_line(256), 5);
    e.set_disc_line(3, 1);
    assert_eq!(e.disc_line(3), 1);
    assert_eq!(e.disc_word(3), 0x2f00);
}

#[test]
fn disc_words() {
    let mut e = ready(vec![
        (Opcode::Write, vec![Parameter::Address(0xdead_beef), Parameter::Register(1)]),
        (Opcode::Load, vec![Parameter::Address(0xdead_beef), Parameter::Register(2)]),
        (Opcode::Load, vec![Parameter::Address(0xdead_bee0), Parameter::Register(1)]),
        (
            Opcode::WritePtr,
            vec![Parameter::Register(3), Parameter::Register(4), Parameter::Register(2)],
        ),
        (
            Opcode::LoadPtr,
            vec![Parameter::Register(3), Parameter::Register(4), Parameter::Register(5)],
        ),
    ]);
    e.set_reg(1, 0x1111);
    e.set_reg(3, 0x0002);
    e.set_reg(4, 0x0001);
    assert_eq!(e.run(5), None);
    assert_eq!(e.disc_word(0xdead_beef), 0x1111);
    assert_eq!(e.reg(2), 0x1111);
    assert_eq!(e.reg(1), 0);
    assert_eq!(e.disc_word(0x0001_0002), 0x1111);
    assert_eq!(e.reg(5), 0x1111);

    let mut e = unprivileged(vec![(
        Opcode::Write,
        vec![Parameter::Address(9), Parameter::Register(1)],
    )]);
    e.set_reg(1, 5);
    assert_eq!(e.step(false), None);
    assert_eq!(e.reg(PROTECTED), 1);
    assert_eq!(e.reg(PROGRAM_COUNTER), 9000);
    assert_eq!(e.disc_word(9), 0);
}

#[test]
fn disc_segments() {
    let four = vec![
        Parameter::Register(1),
        Parameter::Register(2),
        Parameter::Register(3),
        Parameter::Register(4),
    ];
    let mut e = ready(vec![(Opcode::WriteSeg, four.clone()), (Opcode::LoadSeg, four.clone())]);
    e.set_reg(1, 0xffff);
    e.set_reg(2, 0xffff);
    e.set_reg(3, 0xfffe);
    e.set_reg(4, 3);
    e.set_ram_word(0xfffe, 10);
    e.set_ram_word(0xffff, 11);
    e.set_ram_word(0, 12);
    assert_eq!(e.step(false), None);
    assert_eq!(e.disc_word(0xffff_ffff), 10);
    assert_eq!(e.disc_word(0), 11);
    assert_eq!(e.disc_word(1), 12);
    assert_eq!(e.disc_word(2), 0);
    e.set_reg(3, 500);
    e.set_reg(4, 2);
    assert_eq!(e.step(false), None);
    assert_eq!((e.ram_word(499), e.ram_word(500), e.ram_word(501), e.ram_word(502)), (0, 10, 11, 0));
}

#[test]
fn ports() {
    let mut e = ready(vec![
        (Opcode::ReadIn, vec![Parameter::Register(1), Parameter::Constant(7)]),
        (Opcode::ReadInFlag, vec![Parameter::Constant(7)]),
        (Opcode::ReadInFlag, vec![Parameter::Constant(8)]),
        (Opcode::WriteOut, vec![Parameter::Register(1), Parameter::Constant(9)]),
        (Opcode::WriteOutFlag, vec![Parameter::Register(1), Parameter::Constant(9)]),
        (Opcode::WriteOutFlag, vec![Parameter::Register(2), Parameter::Constant(9)]),
    ]);
    e.set_in_port(7, 0x4142, true);
    e.step(false);
    assert_eq!(e.reg(1), 0x4142);
    e.step(false);
    assert_eq!(e.reg(CONDITION_FLAG), 1);
    e.step(false);
    assert_eq!(e.reg(CONDITION_FLAG), 0);
    e.step(false);
    assert_eq!(e.out_port(9), (0x4142, false));
    e.step(false);
    assert_eq!(e.out_port(9), (0x4142, true));
    e.step(false);
    assert_eq!(e.out_port(9), (0x4142, false));
    assert_eq!(e.out_port(8), (0, false));

    let mut e = unprivileged(vec![(
        Opcode::WriteOut,
        vec![Parameter::Register(1), Parameter::Constant(9)],
    )]);
    e.set_reg(1, 5);
    e.step(false);
    assert_eq!(e.reg(PROTECTED), 1);
    assert_eq!(e.out_port(9), (0, false));
}

#[test]
fn plotting_goes_to_the_frame_that_is_not_shown() {
    let three = vec![Parameter::Register(1), Parameter::Register(2), Parameter::Register(3)];
    let mut e = ready(vec![
        (Opcode::Plot, three.clone()),
        (Opcode::ColorPtr, vec![Parameter::Register(2), Parameter::Register(3), Parameter::Register(4)]),
        (Opcode::SwapFrameBuf, vec![]),
        (Opcode::ColorPtr, vec![Parameter::Register(2), Parameter::Register(3), Parameter::Register(4)]),
        (Opcode::ColorAt, vec![Parameter::Constant(479), Parameter::Constant(319), Parameter::Register(5)]),
        (Opcode::ColorAt, vec![Parameter::Constant(480), Parameter::Constant(0), Parameter::Register(5)]),
        (Opcode::Plot, three.clone()),
    ]);
    e.set_reg(1, 0x7fff);
    e.set_reg(2, 479);
    e.set_reg(3, 319);
    e.step(false);
    assert_eq!(e.v_ram_word(153600 + 153599), 0x7fff);
    assert_eq!(e.v_ram_word(153599), BACKGROUND);
    e.step(false);
    assert_eq!(e.reg(4), BACKGROUND);
    e.step(false);
    assert_eq!(e.frame_buffer_ptr(), 153600);
    e.step(false);
    assert_eq!(e.reg(4), 0x7fff);
    e.step(false);
    assert_eq!(e.reg(5), 0x7fff);
    e.step(false);
    assert_eq!(e.reg(5), 0);
    e.set_reg(2, 480);
    e.set_reg(3, 0);
    e.step(false);
    assert!(e.frame().iter().filter(|w| **w != BACKGROUND).count() == 1);
}

#[test]
fn rectangles_are_cut_off_at_the_edges() {
    let five: Vec<Parameter> = (1..=5).map(Parameter::Register).collect();
    let mut e = ready(vec![(Opcode::Solid, five.clone()), (Opcode::Solid, five.clone())]);
    e.set_reg(1, 478);
    e.set_reg(2, 318);
    e.set_reg(3, 5);
    e.set_reg(4, 9);
    e.set_reg(5, 0x1234);
    e.step(false);
    let painted: Vec<usize> =
        (0..153600).filter(|i| e.v_ram_word(153600 + i) != BACKGROUND).collect();
    assert_eq!(painted, vec![478 + 318 * 480, 479 + 318 * 480, 478 + 319 * 480, 479 + 319 * 480]);
    assert!((0..153600).all(|i| e.v_ram_word(i) == BACKGROUND));
    assert_eq!(dead_pixel(&e, 478, 318), 0x1234);

    e.set_reg(1, 10);
    e.set_reg(2, 20);
    e.set_reg(3, 3);
    e.set_reg(4, 2);
    e.set_reg(5, 0x00ff);
    e.step(false);
    for (x, y, expected) in [
        (9, 20, BACKGROUND),
        (10, 20, 0x00ff),
        (12, 21, 0x00ff),
        (13, 21, BACKGROUND),
        (10, 19, BACKGROUND),
        (10, 22, BACKGROUND),
    ] {
        assert_eq!(dead_pixel(&e, x, y), expected, "({}, {})", x, y);
    }
}

#[test]
fn a_sprite_is_drawn_row_by_row() {
    let five: Vec<Parameter> = (1..=5).map(Parameter::Register).collect();
    let mut e = ready(vec![(Opcode::Place, five.clone()), (Opcode::Place, five)]);
    e.set_reg(1, 7000);
    e.set_reg(2, 100);
    e.set_reg(3, 50);
    e.set_reg(4, 3);
    e.set_reg(5, 2);
    for k in 0..6 {
        e.set_ram_word(7000 + k, 1 + k);
    }
    e.step(false);
    let drawn: Vec<u16> = [(100, 50), (101, 50), (102, 50), (100, 51), (101, 51), (102, 51)]
        .iter()
        .map(|(x, y)| dead_pixel(&e, *x, *y))
        .collect();
    assert_eq!(drawn, vec![1, 2, 3, 4, 5, 6]);
    assert_eq!(dead_pixel(&e, 103, 50), BACKGROUND);
    assert_eq!(dead_pixel(&e, 100, 52), BACKGROUND);

    // Cut off at the right edge, the rows of the sprite keep their width.
    e.set_reg(2, 478);
    e.set_reg(3, 0);
    e.step(false);
    assert_eq!(dead_pixel(&e, 478, 0), 1);
    assert_eq!(dead_pixel(&e, 479, 0), 2);
    assert_eq!(dead_pixel(&e, 0, 1), BACKGROUND);
    assert_eq!(dead_pixel(&e, 478, 1), 4);
    assert_eq!(dead_pixel(&e, 479, 1), 5);
}

#[test]
fn regions_and_whole_frames_are_copied() {
    let mut e = ready(vec![
        (
            Opcode::CpyRegion,
            vec![Parameter::Address(7000), Parameter::Address(40), Parameter::Constant(3)],
        ),
        (
            Opcode::CpyRegionPtr,
            vec![Parameter::Register(1), Parameter::Register(2), Parameter::Register(3)],
        ),
        (Opcode::SwapFrameBuf, vec![]),
        (Opcode::CpyShown, vec![]),
    ]);
    for k in 0..5 {
        e.set_ram_word(7000 + k, 0x100 + k);
    }
    e.step(false);
    let copied: Vec<u16> = (39..44).map(|i| e.v_ram_word(153600 + i)).collect();
    assert_eq!(copied, vec![BACKGROUND, 0x100, 0x101, 0x102, BACKGROUND]);

    e.set_reg(1, 7000);
    e.set_reg(2, 0xfffe);
    e.set_reg(3, 5);
    e.step(false);
    assert_eq!(e.v_ram_word(153600 + 0xfffd), BACKGROUND);
    assert_eq!(e.v_ram_word(153600 + 0xfffe), 0x100);
    assert_eq!(e.v_ram_word(153600 + 0xffff), 0x101);
    assert_eq!(e.v_ram_word(153600 + 0x10002), 0x104);
    assert_eq!(e.v_ram_word(153600 + 0x10003), BACKGROUND);

    e.step(false);
    e.step(false);
    assert_eq!(e.frame_buffer_ptr(), 153600);
    assert_eq!(e.v_ram_word(41), 0x101);
    assert_eq!(e.v_ram_word(153600 + 41), 0x101);
    assert_eq!(e.v_ram_word(0xffff), 0x101);
    assert!((0..153600).all(|i| e.v_ram_word(i) == e.v_ram_word(153600 + i)));
}

#[test]
fn video_is_for_privileged_code() {
    for (op, operands) in [
        (Opcode::SwapFrameBuf, vec![]),
        (Opcode::CpyShown, vec![]),
        (Opcode::VBlank, vec![]),
        (Opcode::Plot, vec![Parameter::Register(1), Parameter::Register(2), Parameter::Register(3)]),
    ] {
        let mut e = unprivileged(vec![(op, operands)]);
        e.set_reg(1, 5);
        assert_eq!(e.step(true), None);
        assert_eq!(e.reg(PROTECTED), 1);
        assert_eq!(e.reg(PROGRAM_COUNTER), 9000);
        assert_eq!(e.frame_buffer_ptr(), 0);
        assert_eq!(e.reg(CONDITION_FLAG), 0);
        assert!(e.frame().iter().all(|w| *w == BACKGROUND));
    }
}

#[test]
fn blanking_interval_is_reported_once() {
    let mut e = ready(vec![(Opcode::VBlank, vec![]), (Opcode::VBlank, vec![])]);
    assert_eq!(e.step(true), None);
    assert_eq!(e.reg(CONDITION_FLAG), 1);
    assert_eq!(e.step(false), None);
    assert_eq!(e.reg(CONDITION_FLAG), 0);
}

fn console() -> (
    Console,
    crossbeam::channel::Sender<()>,
    crossbeam::channel::Sender<()>,
) {
    let (v_blank, display_v_blank) = crossbeam::channel::bounded(1);
    let (kill, kill_recv) = crossbeam::channel::bounded(1);
    let console = Console {
        v_ram: Arc::new(parking_lot::RwLock::new(vec![0; 307200])),
        frame_buffer_ptr: Arc::new(parking_lot::RwLock::new(0)),
        io_in_ports: Arc::new(parking_lot::RwLock::new(vec![(0, false); 256])),
        display_v_blank,
        kill_recv,
    };
    (console, v_blank, kill)
}

#[test]
fn an_attached_run_stops_on_the_kill_signal() {
    let (console, _v_blank, kill) = console();
    let mut e = ready(vec![]);
    assert_eq!(e.run_attached(&console, 0), RunEnd::OutOfSteps);
    assert_eq!(e.run_attached(&console, 5), RunEnd::OutOfSteps);
    assert_eq!(e.reg(PROGRAM_COUNTER), 315);
    kill.send(()).unwrap();
    assert_eq!(e.run_attached(&console, 5), RunEnd::Killed);
    assert_eq!(e.reg(PROGRAM_COUNTER), 315);
    assert_eq!(e.run_attached(&console, 2), RunEnd::OutOfSteps);
    assert_eq!(e.reg(PROGRAM_COUNTER), 321);
    e.set_ram_word(321, 0x2f00);
    assert_eq!(e.run_attached(&console, 2), RunEnd::Halted(Halt::Kill));
}

#[test]
fn an_attached_run_reads_its_ports_from_the_source_of_input() {
    let (console, _v_blank, _kill) = console();
    let mut e = ready(vec![
        (Opcode::ReadInFlag, vec![Parameter::Constant(0)]),
        (Opcode::ReadIn, vec![Parameter::Register(1), Parameter::Constant(0)]),
        (Opcode::Nop, vec![]),
        (Opcode::ReadIn, vec![Parameter::Register(2), Parameter::Constant(0)]),
    ]);
    e.set_in_port(0, 0x99, false);
    console.io_in_ports.write()[0] = (0x41, true);
    assert_eq!(e.run_attached(&console, 3), RunEnd::OutOfSteps);
    assert_eq!(e.reg(CONDITION_FLAG), 1);
    assert_eq!(e.reg(1), 0x41);
    console.io_in_ports.write()[0] = (0x42, true);
    assert_eq!(e.run_attached(&console, 1), RunEnd::OutOfSteps);
    assert_eq!(e.reg(2), 0x42);
    assert_eq!(e.in_port(0), (0x42, true));
}

#[test]
fn an_attached_run_asks_the_display_only_for_vblank() {
    let (console, v_blank, _kill) = console();
    let mut e = ready(vec![
        (Opcode::Nop, vec![]),
        (Opcode::VBlank, vec![]),
        (Opcode::VBlank, vec![]),
        (Opcode::Plot, vec![Parameter::Register(1), Parameter::Register(2), Parameter::Register(3)]),
        (Opcode::SwapFrameBuf, vec![]),
    ]);
    e.set_reg(1, 0x0f0f);
    v_blank.send(()).unwrap();
    assert_eq!(e.run_attached(&console, 1), RunEnd::OutOfSteps);
    assert_eq!(e.reg(CONDITION_FLAG), 0);
    assert_eq!(e.run_attached(&console, 1), RunEnd::OutOfSteps);
    assert_eq!(e.reg(CONDITION_FLAG), 1);
    assert_eq!(e.run_attached(&console, 1), RunEnd::OutOfSteps);
    assert_eq!(e.reg(CONDITION_FLAG), 0);
    assert_eq!(e.run_attached(&console, 1), RunEnd::OutOfSteps);
    assert_eq!(console.v_ram.read()[153600], 0);
    assert_eq!(*console.frame_buffer_ptr.read(), 0);
    assert_eq!(e.run_attached(&console, 1), RunEnd::OutOfSteps);
    assert_eq!(*console.frame_buffer_ptr.read(), 153600);
    assert_eq!(console.v_ram.read()[153600], 0x0f0f);
    assert_eq!(console.v_ram.read()[0], BACKGROUND);
}
