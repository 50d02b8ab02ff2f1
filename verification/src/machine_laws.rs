use crate::assembler::Parameter;
use crate::isa::Opcode;
use crate::decoder::{lemma_encode_decode_round_trip, spec_operands_fit};
use crate::emitter::spec_encode;
use crate::machine::{
    spec_cycle_cost, Flow, Machine, CYCLES, FAULT_CALLBACK_ADDR, FRAME_WORDS, PROGRAM_COUNTER,
    PROGRAM_START, PROTECTED, RAM_FRAME_START, RAM_SIZE, STACK_FRAME_START, STACK_SIZE,
    TIMEOUT_CALLBACK_ADDR, TIMEOUT_DURATION,
};
use crate::step::{spec_charged, spec_effect, spec_fetched, spec_fetched_operands, Family};
use vstd::prelude::*;

verus! {

/// The instructions that can write RAM or the stack when run by an unprivileged program.
pub open spec fn spec_writes_memory(op: Opcode) -> bool {
    matches!(
        op,
        Opcode::LdiR | Opcode::Sto | Opcode::LdiPtr | Opcode::StoPtr | Opcode::StoPtrOff
            | Opcode::StoPtrOffPtr | Opcode::MovR | Opcode::MemCpy | Opcode::MemCpyPtr
            | Opcode::MemFill | Opcode::Psh | Opcode::PshCon | Opcode::PshPtr | Opcode::Edit
            | Opcode::EditPtr | Opcode::Call
    )
}

/// Whether two states hold the same RAM and the same stack.
pub open spec fn same_memory(a: Machine, b: Machine) -> bool {
    a.ram == b.ram && a.stack == b.stack
}

/// A fault leaves everything but the mode as it is.
pub proof fn lemma_fault_keeps_state(m: Machine)
    ensures
        m.fault().0 == m.set_reg(PROTECTED, 1),
        m.fault().1 == Flow::Jump(m.reg(FAULT_CALLBACK_ADDR)),
        same_memory(m.fault().0, m),
        m.fault().0.disc == m.disc,
        m.fault().0.v_ram == m.v_ram,
{
}

/// Run by an unprivileged program, an instruction that does not write memory leaves RAM
/// and the stack as they are.
pub proof fn lemma_execute_keeps_memory(
    m: Machine,
    op: Opcode,
    ops: Seq<Parameter>,
    pc: u16,
    v_blank: bool,
)
    requires
        m.wf(),
        !m.privileged(),
        !spec_writes_memory(op),
    ensures
        same_memory(m.execute(op, ops, pc, v_blank).0, m),
{
    match op.spec_family() {
        Family::Transfer => {
            assert(same_memory(m.transfer(op, ops).0, m));
        },
        Family::Block => {
            assert(same_memory(m.block(op, ops).0, m));
        },
        Family::Control => {
            assert(same_memory(m.control(op, ops, pc).0, m));
        },
        Family::Video => {
            assert(same_memory(m.video(op, ops, v_blank).0, m));
        },
        Family::Arithmetic => {
            assert(same_memory(m.arithmetic(op, ops).0, m));
        },
        Family::Flags => {
            assert(same_memory(m.flag_form(op, ops).0, m));
        },
        Family::Branch => {
            assert(same_memory(m.branch(op, ops).0, m));
        },
        Family::Stack => {
            assert(same_memory(m.stack_form(op, ops, pc).0, m));
        },
        Family::Disc => {
            assert(same_memory(m.disc_form(op, ops).0, m));
        },
        Family::Port => {
            assert(same_memory(m.port_form(op, ops).0, m));
        },
    }
}

/// A step of an unprivileged program whose instruction does not write memory leaves RAM
/// and the stack as they are.
pub proof fn lemma_step_keeps_memory(m: Machine, v_blank: bool)
    requires
        m.wf(),
        !m.privileged(),
        spec_fetched(m) is Some ==> !spec_writes_memory(spec_fetched(m)->0),
    ensures
        same_memory(m.step(v_blank).0, m),
{
    let charged = spec_charged(m);
    if spec_fetched(m) is Some {
        lemma_execute_keeps_memory(
            charged,
            spec_fetched(m)->0,
            spec_fetched_operands(m),
            m.reg(PROGRAM_COUNTER),
            v_blank,
        );
    }
}

/// A step whose instruction faults changes nothing but registers: the cycles are charged,
/// the mode is privileged, and the program counter is at the fault callback. RAM, stack,
/// disc, frame buffers and ports are as they were.
pub proof fn lemma_fault_step(m: Machine, v_blank: bool)
    requires
        m.wf(),
        spec_fetched(m) is Some,
        spec_effect(m, v_blank) == spec_charged(m).fault(),
    ensures
        m.step(v_blank).1 is None,
        m.step(v_blank).0 == spec_charged(m).set_reg(PROTECTED, 1).set_reg(
            PROGRAM_COUNTER,
            spec_charged(m).reg(FAULT_CALLBACK_ADDR),
        ),
        same_memory(m.step(v_blank).0, m),
        m.step(v_blank).0.reg(PROTECTED) == 1,
{
}

/// The offsets of the three frames are the frames' origins when unprivileged, and zero when
/// privileged.
pub proof fn lemma_offsets(m: Machine)
    requires
        m.wf(),
    ensures
        m.ram_offset() == if m.privileged() {
            0
        } else {
            m.reg(RAM_FRAME_START)
        },
        m.stack_offset() == if m.privileged() {
            0
        } else {
            m.reg(STACK_FRAME_START)
        },
        m.pgc_offset() == if m.privileged() {
            0
        } else {
            m.reg(PROGRAM_START)
        },
{
    let mode = m.reg(PROTECTED);
    lemma_offset(mode, m.reg(RAM_FRAME_START));
    lemma_offset(mode, m.reg(STACK_FRAME_START));
    lemma_offset(mode, m.reg(PROGRAM_START));
}

proof fn lemma_offset(mode: u16, base: u16)
    requires
        mode == 0 || mode == 1,
    ensures
        (1 - mode) * base == if mode == 0 {
            base as int
        } else {
            0
        },
{
    assert((1 - mode) * base == if mode == 0 {
        base as int
    } else {
        0
    }) by (nonlinear_arith)
        requires
            mode == 0 || mode == 1,
    ;
}

/// An unprivileged program sees its frame of RAM as the privileged mode sees RAM from the
/// frame's origin on: no index within the frame's size faults, and the word at an index is
/// the word that privileged code finds at the origin plus the index.
pub proof fn lemma_ram_frame_transparent(m: Machine, a: u16)
    requires
        m.wf(),
        !m.privileged(),
        a < m.reg(RAM_SIZE),
    ensures
        !m.ram_violation(a),
        m.set_reg(PROTECTED, 1).privileged(),
        m.load(a) == m.set_reg(PROTECTED, 1).load(m.reg(RAM_FRAME_START).wrapping_add(a)),
{
    lemma_offsets(m);
    lemma_offsets(m.set_reg(PROTECTED, 1));
}

/// An unprivileged program sees its frame of the stack as the privileged mode sees the
/// stack from the frame's origin on.
pub proof fn lemma_stack_frame_transparent(m: Machine, a: u16)
    requires
        m.wf(),
        !m.privileged(),
        a < m.reg(STACK_SIZE),
    ensures
        !m.stack_violation(a),
        m.set_reg(PROTECTED, 1).privileged(),
        m.peek(a) == m.set_reg(PROTECTED, 1).peek(m.reg(STACK_FRAME_START).wrapping_add(a)),
{
    lemma_offsets(m);
    lemma_offsets(m.set_reg(PROTECTED, 1));
}

proof fn lemma_transfer_keeps_shape(m: Machine, op: Opcode, ops: Seq<Parameter>, pc: u16, v_blank: bool)
    requires
        m.wf(),
    ensures
        m.transfer(op, ops).0.wf(),
{
}

proof fn lemma_block_keeps_shape(m: Machine, op: Opcode, ops: Seq<Parameter>, pc: u16, v_blank: bool)
    requires
        m.wf(),
    ensures
        m.block(op, ops).0.wf(),
{
}

proof fn lemma_control_keeps_shape(m: Machine, op: Opcode, ops: Seq<Parameter>, pc: u16, v_blank: bool)
    requires
        m.wf(),
    ensures
        m.control(op, ops, pc).0.wf(),
{
}

proof fn lemma_video_keeps_shape(m: Machine, op: Opcode, ops: Seq<Parameter>, pc: u16, v_blank: bool)
    requires
        m.wf(),
    ensures
        m.video(op, ops, v_blank).0.wf(),
{
}

proof fn lemma_arithmetic_keeps_shape(m: Machine, op: Opcode, ops: Seq<Parameter>, pc: u16, v_blank: bool)
    requires
        m.wf(),
    ensures
        m.arithmetic(op, ops).0.wf(),
{
}

proof fn lemma_flag_form_keeps_shape(m: Machine, op: Opcode, ops: Seq<Parameter>, pc: u16, v_blank: bool)
    requires
        m.wf(),
    ensures
        m.flag_form(op, ops).0.wf(),
{
}

proof fn lemma_branch_keeps_shape(m: Machine, op: Opcode, ops: Seq<Parameter>, pc: u16, v_blank: bool)
    requires
        m.wf(),
    ensures
        m.branch(op, ops).0.wf(),
{
}

proof fn lemma_stack_form_keeps_shape(m: Machine, op: Opcode, ops: Seq<Parameter>, pc: u16, v_blank: bool)
    requires
        m.wf(),
    ensures
        m.stack_form(op, ops, pc).0.wf(),
{
}

proof fn lemma_disc_form_keeps_shape(m: Machine, op: Opcode, ops: Seq<Parameter>, pc: u16, v_blank: bool)
    requires
        m.wf(),
    ensures
        m.disc_form(op, ops).0.wf(),
{
}

proof fn lemma_port_form_keeps_shape(m: Machine, op: Opcode, ops: Seq<Parameter>, pc: u16, v_blank: bool)
    requires
        m.wf(),
    ensures
        m.port_form(op, ops).0.wf(),
{
}

/// Every instruction keeps the machine in shape: the buffers keep their sizes and the mode
/// register holds 0 or 1.
pub proof fn lemma_execute_keeps_shape(
    m: Machine,
    op: Opcode,
    ops: Seq<Parameter>,
    pc: u16,
    v_blank: bool,
)
    requires
        m.wf(),
    ensures
        m.execute(op, ops, pc, v_blank).0.wf(),
{
    match op.spec_family() {
        Family::Transfer => {
            lemma_transfer_keeps_shape(m, op, ops, pc, v_blank);
        },
        Family::Block => {
            lemma_block_keeps_shape(m, op, ops, pc, v_blank);
        },
        Family::Control => {
            lemma_control_keeps_shape(m, op, ops, pc, v_blank);
        },
        Family::Video => {
            lemma_video_keeps_shape(m, op, ops, pc, v_blank);
        },
        Family::Arithmetic => {
            lemma_arithmetic_keeps_shape(m, op, ops, pc, v_blank);
        },
        Family::Flags => {
            lemma_flag_form_keeps_shape(m, op, ops, pc, v_blank);
        },
        Family::Branch => {
            lemma_branch_keeps_shape(m, op, ops, pc, v_blank);
        },
        Family::Stack => {
            lemma_stack_form_keeps_shape(m, op, ops, pc, v_blank);
        },
        Family::Disc => {
            lemma_disc_form_keeps_shape(m, op, ops, pc, v_blank);
        },
        Family::Port => {
            lemma_port_form_keeps_shape(m, op, ops, pc, v_blank);
        },
    }
}

/// Every step keeps the machine in shape. In particular the mode register never holds
/// anything but 0 and 1.
pub proof fn lemma_step_keeps_shape(m: Machine, v_blank: bool)
    requires
        m.wf(),
    ensures
        m.step(v_blank).0.wf(),
        m.step(v_blank).0.reg(PROTECTED) == 0 || m.step(v_blank).0.reg(PROTECTED) == 1,
{
    if spec_fetched(m) is Some {
        lemma_execute_keeps_shape(
            spec_charged(m),
            spec_fetched(m)->0,
            spec_fetched_operands(m),
            m.reg(PROGRAM_COUNTER),
            v_blank,
        );
    }
}

/// Instructions follow one another three words apart: a step whose instruction neither
/// jumps nor stops, and which is not cut short by the checks on an unprivileged program,
/// leaves the program counter three words on.
pub proof fn lemma_linear_step(m: Machine, v_blank: bool)
    requires
        m.wf(),
        spec_fetched(m) is Some,
        spec_effect(m, v_blank).1 == Flow::Next,
        spec_effect(m, v_blank).0.privileged() || (!spec_effect(m, v_blank).0.leaves_program(
            m.reg(PROGRAM_COUNTER).wrapping_add(3),
        ) && !spec_effect(m, v_blank).0.timed_out()),
    ensures
        m.step(v_blank).1 is None,
        m.step(v_blank).0.reg(PROGRAM_COUNTER) == m.reg(PROGRAM_COUNTER).wrapping_add(3),
{
    lemma_execute_keeps_shape(
        spec_charged(m),
        spec_fetched(m)->0,
        spec_fetched_operands(m),
        m.reg(PROGRAM_COUNTER),
        v_blank,
    );
}

/// The position of the operand that names the register an instruction writes its result
/// to, for the instructions that have one such operand.
pub open spec fn spec_destination(op: Opcode) -> Option<int> {
    match op {
        Opcode::Ldi | Opcode::SaveFlags | Opcode::Pop | Opcode::ReadIn => Some(0),
        Opcode::Mov | Opcode::Get | Opcode::GetPtr | Opcode::GetPtrOffPtr | Opcode::Not
        | Opcode::Index | Opcode::IndexPtr | Opcode::IndexOff | Opcode::IndexOffConst
        | Opcode::Load => Some(1),
        Opcode::GetPtrOff | Opcode::ColorAt | Opcode::ColorPtr | Opcode::LoadPtr | Opcode::Add
        | Opcode::Sub | Opcode::SubRev | Opcode::Mul | Opcode::Div | Opcode::Mod | Opcode::And
        | Opcode::Or | Opcode::Xor | Opcode::Pow | Opcode::Left | Opcode::Right | Opcode::RotLeft
        | Opcode::RotRight | Opcode::AddImm | Opcode::SubImm | Opcode::SubRevImm | Opcode::MulImm
        | Opcode::DivImm | Opcode::ModImm | Opcode::AndImm | Opcode::OrImm | Opcode::XorImm
        | Opcode::PowImm | Opcode::LeftImm | Opcode::RightImm | Opcode::RotLeftImm
        | Opcode::RotRightImm => Some(2),
        _ => None,
    }
}

/// Whether an instruction names the cycle counter as a register to write: as its
/// destination, as one of the two registers of `Swp`, or among the registers that
/// `LodRegisters` reads back from RAM.
pub open spec fn spec_writes_cycles(op: Opcode, ops: Seq<Parameter>) -> bool {
    ||| op == Opcode::LodRegisters
    ||| op == Opcode::Swp && (ops[0].spec_byte() == CYCLES || ops[1].spec_byte() == CYCLES)
    ||| spec_destination(op) is Some && ops[spec_destination(op)->0].spec_byte() == CYCLES
}

proof fn lemma_transfer_keeps_cycles(m: Machine, op: Opcode, ops: Seq<Parameter>, pc: u16, v_blank: bool)
    requires
        m.wf(),
        op.spec_family() == Family::Transfer,
        !spec_writes_cycles(op, ops),
    ensures
        m.transfer(op, ops).0.reg(CYCLES) == m.reg(CYCLES),
{
}

proof fn lemma_block_keeps_cycles(m: Machine, op: Opcode, ops: Seq<Parameter>, pc: u16, v_blank: bool)
    requires
        m.wf(),
        op.spec_family() == Family::Block,
        !spec_writes_cycles(op, ops),
    ensures
        m.block(op, ops).0.reg(CYCLES) == m.reg(CYCLES),
{
}

proof fn lemma_control_keeps_cycles(m: Machine, op: Opcode, ops: Seq<Parameter>, pc: u16, v_blank: bool)
    requires
        m.wf(),
        op.spec_family() == Family::Control,
        !spec_writes_cycles(op, ops),
    ensures
        m.control(op, ops, pc).0.reg(CYCLES) == m.reg(CYCLES),
{
}

proof fn lemma_video_keeps_cycles(m: Machine, op: Opcode, ops: Seq<Parameter>, pc: u16, v_blank: bool)
    requires
        m.wf(),
        op.spec_family() == Family::Video,
        !spec_writes_cycles(op, ops),
    ensures
        m.video(op, ops, v_blank).0.reg(CYCLES) == m.reg(CYCLES),
{
}

proof fn lemma_arithmetic_keeps_cycles(m: Machine, op: Opcode, ops: Seq<Parameter>, pc: u16, v_blank: bool)
    requires
        m.wf(),
        op.spec_family() == Family::Arithmetic,
        !spec_writes_cycles(op, ops),
    ensures
        m.arithmetic(op, ops).0.reg(CYCLES) == m.reg(CYCLES),
{
}

proof fn lemma_flag_form_keeps_cycles(m: Machine, op: Opcode, ops: Seq<Parameter>, pc: u16, v_blank: bool)
    requires
        m.wf(),
        op.spec_family() == Family::Flags,
        !spec_writes_cycles(op, ops),
    ensures
        m.flag_form(op, ops).0.reg(CYCLES) == m.reg(CYCLES),
{
}

proof fn lemma_branch_keeps_cycles(m: Machine, op: Opcode, ops: Seq<Parameter>, pc: u16, v_blank: bool)
    requires
        m.wf(),
        op.spec_family() == Family::Branch,
        !spec_writes_cycles(op, ops),
    ensures
        m.branch(op, ops).0.reg(CYCLES) == m.reg(CYCLES),
{
}

proof fn lemma_stack_form_keeps_cycles(m: Machine, op: Opcode, ops: Seq<Parameter>, pc: u16, v_blank: bool)
    requires
        m.wf(),
        op.spec_family() == Family::Stack,
        !spec_writes_cycles(op, ops),
    ensures
        m.stack_form(op, ops, pc).0.reg(CYCLES) == m.reg(CYCLES),
{
}

proof fn lemma_disc_form_keeps_cycles(m: Machine, op: Opcode, ops: Seq<Parameter>, pc: u16, v_blank: bool)
    requires
        m.wf(),
        op.spec_family() == Family::Disc,
        !spec_writes_cycles(op, ops),
    ensures
        m.disc_form(op, ops).0.reg(CYCLES) == m.reg(CYCLES),
{
}

proof fn lemma_port_form_keeps_cycles(m: Machine, op: Opcode, ops: Seq<Parameter>, pc: u16, v_blank: bool)
    requires
        m.wf(),
        op.spec_family() == Family::Port,
        !spec_writes_cycles(op, ops),
    ensures
        m.port_form(op, ops).0.reg(CYCLES) == m.reg(CYCLES),
{
}

/// An instruction that does not name the cycle counter as a register to write leaves it
/// as it is.
pub proof fn lemma_execute_keeps_cycles(
    m: Machine,
    op: Opcode,
    ops: Seq<Parameter>,
    pc: u16,
    v_blank: bool,
)
    requires
        m.wf(),
        !spec_writes_cycles(op, ops),
    ensures
        m.execute(op, ops, pc, v_blank).0.reg(CYCLES) == m.reg(CYCLES),
{
    match op.spec_family() {
        Family::Transfer => {
            lemma_transfer_keeps_cycles(m, op, ops, pc, v_blank);
        },
        Family::Block => {
            lemma_block_keeps_cycles(m, op, ops, pc, v_blank);
        },
        Family::Control => {
            lemma_control_keeps_cycles(m, op, ops, pc, v_blank);
        },
        Family::Video => {
            lemma_video_keeps_cycles(m, op, ops, pc, v_blank);
        },
        Family::Arithmetic => {
            lemma_arithmetic_keeps_cycles(m, op, ops, pc, v_blank);
        },
        Family::Flags => {
            lemma_flag_form_keeps_cycles(m, op, ops, pc, v_blank);
        },
        Family::Branch => {
            lemma_branch_keeps_cycles(m, op, ops, pc, v_blank);
        },
        Family::Stack => {
            lemma_stack_form_keeps_cycles(m, op, ops, pc, v_blank);
        },
        Family::Disc => {
            lemma_disc_form_keeps_cycles(m, op, ops, pc, v_blank);
        },
        Family::Port => {
            lemma_port_form_keeps_cycles(m, op, ops, pc, v_blank);
        },
    }
}

/// Whether the next step moves the cycle counter on by the cost of its opcode and by
/// nothing else: the counter does not wrap around, and the instruction does not name the
/// counter as a register to write.
pub open spec fn spec_counts_up(m: Machine) -> bool {
    &&& m.reg(CYCLES) + spec_cycle_cost((m.fetch()[0] / 256) as u8) <= 0xffff
    &&& spec_fetched(m) is Some ==> !spec_writes_cycles(
        spec_fetched(m)->0,
        spec_fetched_operands(m),
    )
}

/// A step charges the cost of the opcode byte that it fetches: unless the instruction
/// itself writes the cycle counter, the counter is that much further on, and unless it
/// wraps around, it has not gone down.
pub proof fn lemma_step_counts_up(m: Machine, v_blank: bool)
    requires
        m.wf(),
        spec_fetched(m) is Some ==> !spec_writes_cycles(
            spec_fetched(m)->0,
            spec_fetched_operands(m),
        ),
    ensures
        m.step(v_blank).0.reg(CYCLES) == m.reg(CYCLES).wrapping_add(
            spec_cycle_cost((m.fetch()[0] / 256) as u8),
        ),
        spec_counts_up(m) ==> m.step(v_blank).0.reg(CYCLES) >= m.reg(CYCLES),
{
    if spec_fetched(m) is Some {
        lemma_execute_keeps_cycles(
            spec_charged(m),
            spec_fetched(m)->0,
            spec_fetched_operands(m),
            m.reg(PROGRAM_COUNTER),
            v_blank,
        );
        lemma_execute_keeps_shape(
            spec_charged(m),
            spec_fetched(m)->0,
            spec_fetched_operands(m),
            m.reg(PROGRAM_COUNTER),
            v_blank,
        );
    }
}

/// Whether each of the next `steps` steps of a run moves the cycle counter on by the cost
/// of its opcode and by nothing else.
pub open spec fn spec_run_counts_up(m: Machine, steps: nat) -> bool
    decreases steps,
{
    steps == 0 || (spec_counts_up(m) && (m.step(false).1 is Some || spec_run_counts_up(
        m.step(false).0,
        (steps - 1) as nat,
    )))
}

/// The cycle counter never goes down over a run in which it neither wraps around nor is
/// written by an instruction.
pub proof fn lemma_cycles_never_go_down(m: Machine, steps: nat)
    requires
        m.wf(),
        spec_run_counts_up(m, steps),
    ensures
        m.run(steps).0.reg(CYCLES) >= m.reg(CYCLES),
    decreases steps,
{
    if steps > 0 {
        lemma_step_counts_up(m, false);
        lemma_step_keeps_shape(m, false);
        if m.step(false).1 is None {
            lemma_cycles_never_go_down(m.step(false).0, (steps - 1) as nat);
        }
    }
}

/// The instructions that only privileged code may execute.
pub open spec fn spec_is_privileged_only(op: Opcode) -> bool {
    match op.spec_family() {
        Family::Control => op != Opcode::Int,
        Family::Video | Family::Disc | Family::Port => true,
        _ => false,
    }
}

/// Whether an instruction names a word of RAM or of the stack that lies outside the frame
/// of the running program. For a span of RAM that is its end, for a single word its index.
pub open spec fn spec_reaches_outside(m: Machine, op: Opcode, ops: Seq<Parameter>) -> bool {
    let first = m.reg(ops[0].spec_byte());
    match op {
        Opcode::LdiR | Opcode::Sto | Opcode::Get => m.ram_violation(ops[0].spec_word()),
        Opcode::LdiPtr | Opcode::StoPtr | Opcode::GetPtr => m.ram_violation(first),
        Opcode::StoPtrOff | Opcode::GetPtrOff => m.ram_violation(
            first.wrapping_add(ops[1].spec_word()),
        ),
        Opcode::StoPtrOffPtr | Opcode::GetPtrOffPtr => m.ram_violation(
            first.wrapping_add(m.reg(ops[2].spec_byte())),
        ),
        Opcode::MovR => m.ram_violation(ops[0].spec_word()) || m.ram_violation(ops[1].spec_word()),
        Opcode::MemCpy | Opcode::MemCompare => m.ram_span_violation(
            ops[0].spec_word(),
            ops[2].spec_byte() as int,
        ) || m.ram_span_violation(ops[1].spec_word(), ops[2].spec_byte() as int),
        Opcode::MemCpyPtr | Opcode::MemComparePtr => m.ram_span_violation(
            first,
            m.reg(ops[2].spec_byte()) as int,
        ) || m.ram_span_violation(m.reg(ops[1].spec_byte()), m.reg(ops[2].spec_byte()) as int),
        Opcode::MemFill => m.ram_span_violation(first, ops[1].spec_word() as int),
        Opcode::Psh | Opcode::PshCon | Opcode::Pop | Opcode::Call | Opcode::Ret
        | Opcode::RetConst => m.stack_violation(m.top()),
        Opcode::PshPtr => m.ram_violation(first) || m.stack_violation(m.top()),
        Opcode::Index | Opcode::Edit => m.stack_violation(ops[0].spec_word()),
        Opcode::IndexPtr | Opcode::EditPtr | Opcode::RetFramed => m.stack_violation(first),
        Opcode::IndexOff => m.stack_violation(m.top().wrapping_sub(first)),
        Opcode::IndexOffConst => m.stack_violation(m.top().wrapping_sub(ops[0].spec_word())),
        _ => false,
    }
}

proof fn lemma_transfer_faults(m: Machine, op: Opcode, ops: Seq<Parameter>, pc: u16, v_blank: bool)
    requires
        m.wf(),
        !m.privileged(),
        op.spec_family() == Family::Transfer,
        spec_is_privileged_only(op) || spec_reaches_outside(m, op, ops),
    ensures
        m.transfer(op, ops) == m.fault(),
{
}

proof fn lemma_block_faults(m: Machine, op: Opcode, ops: Seq<Parameter>, pc: u16, v_blank: bool)
    requires
        m.wf(),
        !m.privileged(),
        op.spec_family() == Family::Block,
        spec_is_privileged_only(op) || spec_reaches_outside(m, op, ops),
    ensures
        m.block(op, ops) == m.fault(),
{
}

proof fn lemma_control_faults(m: Machine, op: Opcode, ops: Seq<Parameter>, pc: u16, v_blank: bool)
    requires
        m.wf(),
        !m.privileged(),
        op.spec_family() == Family::Control,
        spec_is_privileged_only(op) || spec_reaches_outside(m, op, ops),
    ensures
        m.control(op, ops, pc) == m.fault(),
{
}

proof fn lemma_video_faults(m: Machine, op: Opcode, ops: Seq<Parameter>, pc: u16, v_blank: bool)
    requires
        m.wf(),
        !m.privileged(),
        op.spec_family() == Family::Video,
        spec_is_privileged_only(op) || spec_reaches_outside(m, op, ops),
    ensures
        m.video(op, ops, v_blank) == m.fault(),
{
}

proof fn lemma_arithmetic_faults(m: Machine, op: Opcode, ops: Seq<Parameter>, pc: u16, v_blank: bool)
    requires
        m.wf(),
        !m.privileged(),
        op.spec_family() == Family::Arithmetic,
        spec_is_privileged_only(op) || spec_reaches_outside(m, op, ops),
    ensures
        m.arithmetic(op, ops) == m.fault(),
{
}

proof fn lemma_flag_form_faults(m: Machine, op: Opcode, ops: Seq<Parameter>, pc: u16, v_blank: bool)
    requires
        m.wf(),
        !m.privileged(),
        op.spec_family() == Family::Flags,
        spec_is_privileged_only(op) || spec_reaches_outside(m, op, ops),
    ensures
        m.flag_form(op, ops) == m.fault(),
{
}

proof fn lemma_branch_faults(m: Machine, op: Opcode, ops: Seq<Parameter>, pc: u16, v_blank: bool)
    requires
        m.wf(),
        !m.privileged(),
        op.spec_family() == Family::Branch,
        spec_is_privileged_only(op) || spec_reaches_outside(m, op, ops),
    ensures
        m.branch(op, ops) == m.fault(),
{
}

proof fn lemma_stack_form_faults(m: Machine, op: Opcode, ops: Seq<Parameter>, pc: u16, v_blank: bool)
    requires
        m.wf(),
        !m.privileged(),
        op.spec_family() == Family::Stack,
        spec_is_privileged_only(op) || spec_reaches_outside(m, op, ops),
    ensures
        m.stack_form(op, ops, pc) == m.fault(),
{
}

proof fn lemma_disc_form_faults(m: Machine, op: Opcode, ops: Seq<Parameter>, pc: u16, v_blank: bool)
    requires
        m.wf(),
        !m.privileged(),
        op.spec_family() == Family::Disc,
        spec_is_privileged_only(op) || spec_reaches_outside(m, op, ops),
    ensures
        m.disc_form(op, ops) == m.fault(),
{
}

proof fn lemma_port_form_faults(m: Machine, op: Opcode, ops: Seq<Parameter>, pc: u16, v_blank: bool)
    requires
        m.wf(),
        !m.privileged(),
        op.spec_family() == Family::Port,
        spec_is_privileged_only(op) || spec_reaches_outside(m, op, ops),
    ensures
        m.port_form(op, ops) == m.fault(),
{
}

/// An unprivileged program that executes an instruction for privileged code, or that
/// reaches outside its frames, faults: the instruction does nothing but enter privileged
/// mode and go on at the fault callback. The word it aimed at is as it was.
pub proof fn lemma_violation_faults(
    m: Machine,
    op: Opcode,
    ops: Seq<Parameter>,
    pc: u16,
    v_blank: bool,
)
    requires
        m.wf(),
        !m.privileged(),
        spec_is_privileged_only(op) || spec_reaches_outside(m, op, ops),
    ensures
        m.execute(op, ops, pc, v_blank) == m.fault(),
        m.execute(op, ops, pc, v_blank).0 == m.set_reg(PROTECTED, 1),
        m.execute(op, ops, pc, v_blank).1 == Flow::Jump(m.reg(FAULT_CALLBACK_ADDR)),
        same_memory(m.execute(op, ops, pc, v_blank).0, m),
{
    match op.spec_family() {
        Family::Transfer => {
            lemma_transfer_faults(m, op, ops, pc, v_blank);
        },
        Family::Block => {
            lemma_block_faults(m, op, ops, pc, v_blank);
        },
        Family::Control => {
            lemma_control_faults(m, op, ops, pc, v_blank);
        },
        Family::Video => {
            lemma_video_faults(m, op, ops, pc, v_blank);
        },
        Family::Arithmetic => {
            lemma_arithmetic_faults(m, op, ops, pc, v_blank);
        },
        Family::Flags => {
            lemma_flag_form_faults(m, op, ops, pc, v_blank);
        },
        Family::Branch => {
            lemma_branch_faults(m, op, ops, pc, v_blank);
        },
        Family::Stack => {
            lemma_stack_form_faults(m, op, ops, pc, v_blank);
        },
        Family::Disc => {
            lemma_disc_form_faults(m, op, ops, pc, v_blank);
        },
        Family::Port => {
            lemma_port_form_faults(m, op, ops, pc, v_blank);
        },
    }
}

/// The step of an unprivileged program that reaches outside its frames, or that executes an
/// instruction for privileged code, ends in privileged mode at the fault callback, with
/// RAM and the stack as they were.
pub proof fn lemma_violation_step(m: Machine, v_blank: bool)
    requires
        m.wf(),
        !m.privileged(),
        spec_fetched(m) is Some,
        spec_is_privileged_only(spec_fetched(m)->0) || spec_reaches_outside(
            spec_charged(m),
            spec_fetched(m)->0,
            spec_fetched_operands(m),
        ),
    ensures
        m.step(v_blank).1 is None,
        m.step(v_blank).0.reg(PROGRAM_COUNTER) == m.reg(FAULT_CALLBACK_ADDR),
        m.step(v_blank).0.reg(PROTECTED) == 1,
        same_memory(m.step(v_blank).0, m),
{
    lemma_violation_faults(
        spec_charged(m),
        spec_fetched(m)->0,
        spec_fetched_operands(m),
        m.reg(PROGRAM_COUNTER),
        v_blank,
    );
    lemma_fault_step(m, v_blank);
}


/// The machine executes what the emitter wrote: where the slot at the program counter is
/// the encoded form of an instruction with operands that fit its slots, the next step
/// executes that instruction on those operands.
pub proof fn lemma_fetch_what_was_emitted(m: Machine, op: Opcode, operands: Seq<Parameter>)
    requires
        spec_operands_fit(op, operands),
        spec_encode(op, operands) == Ok::<Seq<u16>, int>(m.fetch()),
    ensures
        spec_fetched(m) == Some(op),
        spec_fetched_operands(m) == operands,
{
    lemma_encode_decode_round_trip(op, operands);
}

/// Swapping the frame buffers twice shows the first one again.
pub proof fn lemma_swap_twice(m: Machine)
    requires
        m.wf(),
    ensures
        m.swap_frame_buffers().frame_buffer_ptr == FRAME_WORDS - m.frame_buffer_ptr,
        m.swap_frame_buffers().swap_frame_buffers() == m,
{
}

/// A call and the return from it cancel out: where neither faults, `Ret` goes on at the
/// slot behind the `Call`, the stack pointer is where it was, and no other register has
/// changed.
pub proof fn lemma_call_then_ret(m: Machine, target: u16, pc: u16, pc_of_ret: u16)
    requires
        m.wf(),
        !m.stack_violation(m.top()),
        !m.stack_violation(m.top().wrapping_add(1)),
    ensures
        ({
            let called = m.stack_form(Opcode::Call, seq![Parameter::Address(target as u32)], pc);
            let returned = called.0.stack_form(Opcode::Ret, Seq::empty(), pc_of_ret);
            &&& called.1 == Flow::Jump(m.jump_address(target))
            &&& returned.1 == Flow::Jump(pc.wrapping_add(3))
            &&& returned.0.registers == m.registers
        }),
{
    let called = m.stack_form(Opcode::Call, seq![Parameter::Address(target as u32)], pc);
    let returned = called.0.stack_form(Opcode::Ret, Seq::empty(), pc_of_ret);
    lemma_offsets(m);
    lemma_offsets(called.0);
    assert(called.0.top() == m.top().wrapping_add(1));
    assert(called.0.top().wrapping_sub(1) == m.top());
    assert(returned.0.registers =~= m.registers);
}

/// An unprivileged program whose time is up is preempted: where more cycles have passed
/// since it was entered than the timeout allows, the step ends in privileged mode at the
/// timeout callback, whatever the instruction was, unless it faulted or stopped the machine.
pub proof fn lemma_timeout_vectors(m: Machine, flow: Flow, pc: u16)
    requires
        m.wf(),
        !m.privileged(),
        !(flow is Stop),
        !m.leaves_program(
            match flow {
                Flow::Jump(target) => target,
                _ => pc.wrapping_add(3),
            },
        ),
        m.reg(CYCLES).wrapping_sub(m.held_cycle_count) > m.reg(TIMEOUT_DURATION),
    ensures
        m.finish(flow, pc).1 is None,
        m.finish(flow, pc).0.reg(PROGRAM_COUNTER) == m.reg(TIMEOUT_CALLBACK_ADDR),
        m.finish(flow, pc).0.reg(PROTECTED) == 1,
        m.finish(flow, pc).0.held_cycle_count == m.held_cycle_count,
{
}

} // verus!
