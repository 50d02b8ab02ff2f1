use crate::isa::Opcode;
use std::collections::HashMap;
use vstd::prelude::*;

verus! {

/// Index of the program counter among the registers.
pub const PROGRAM_COUNTER: u8 = 27;

/// Index of the register that holds the origin of the running program's RAM frame.
pub const RAM_FRAME_START: u8 = 28;

/// Index of the register that holds the origin of the running program's stack frame.
pub const STACK_FRAME_START: u8 = 29;

/// Index of the register that holds the cycles a program may run before it is preempted.
pub const TIMEOUT_DURATION: u8 = 30;

/// Index of the register that holds the address entered on a timeout.
pub const TIMEOUT_CALLBACK_ADDR: u8 = 31;

/// Index of the register that holds the address entered on an interrupt.
pub const INTERRUPT_CALLBACK_ADDR: u8 = 32;

/// Index of the register that holds the origin of the running program's code.
pub const PROGRAM_START: u8 = 33;

/// Index of the register that holds the size of the running program's code.
pub const PROGRAM_SIZE: u8 = 34;

/// Index of the register that holds the size of the running program's RAM frame.
pub const RAM_SIZE: u8 = 35;

/// Index of the register that holds the size of the running program's stack frame.
pub const STACK_SIZE: u8 = 36;

/// Index of the register that holds the mode: 1 when privileged, 0 when not.
pub const PROTECTED: u8 = 37;

/// Index of the register that counts cycles.
pub const CYCLES: u8 = 38;

/// Index of the register that points behind the top of the stack.
pub const STACK_TOP_PTR: u8 = 39;

/// Index of the register that holds the address entered on a fault.
pub const FAULT_CALLBACK_ADDR: u8 = 40;

/// Index of the register that holds the address at which an interrupted program goes on.
pub const INTERRUPTED_LINE: u8 = 41;

/// Index of the condition flag.
pub const CONDITION_FLAG: u8 = 42;

/// Index of the zero flag.
pub const ZERO_FLAG: u8 = 43;

/// Index of the overflow flag.
pub const OVERFLOW_FLAG: u8 = 44;

/// Index of the fault flag.
pub const FAULT_FLAG: u8 = 45;

/// Number of registers.
pub const REGISTERS: usize = 256;

/// Number of words of RAM, and of the stack.
pub const MEMORY_WORDS: usize = 0x1_0000;

/// Number of pixels in a row of the display.
pub const SCREEN_WIDTH: usize = 480;

/// Number of rows of the display.
pub const SCREEN_HEIGHT: usize = 320;

/// Number of words in one of the two frame buffers.
pub const FRAME_WORDS: usize = 153600;

/// Number of input ports, and of output ports.
pub const PORTS: usize = 256;

/// The cycles charged for fetching an opcode byte: the cost of the instruction it selects,
/// or 1 where it selects none.
pub open spec fn spec_cycle_cost(opcode: u8) -> u16 {
    match Opcode::spec_from_code(opcode) {
        Some(op) => op.spec_cycle_cost(),
        None => 1,
    }
}

/// The cycle costs of all 256 opcode bytes, as a table.
pub fn cycle_cost_table() -> (table: Vec<u16>)
    ensures
        table@.len() == 256,
        forall|b: u8| #[trigger] table@[b as int] == spec_cycle_cost(b),
{
    let mut table: Vec<u16> = Vec::new();
    let mut code: u16 = 0;
    while code < 256
        invariant
            code <= 256,
            table@.len() == code,
            forall|b: u8| b < code ==> #[trigger] table@[b as int] == spec_cycle_cost(b),
        decreases 256 - code,
    {
        let cost = match Opcode::from_code(code as u8) {
            Some(op) => op.cycle_cost(),
            None => 1,
        };
        table.push(cost);
        code += 1;
    }
    table
}

/// Why the machine stopped.
#[derive(Clone, Copy, Debug, PartialEq, Eq, Structural)]
pub enum Halt {
    /// `Kill` was executed in privileged mode.
    Kill,
    /// The opcode byte at the program counter names no instruction.
    UnknownOpcode,
    /// An unprivileged program was about to leave its code.
    ProgramBounds,
}

/// Where execution goes on after an instruction.
#[derive(Clone, Copy, Debug, PartialEq, Eq, Structural)]
pub enum Flow {
    /// At the next slot.
    Next,
    /// At an address.
    Jump(u16),
    /// Nowhere: the machine stops.
    Stop(Halt),
}

/// The state of the machine.
pub struct Machine {
    /// The 256 registers.
    pub registers: Seq<u16>,
    /// The 65536 words of RAM.
    pub ram: Seq<u16>,
    /// The 65536 words of the stack.
    pub stack: Seq<u16>,
    /// The words of the disc that were written; every other word of the disc is zero.
    pub disc: Map<u32, u16>,
    /// The two frame buffers, one behind the other.
    pub v_ram: Seq<u16>,
    /// Where the frame buffer that is shown starts: 0 or 153600.
    pub frame_buffer_ptr: usize,
    /// The input ports: a value and a flag each.
    pub io_in_ports: Seq<(u16, bool)>,
    /// The output ports: a value and a flag each.
    pub io_out_ports: Seq<(u16, bool)>,
    /// The cycle count at which the running program was entered.
    pub held_cycle_count: u16,
    /// For each word of RAM, the tag of the source line that it came from.
    pub trace_ram: Seq<usize>,
    /// For the words of the disc that came from a source line, the tag of that line; every
    /// other word of the disc has the tag zero.
    pub trace_disc: Map<u32, usize>,
}

impl Machine {
    /// The shape that every state of the machine has.
    pub open spec fn wf(self) -> bool {
        &&& self.registers.len() == REGISTERS
        &&& self.ram.len() == MEMORY_WORDS
        &&& self.stack.len() == MEMORY_WORDS
        &&& self.v_ram.len() == 2 * FRAME_WORDS
        &&& (self.frame_buffer_ptr == 0 || self.frame_buffer_ptr == FRAME_WORDS)
        &&& self.io_in_ports.len() == PORTS
        &&& self.io_out_ports.len() == PORTS
        &&& self.registers[PROTECTED as int] <= 1
        &&& self.trace_ram.len() == MEMORY_WORDS
    }

    /// The value of a register.
    pub open spec fn reg(self, r: u8) -> u16 {
        self.registers[r as int]
    }

    /// The state with a register set. The mode register keeps to 0 and 1: any other value
    /// is stored as 1.
    pub open spec fn set_reg(self, r: u8, v: u16) -> Machine {
        Machine {
            registers: self.registers.update(
                r as int,
                if r == PROTECTED && v > 1 {
                    1
                } else {
                    v
                },
            ),
            ..self
        }
    }

    /// Whether the machine runs in privileged mode.
    pub open spec fn privileged(self) -> bool {
        self.reg(PROTECTED) != 0
    }

    /// What is added to a RAM address: the origin of the RAM frame when unprivileged, else
    /// nothing.
    pub open spec fn ram_offset(self) -> u16 {
        ((1 - self.reg(PROTECTED)) * self.reg(RAM_FRAME_START)) as u16
    }

    /// What is added to a stack address: the origin of the stack frame when unprivileged,
    /// else nothing.
    pub open spec fn stack_offset(self) -> u16 {
        ((1 - self.reg(PROTECTED)) * self.reg(STACK_FRAME_START)) as u16
    }

    /// What is added to a jump target: the origin of the program when unprivileged, else
    /// nothing.
    pub open spec fn pgc_offset(self) -> u16 {
        ((1 - self.reg(PROTECTED)) * self.reg(PROGRAM_START)) as u16
    }

    /// The state after a fault, and where execution goes on: the mode is privileged and
    /// the fault callback is entered. Nothing else changes.
    pub open spec fn fault(self) -> (Machine, Flow) {
        (self.set_reg(PROTECTED, 1), Flow::Jump(self.reg(FAULT_CALLBACK_ADDR)))
    }

    /// The word of the disc at an address.
    pub open spec fn disc_word(self, addr: u32) -> u16 {
        if self.disc.contains_key(addr) {
            self.disc[addr]
        } else {
            0
        }
    }

    /// The state with a word of the disc written.
    pub open spec fn set_disc_word(self, addr: u32, v: u16) -> Machine {
        Machine { disc: self.disc.insert(addr, v), ..self }
    }

    /// The tag of the source line that the word of the disc at an address came from.
    pub open spec fn disc_line(self, addr: u32) -> usize {
        if self.trace_disc.contains_key(addr) {
            self.trace_disc[addr]
        } else {
            0
        }
    }

    /// The state with the tag of a word of the disc set.
    pub open spec fn set_disc_line(self, addr: u32, line: usize) -> Machine {
        Machine { trace_disc: self.trace_disc.insert(addr, line), ..self }
    }

    /// The tag of the source line that the word of RAM at an absolute address came from.
    pub open spec fn ram_line(self, i: u16) -> usize {
        self.trace_ram[i as int]
    }

    /// The state with the tag of a word of RAM set.
    pub open spec fn set_ram_line(self, i: u16, line: usize) -> Machine {
        Machine { trace_ram: self.trace_ram.update(i as int, line), ..self }
    }

    /// The word of RAM at an absolute address.
    pub open spec fn ram_word(self, i: u16) -> u16 {
        self.ram[i as int]
    }

    /// The state with the word of RAM at an absolute address written.
    pub open spec fn set_ram_word(self, i: u16, v: u16) -> Machine {
        Machine { ram: self.ram.update(i as int, v), ..self }
    }

    /// The word of the stack at an absolute address.
    pub open spec fn stack_word(self, i: u16) -> u16 {
        self.stack[i as int]
    }

    /// The state with the word of the stack at an absolute address written.
    pub open spec fn set_stack_word(self, i: u16, v: u16) -> Machine {
        Machine { stack: self.stack.update(i as int, v), ..self }
    }

    /// The state with a word of the frame buffers written.
    pub open spec fn set_v_ram_word(self, i: int, v: u16) -> Machine {
        Machine { v_ram: self.v_ram.update(i, v), ..self }
    }

    /// Where the frame buffer that is drawn to starts: the one that is not shown.
    pub open spec fn dead_zone(self) -> int {
        FRAME_WORDS - self.frame_buffer_ptr
    }

    /// The state with the two frame buffers swapped.
    pub open spec fn swap_frame_buffers(self) -> Machine {
        Machine { frame_buffer_ptr: (FRAME_WORDS - self.frame_buffer_ptr) as usize, ..self }
    }

    /// The state with an input port set.
    pub open spec fn set_in_port(self, port: u8, value: u16, flag: bool) -> Machine {
        Machine { io_in_ports: self.io_in_ports.update(port as int, (value, flag)), ..self }
    }

    /// The state with all input ports set at once. A list that is not as long as there are
    /// ports changes nothing.
    pub open spec fn receive(self, ports: Seq<(u16, bool)>) -> Machine {
        if ports.len() == PORTS {
            Machine { io_in_ports: ports, ..self }
        } else {
            self
        }
    }

    /// The state with an output port set.
    pub open spec fn set_out_port(self, port: u8, value: u16, flag: bool) -> Machine {
        Machine { io_out_ports: self.io_out_ports.update(port as int, (value, flag)), ..self }
    }

    /// The state with the cycle count of the last entry into a program set.
    pub open spec fn set_held_cycle_count(self, v: u16) -> Machine {
        Machine { held_cycle_count: v, ..self }
    }
}

/// The emulator: the machine's state, held in buffers.
pub struct Emulator {
    v_ram: Vec<u16>,
    disc: HashMap<u32, u16>,
    ram: Vec<u16>,
    registers: Vec<u16>,
    stack: Vec<u16>,
    io_in_ports: Vec<(u16, bool)>,
    io_out_ports: Vec<(u16, bool)>,
    frame_buffer_ptr: usize,
    held_cycle_count: u16,
    trace_ram: Vec<usize>,
    trace_disc: HashMap<u32, usize>,
    cycle_costs: Vec<u16>,
}

impl View for Emulator {
    type V = Machine;

    closed spec fn view(&self) -> Machine {
        Machine {
            registers: self.registers@,
            ram: self.ram@,
            stack: self.stack@,
            disc: self.disc@,
            v_ram: self.v_ram@,
            frame_buffer_ptr: self.frame_buffer_ptr,
            io_in_ports: self.io_in_ports@,
            io_out_ports: self.io_out_ports@,
            held_cycle_count: self.held_cycle_count,
            trace_ram: self.trace_ram@,
            trace_disc: self.trace_disc@,
        }
    }
}

/// A buffer of `n` copies of a value.
fn filled<T: Copy>(value: T, n: usize) -> (v: Vec<T>)
    ensures
        v@ == Seq::new(n as nat, |i: int| value),
{
    let mut v: Vec<T> = Vec::new();
    let mut i: usize = 0;
    while i < n
        invariant
            i <= n,
            v@ == Seq::new(i as nat, |j: int| value),
        decreases n - i,
    {
        v.push(value);
        assert(v@ =~= Seq::new((i + 1) as nat, |j: int| value));
        i += 1;
    }
    v
}

impl Emulator {
    /// Whether the table of cycle costs is loaded.
    pub closed spec fn costs_loaded(&self) -> bool {
        &&& self.cycle_costs@.len() == 256
        &&& forall|b: u8| #[trigger] self.cycle_costs@[b as int] == spec_cycle_cost(b)
    }

    /// Whether the emulator holds a state of the machine and its table of cycle costs.
    pub open spec fn wf(&self) -> bool {
        self@.wf() && self.costs_loaded()
    }

    /// The state of a machine that was just switched on.
    pub open spec fn spec_new() -> Machine {
        Machine {
            registers: Seq::new(REGISTERS as nat, |i: int| 0u16),
            ram: Seq::new(MEMORY_WORDS as nat, |i: int| 0u16),
            stack: Seq::new(MEMORY_WORDS as nat, |i: int| 0u16),
            disc: Map::empty(),
            v_ram: Seq::new((2 * FRAME_WORDS) as nat, |i: int| 0xc174u16),
            frame_buffer_ptr: 0,
            io_in_ports: Seq::new(PORTS as nat, |i: int| (0u16, false)),
            io_out_ports: Seq::new(PORTS as nat, |i: int| (0u16, false)),
            held_cycle_count: 0,
            trace_ram: Seq::new(MEMORY_WORDS as nat, |i: int| 0usize),
            trace_disc: Map::empty(),
        }
    }

    /// A machine that was just switched on: registers, RAM, stack and disc are zero, both
    /// frame buffers hold the background colour, the first is shown, no port holds
    /// anything, and no word has a source line.
    pub fn new() -> (emulator: Emulator)
        ensures
            emulator@ == Emulator::spec_new(),
            emulator.wf(),
    {
        broadcast use vstd::std_specs::hash::group_hash_axioms;

        Emulator {
            v_ram: filled(0xc174u16, 2 * FRAME_WORDS),
            disc: HashMap::new(),
            ram: filled(0u16, MEMORY_WORDS),
            registers: filled(0u16, REGISTERS),
            stack: filled(0u16, MEMORY_WORDS),
            io_in_ports: filled((0u16, false), PORTS),
            io_out_ports: filled((0u16, false), PORTS),
            frame_buffer_ptr: 0,
            held_cycle_count: 0,
            trace_ram: filled(0usize, MEMORY_WORDS),
            trace_disc: HashMap::new(),
            cycle_costs: cycle_cost_table(),
        }
    }

    /// The cycles charged for fetching an opcode byte, from the table.
    pub fn cycle_cost(&self, opcode: u8) -> (cost: u16)
        requires
            self.wf(),
        ensures
            cost == spec_cycle_cost(opcode),
    {
        self.cycle_costs[opcode as usize]
    }

    /// Reads a register.
    pub fn reg(&self, r: u8) -> (v: u16)
        requires
            self.wf(),
        ensures
            v == self@.reg(r),
    {
        self.registers[r as usize]
    }

    /// Writes a register.
    pub fn set_reg(&mut self, r: u8, v: u16)
        requires
            old(self).wf(),
        ensures
            final(self)@ == old(self)@.set_reg(r, v),
            final(self).wf(),
    {
        let stored = if r == PROTECTED && v > 1 {
            1
        } else {
            v
        };
        self.registers.set(r as usize, stored);
    }

    /// Reads the word of RAM at an absolute address.
    pub fn ram_word(&self, i: u16) -> (v: u16)
        requires
            self.wf(),
        ensures
            v == self@.ram_word(i),
    {
        self.ram[i as usize]
    }

    /// Writes the word of RAM at an absolute address.
    pub fn set_ram_word(&mut self, i: u16, v: u16)
        requires
            old(self).wf(),
        ensures
            final(self)@ == old(self)@.set_ram_word(i, v),
            final(self).wf(),
    {
        self.ram.set(i as usize, v);
    }

    /// Reads the word of the stack at an absolute address.
    pub fn stack_word(&self, i: u16) -> (v: u16)
        requires
            self.wf(),
        ensures
            v == self@.stack_word(i),
    {
        self.stack[i as usize]
    }

    /// Writes the word of the stack at an absolute address.
    pub fn set_stack_word(&mut self, i: u16, v: u16)
        requires
            old(self).wf(),
        ensures
            final(self)@ == old(self)@.set_stack_word(i, v),
            final(self).wf(),
    {
        self.stack.set(i as usize, v);
    }

    /// Reads a word of the disc.
    pub fn disc_word(&self, addr: u32) -> (v: u16)
        requires
            self.wf(),
        ensures
            v == self@.disc_word(addr),
    {
        broadcast use vstd::std_specs::hash::group_hash_axioms;

        match self.disc.get(&addr) {
            Some(v) => *v,
            None => 0,
        }
    }

    /// Writes a word of the disc.
    pub fn set_disc_word(&mut self, addr: u32, v: u16)
        requires
            old(self).wf(),
        ensures
            final(self)@ == old(self)@.set_disc_word(addr, v),
            final(self).wf(),
    {
        broadcast use vstd::std_specs::hash::group_hash_axioms;

        self.disc.insert(addr, v);
    }

    /// The tag of the source line that a word of the disc came from.
    pub fn disc_line(&self, addr: u32) -> (line: usize)
        requires
            self.wf(),
        ensures
            line == self@.disc_line(addr),
    {
        broadcast use vstd::std_specs::hash::group_hash_axioms;

        match self.trace_disc.get(&addr) {
            Some(line) => *line,
            None => 0,
        }
    }

    /// Sets the tag of a word of the disc.
    pub fn set_disc_line(&mut self, addr: u32, line: usize)
        requires
            old(self).wf(),
        ensures
            final(self)@ == old(self)@.set_disc_line(addr, line),
            final(self).wf(),
    {
        broadcast use vstd::std_specs::hash::group_hash_axioms;

        self.trace_disc.insert(addr, line);
    }

    /// The tag of the source line that a word of RAM came from.
    pub fn ram_line(&self, i: u16) -> (line: usize)
        requires
            self.wf(),
        ensures
            line == self@.ram_line(i),
    {
        self.trace_ram[i as usize]
    }

    /// Sets the tag of a word of RAM.
    pub fn set_ram_line(&mut self, i: u16, line: usize)
        requires
            old(self).wf(),
        ensures
            final(self)@ == old(self)@.set_ram_line(i, line),
            final(self).wf(),
    {
        self.trace_ram.set(i as usize, line);
    }

    /// Reads a word of the frame buffers.
    pub fn v_ram_word(&self, i: usize) -> (v: u16)
        requires
            self.wf(),
            i < 2 * FRAME_WORDS,
        ensures
            v == self@.v_ram[i as int],
    {
        self.v_ram[i]
    }

    /// Writes a word of the frame buffers.
    pub fn set_v_ram_word(&mut self, i: usize, v: u16)
        requires
            old(self).wf(),
            i < 2 * FRAME_WORDS,
        ensures
            final(self)@ == old(self)@.set_v_ram_word(i as int, v),
            final(self).wf(),
    {
        self.v_ram.set(i, v);
    }

    /// Where the frame buffer that is shown starts.
    pub fn frame_buffer_ptr(&self) -> (p: usize)
        requires
            self.wf(),
        ensures
            p == self@.frame_buffer_ptr,
            p == 0 || p == FRAME_WORDS,
    {
        self.frame_buffer_ptr
    }

    /// Swaps the two frame buffers.
    pub fn swap_frame_buffers(&mut self)
        requires
            old(self).wf(),
        ensures
            final(self)@ == old(self)@.swap_frame_buffers(),
            final(self).wf(),
    {
        self.frame_buffer_ptr = FRAME_WORDS - self.frame_buffer_ptr;
    }

    /// Reads an input port.
    pub fn in_port(&self, port: u8) -> (p: (u16, bool))
        requires
            self.wf(),
        ensures
            p == self@.io_in_ports[port as int],
    {
        self.io_in_ports[port as usize]
    }

    /// Sets an input port, as the source of input does.
    pub fn set_in_port(&mut self, port: u8, value: u16, flag: bool)
        requires
            old(self).wf(),
        ensures
            final(self)@ == old(self)@.set_in_port(port, value, flag),
            final(self).wf(),
    {
        self.io_in_ports.set(port as usize, (value, flag));
    }

    /// Sets all input ports at once, as the source of input left them.
    pub fn receive(&mut self, ports: Vec<(u16, bool)>)
        requires
            old(self).wf(),
        ensures
            final(self)@ == old(self)@.receive(ports@),
            final(self).wf(),
    {
        if ports.len() == PORTS {
            self.io_in_ports = ports;
        }
    }

    /// The frame buffers, the one that is shown and the one that is drawn to.
    pub fn frame(&self) -> (v: &Vec<u16>)
        requires
            self.wf(),
        ensures
            v@ == self@.v_ram,
    {
        &self.v_ram
    }

    /// Reads an output port.
    pub fn out_port(&self, port: u8) -> (p: (u16, bool))
        requires
            self.wf(),
        ensures
            p == self@.io_out_ports[port as int],
    {
        self.io_out_ports[port as usize]
    }

    /// Sets an output port.
    pub fn set_out_port(&mut self, port: u8, value: u16, flag: bool)
        requires
            old(self).wf(),
        ensures
            final(self)@ == old(self)@.set_out_port(port, value, flag),
            final(self).wf(),
    {
        self.io_out_ports.set(port as usize, (value, flag));
    }

    /// The cycle count at which the running program was entered.
    pub fn held_cycle_count(&self) -> (v: u16)
        ensures
            v == self@.held_cycle_count,
    {
        self.held_cycle_count
    }

    /// Sets the cycle count of the last entry into a program.
    pub fn set_held_cycle_count(&mut self, v: u16)
        requires
            old(self).wf(),
        ensures
            final(self)@ == old(self)@.set_held_cycle_count(v),
            final(self).wf(),
    {
        self.held_cycle_count = v;
    }
}

} // verus!
