use crate::assembler::Parameter;
use crate::isa::Opcode;
use crate::machine::{
    Emulator, Flow, Halt, Machine, CYCLES, FAULT_CALLBACK_ADDR, INTERRUPTED_LINE,
    INTERRUPT_CALLBACK_ADDR, MEMORY_WORDS, PROGRAM_SIZE, PROGRAM_START, PROTECTED,
    RAM_FRAME_START, RAM_SIZE, REGISTERS, STACK_FRAME_START, STACK_SIZE, TIMEOUT_CALLBACK_ADDR,
    TIMEOUT_DURATION,
};
use vstd::prelude::*;

verus! {

/// Number of registers that `SaveRegisters` and `LodRegisters` move.
pub const SAVED_REGISTERS: u16 = 64;

/// The instructions that set up the machine for the programs it runs, and that enter and
/// leave them.
pub open spec fn spec_is_control(op: Opcode) -> bool {
    matches!(
        op,
        Opcode::SetRamFrame | Opcode::SetStackFrame | Opcode::SaveRegisters
            | Opcode::LodRegisters | Opcode::SetTimeout | Opcode::SetTimeoutAdd
            | Opcode::SetIntAddr | Opcode::Int | Opcode::CallPgrm | Opcode::RetInt
            | Opcode::SetPgrmStart | Opcode::SetRamSize | Opcode::SetPgrmSize
            | Opcode::SetStackSize | Opcode::SetFaultAddr | Opcode::Kill
    )
}

impl Machine {
    /// The state with the first 64 registers written to RAM from the absolute address
    /// `base` on.
    pub open spec fn save_registers(self, base: u16) -> Machine {
        Machine {
            ram: Seq::new(
                MEMORY_WORDS as nat,
                |i: int|
                    if (i as u16).wrapping_sub(base) < SAVED_REGISTERS {
                        self.registers[(i as u16).wrapping_sub(base) as int]
                    } else {
                        self.ram[i]
                    },
            ),
            ..self
        }
    }

    /// The state with the first 64 registers read from RAM from the absolute address `base`
    /// on. As always, the mode register takes 1 for any value above 1.
    pub open spec fn load_registers(self, base: u16) -> Machine {
        Machine {
            registers: Seq::new(
                REGISTERS as nat,
                |r: int|
                    if r < SAVED_REGISTERS {
                        let v = self.ram[base.wrapping_add(r as u16) as int];
                        if r == PROTECTED && v > 1 {
                            1
                        } else {
                            v
                        }
                    } else {
                        self.registers[r]
                    },
            ),
            ..self
        }
    }

    /// A control instruction. `pc` is the address of the instruction.
    ///
    /// `Int` is for unprivileged programs: it records the address of the next slot as the
    /// place to go on, enters privileged mode and jumps to the interrupt callback; in
    /// privileged mode it does nothing. Every other control instruction faults when
    /// unprivileged. In privileged mode, the `Set` instructions write a control register
    /// from a register or a constant address, `SaveRegisters` and `LodRegisters` move the
    /// first 64 registers to and from RAM, `CallPgrm r` enters a program at the address in
    /// `r` in unprivileged mode and takes the cycle count as the start of its time,
    /// `RetInt` goes back to an interrupted program in unprivileged mode, and `Kill` stops
    /// the machine.
    pub open spec fn control(self, op: Opcode, ops: Seq<Parameter>, pc: u16) -> (Machine, Flow) {
        let x = self.reg(ops[0].spec_byte());
        if op == Opcode::Int {
            if self.privileged() {
                (self, Flow::Next)
            } else {
                (
                    self.set_reg(INTERRUPTED_LINE, pc.wrapping_add(3)).set_reg(PROTECTED, 1),
                    Flow::Jump(self.reg(INTERRUPT_CALLBACK_ADDR)),
                )
            }
        } else if !self.privileged() {
            self.fault()
        } else {
            match op {
                Opcode::SetRamFrame => (self.set_reg(RAM_FRAME_START, x), Flow::Next),
                Opcode::SetStackFrame => (self.set_reg(STACK_FRAME_START, x), Flow::Next),
                Opcode::SetTimeout => (self.set_reg(TIMEOUT_DURATION, x), Flow::Next),
                Opcode::SetPgrmStart => (self.set_reg(PROGRAM_START, x), Flow::Next),
                Opcode::SetRamSize => (self.set_reg(RAM_SIZE, x), Flow::Next),
                Opcode::SetPgrmSize => (self.set_reg(PROGRAM_SIZE, x), Flow::Next),
                Opcode::SetStackSize => (self.set_reg(STACK_SIZE, x), Flow::Next),
                Opcode::SetTimeoutAdd => (
                    self.set_reg(TIMEOUT_CALLBACK_ADDR, ops[0].spec_word()),
                    Flow::Next,
                ),
                Opcode::SetIntAddr => (
                    self.set_reg(INTERRUPT_CALLBACK_ADDR, ops[0].spec_word()),
                    Flow::Next,
                ),
                Opcode::SetFaultAddr => (
                    self.set_reg(FAULT_CALLBACK_ADDR, ops[0].spec_word()),
                    Flow::Next,
                ),
                Opcode::SaveRegisters => (self.save_registers(x), Flow::Next),
                Opcode::LodRegisters => (self.load_registers(x), Flow::Next),
                Opcode::CallPgrm => (
                    self.set_reg(PROTECTED, 0).set_held_cycle_count(self.reg(CYCLES)),
                    Flow::Jump(x),
                ),
                Opcode::RetInt => (
                    self.set_reg(PROTECTED, 0),
                    Flow::Jump(self.reg(INTERRUPTED_LINE)),
                ),
                Opcode::Kill => (self, Flow::Stop(Halt::Kill)),
                _ => (self, Flow::Next),
            }
        }
    }
}

impl Emulator {
    /// Writes the first 64 registers to RAM from `base` on.
    pub fn save_registers(&mut self, base: u16)
        requires
            old(self).wf(),
        ensures
            final(self)@ == old(self)@.save_registers(base),
            final(self).wf(),
    {
        let ghost before = self@;
        let mut k: u16 = 0;
        assert(before.ram =~= Seq::new(
            MEMORY_WORDS as nat,
            |i: int|
                if (i as u16).wrapping_sub(base) < 0 {
                    before.registers[(i as u16).wrapping_sub(base) as int]
                } else {
                    before.ram[i]
                },
        ));
        while k < SAVED_REGISTERS
            invariant
                k <= SAVED_REGISTERS,
                self.wf(),
                before.wf(),
                self@ == (Machine {
                    ram: Seq::new(
                        MEMORY_WORDS as nat,
                        |i: int|
                            if (i as u16).wrapping_sub(base) < k {
                                before.registers[(i as u16).wrapping_sub(base) as int]
                            } else {
                                before.ram[i]
                            },
                    ),
                    ..before
                }),
            decreases SAVED_REGISTERS - k,
        {
            let ghost now = self@;
            let v = self.reg(k as u8);
            self.set_ram_word(base.wrapping_add(k), v);
            proof {
                let next = Seq::new(
                    MEMORY_WORDS as nat,
                    |i: int|
                        if (i as u16).wrapping_sub(base) < k + 1 {
                            before.registers[(i as u16).wrapping_sub(base) as int]
                        } else {
                            before.ram[i]
                        },
                );
                assert(self@.ram =~= next);
            }
            k += 1;
        }
    }

    /// Reads the first 64 registers from RAM from `base` on.
    pub fn load_registers(&mut self, base: u16)
        requires
            old(self).wf(),
        ensures
            final(self)@ == old(self)@.load_registers(base),
            final(self).wf(),
    {
        let ghost before = self@;
        let mut k: u16 = 0;
        assert(before.registers =~= Seq::new(
            REGISTERS as nat,
            |r: int|
                if r < 0 {
                    let v = before.ram[base.wrapping_add(r as u16) as int];
                    if r == PROTECTED && v > 1 {
                        1
                    } else {
                        v
                    }
                } else {
                    before.registers[r]
                },
        ));
        while k < SAVED_REGISTERS
            invariant
                k <= SAVED_REGISTERS,
                self.wf(),
                before.wf(),
                self@ == (Machine {
                    registers: Seq::new(
                        REGISTERS as nat,
                        |r: int|
                            if r < k {
                                let v = before.ram[base.wrapping_add(r as u16) as int];
                                if r == PROTECTED && v > 1 {
                                    1
                                } else {
                                    v
                                }
                            } else {
                                before.registers[r]
                            },
                    ),
                    ..before
                }),
            decreases SAVED_REGISTERS - k,
        {
            let v = self.ram_word(base.wrapping_add(k));
            self.set_reg(k as u8, v);
            proof {
                let next = Seq::new(
                    REGISTERS as nat,
                    |r: int|
                        if r < k + 1 {
                            let v = before.ram[base.wrapping_add(r as u16) as int];
                            if r == PROTECTED && v > 1 {
                                1
                            } else {
                                v
                            }
                        } else {
                            before.registers[r]
                        },
                );
                assert(self@.registers =~= next);
            }
            k += 1;
        }
    }

    /// Executes a control instruction.
    pub fn control(&mut self, op: Opcode, ops: &Vec<Parameter>, pc: u16) -> (flow: Flow)
        requires
            old(self).wf(),
            spec_is_control(op),
            ops@.len() == op.spec_params().len(),
        ensures
            (final(self)@, flow) == old(self)@.control(op, ops@, pc),
            final(self).wf(),
    {
        if op == Opcode::Int {
            if self.privileged() {
                return Flow::Next;
            }
            let target = self.reg(INTERRUPT_CALLBACK_ADDR);
            self.set_reg(INTERRUPTED_LINE, pc.wrapping_add(3));
            self.set_reg(PROTECTED, 1);
            return Flow::Jump(target);
        }
        if !self.privileged() {
            return self.fault();
        }
        match op {
            Opcode::SetTimeoutAdd => {
                self.set_reg(TIMEOUT_CALLBACK_ADDR, ops[0].word());
                Flow::Next
            },
            Opcode::SetIntAddr => {
                self.set_reg(INTERRUPT_CALLBACK_ADDR, ops[0].word());
                Flow::Next
            },
            Opcode::SetFaultAddr => {
                self.set_reg(FAULT_CALLBACK_ADDR, ops[0].word());
                Flow::Next
            },
            Opcode::RetInt => {
                let target = self.reg(INTERRUPTED_LINE);
                self.set_reg(PROTECTED, 0);
                Flow::Jump(target)
            },
            Opcode::Kill => Flow::Stop(Halt::Kill),
            _ => {
                let x = self.reg(ops[0].byte());
                match op {
                    Opcode::SetRamFrame => {
                        self.set_reg(RAM_FRAME_START, x);
                        Flow::Next
                    },
                    Opcode::SetStackFrame => {
                        self.set_reg(STACK_FRAME_START, x);
                        Flow::Next
                    },
                    Opcode::SetTimeout => {
                        self.set_reg(TIMEOUT_DURATION, x);
                        Flow::Next
                    },
                    Opcode::SetPgrmStart => {
                        self.set_reg(PROGRAM_START, x);
                        Flow::Next
                    },
                    Opcode::SetRamSize => {
                        self.set_reg(RAM_SIZE, x);
                        Flow::Next
                    },
                    Opcode::SetPgrmSize => {
                        self.set_reg(PROGRAM_SIZE, x);
                        Flow::Next
                    },
                    Opcode::SetStackSize => {
                        self.set_reg(STACK_SIZE, x);
                        Flow::Next
                    },
                    Opcode::SaveRegisters => {
                        self.save_registers(x);
                        Flow::Next
                    },
                    Opcode::LodRegisters => {
                        self.load_registers(x);
                        Flow::Next
                    },
                    Opcode::CallPgrm => {
                        let cycles = self.reg(CYCLES);
                        self.set_reg(PROTECTED, 0);
                        self.set_held_cycle_count(cycles);
                        Flow::Jump(x)
                    },
                    _ => Flow::Next,
                }
            },
        }
    }
}

} // verus!
