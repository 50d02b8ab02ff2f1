use crate::assembler::Parameter;
use crate::isa::Opcode;
use crate::machine::{Emulator, Flow, Machine, STACK_TOP_PTR};
use vstd::prelude::*;

verus! {

/// The instructions that work on the stack.
pub open spec fn spec_is_stack_form(op: Opcode) -> bool {
    matches!(
        op,
        Opcode::Psh | Opcode::PshCon | Opcode::Pop | Opcode::Index | Opcode::Edit | Opcode::Call
            | Opcode::Ret | Opcode::RetFramed | Opcode::SetStackPtr | Opcode::RetConst
            | Opcode::IndexPtr | Opcode::IndexOff | Opcode::IndexOffConst | Opcode::EditPtr
            | Opcode::PshPtr
    )
}

impl Machine {
    /// The stack pointer: the index behind the word that was pushed last.
    pub open spec fn top(self) -> u16 {
        self.reg(STACK_TOP_PTR)
    }

    /// Pushes a word: writes it at the stack pointer, then moves the pointer up by one.
    /// Faults where the program may not touch that word.
    pub open spec fn push(self, v: u16) -> (Machine, Flow) {
        if self.stack_violation(self.top()) {
            self.fault()
        } else {
            (
                self.poke(self.top(), v).set_reg(STACK_TOP_PTR, self.top().wrapping_add(1)),
                Flow::Next,
            )
        }
    }

    /// Reads the word of the stack at `index` into a register, or faults.
    pub open spec fn stack_read(self, index: u16, r: u8) -> (Machine, Flow) {
        if self.stack_violation(index) {
            self.fault()
        } else {
            (self.set_reg(r, self.peek(index)), Flow::Next)
        }
    }

    /// Writes the word of the stack at `index`, or faults.
    pub open spec fn stack_write(self, index: u16, v: u16) -> (Machine, Flow) {
        if self.stack_violation(index) {
            self.fault()
        } else {
            (self.poke(index, v), Flow::Next)
        }
    }

    /// Returns through the word of the stack at `index`: execution goes on at the address
    /// that it holds, and the stack pointer is set to `index`. `guard` is the index that
    /// the running program must be allowed to touch.
    pub open spec fn return_through(self, guard: u16, index: u16) -> (Machine, Flow) {
        if self.stack_violation(guard) {
            self.fault()
        } else {
            (self.set_reg(STACK_TOP_PTR, index), Flow::Jump(self.peek(index)))
        }
    }

    /// An instruction that works on the stack. `pc` is the address of the instruction.
    ///
    /// `Psh r`, `PshCon c` and `PshPtr p` push a register, a constant, or the word of RAM
    /// at the address in `p`. `Pop r` reads the word at the stack pointer into `r`, then
    /// moves the pointer down by one. `Index` and `Edit` read and write the stack at a
    /// constant index, `IndexPtr` and `EditPtr` at the index in a register, `IndexOff` and
    /// `IndexOffConst` read at the stack pointer less a register or a constant.
    /// `SetStackPtr r` sets the stack pointer. `Call a` pushes the address of the next slot
    /// and jumps to `a`. `Ret` returns through the word below the stack pointer, `RetConst
    /// c` through the word `c` further down, `RetFramed r` through the word at the index in
    /// `r`; each of them leaves the stack pointer at the word it returned through.
    pub open spec fn stack_form(self, op: Opcode, ops: Seq<Parameter>, pc: u16) -> (
        Machine,
        Flow,
    ) {
        let top = self.top();
        match op {
            Opcode::Psh => self.push(self.reg(ops[0].spec_byte())),
            Opcode::PshCon => self.push(ops[0].spec_word()),
            Opcode::PshPtr => if self.ram_violation(self.reg(ops[0].spec_byte())) {
                self.fault()
            } else {
                self.push(self.load(self.reg(ops[0].spec_byte())))
            },
            Opcode::Pop => if self.stack_violation(top) {
                self.fault()
            } else {
                let read = self.set_reg(ops[0].spec_byte(), self.peek(top));
                (read.set_reg(STACK_TOP_PTR, read.top().wrapping_sub(1)), Flow::Next)
            },
            Opcode::Index => self.stack_read(ops[0].spec_word(), ops[1].spec_byte()),
            Opcode::IndexPtr => self.stack_read(self.reg(ops[0].spec_byte()), ops[1].spec_byte()),
            Opcode::IndexOff => self.stack_read(
                top.wrapping_sub(self.reg(ops[0].spec_byte())),
                ops[1].spec_byte(),
            ),
            Opcode::IndexOffConst => self.stack_read(
                top.wrapping_sub(ops[0].spec_word()),
                ops[1].spec_byte(),
            ),
            Opcode::Edit => self.stack_write(ops[0].spec_word(), self.reg(ops[1].spec_byte())),
            Opcode::EditPtr => self.stack_write(
                self.reg(ops[0].spec_byte()),
                self.reg(ops[1].spec_byte()),
            ),
            Opcode::Call => if self.stack_violation(top) {
                self.fault()
            } else {
                (
                    self.poke(top, pc.wrapping_add(3)).set_reg(STACK_TOP_PTR, top.wrapping_add(1)),
                    Flow::Jump(self.jump_address(ops[0].spec_word())),
                )
            },
            Opcode::Ret => self.return_through(top, top.wrapping_sub(1)),
            Opcode::RetConst => self.return_through(
                top,
                top.wrapping_sub(1).wrapping_sub(ops[0].spec_word()),
            ),
            Opcode::RetFramed => self.return_through(
                self.reg(ops[0].spec_byte()),
                self.reg(ops[0].spec_byte()),
            ),
            Opcode::SetStackPtr => (
                self.set_reg(STACK_TOP_PTR, self.reg(ops[0].spec_byte())),
                Flow::Next,
            ),
            _ => (self, Flow::Next),
        }
    }
}

impl Emulator {
    /// Pushes a word onto the stack, or faults.
    pub fn push(&mut self, v: u16) -> (flow: Flow)
        requires
            old(self).wf(),
        ensures
            (final(self)@, flow) == old(self)@.push(v),
            final(self).wf(),
    {
        let top = self.reg(STACK_TOP_PTR);
        if self.stack_violation(top) {
            self.fault()
        } else {
            self.poke(top, v);
            self.set_reg(STACK_TOP_PTR, top.wrapping_add(1));
            Flow::Next
        }
    }

    /// Reads a word of the stack into a register, or faults.
    pub fn stack_read(&mut self, index: u16, r: u8) -> (flow: Flow)
        requires
            old(self).wf(),
        ensures
            (final(self)@, flow) == old(self)@.stack_read(index, r),
            final(self).wf(),
    {
        if self.stack_violation(index) {
            self.fault()
        } else {
            let v = self.peek(index);
            self.set_reg(r, v);
            Flow::Next
        }
    }

    /// Writes a word of the stack, or faults.
    pub fn stack_write(&mut self, index: u16, v: u16) -> (flow: Flow)
        requires
            old(self).wf(),
        ensures
            (final(self)@, flow) == old(self)@.stack_write(index, v),
            final(self).wf(),
    {
        if self.stack_violation(index) {
            self.fault()
        } else {
            self.poke(index, v);
            Flow::Next
        }
    }

    /// Returns through a word of the stack, or faults.
    pub fn return_through(&mut self, guard: u16, index: u16) -> (flow: Flow)
        requires
            old(self).wf(),
        ensures
            (final(self)@, flow) == old(self)@.return_through(guard, index),
            final(self).wf(),
    {
        if self.stack_violation(guard) {
            self.fault()
        } else {
            let target = self.peek(index);
            self.set_reg(STACK_TOP_PTR, index);
            Flow::Jump(target)
        }
    }

    /// Executes an instruction that works on the stack.
    pub fn stack_form(&mut self, op: Opcode, ops: &Vec<Parameter>, pc: u16) -> (flow: Flow)
        requires
            old(self).wf(),
            spec_is_stack_form(op),
            ops@.len() == op.spec_params().len(),
        ensures
            (final(self)@, flow) == old(self)@.stack_form(op, ops@, pc),
            final(self).wf(),
    {
        let top = self.reg(STACK_TOP_PTR);
        match op {
            Opcode::Psh => {
                let v = self.reg(ops[0].byte());
                self.push(v)
            },
            Opcode::PshCon => self.push(ops[0].word()),
            Opcode::PshPtr => {
                let at = self.reg(ops[0].byte());
                if self.ram_violation(at) {
                    self.fault()
                } else {
                    let v = self.load(at);
                    self.push(v)
                }
            },
            Opcode::Pop => {
                if self.stack_violation(top) {
                    self.fault()
                } else {
                    let v = self.peek(top);
                    self.set_reg(ops[0].byte(), v);
                    let now = self.reg(STACK_TOP_PTR);
                    self.set_reg(STACK_TOP_PTR, now.wrapping_sub(1));
                    Flow::Next
                }
            },
            Opcode::Index => self.stack_read(ops[0].word(), ops[1].byte()),
            Opcode::IndexPtr => {
                let at = self.reg(ops[0].byte());
                self.stack_read(at, ops[1].byte())
            },
            Opcode::IndexOff => {
                let at = top.wrapping_sub(self.reg(ops[0].byte()));
                self.stack_read(at, ops[1].byte())
            },
            Opcode::IndexOffConst => self.stack_read(top.wrapping_sub(ops[0].word()), ops[1].byte()),
            Opcode::Edit => {
                let v = self.reg(ops[1].byte());
                self.stack_write(ops[0].word(), v)
            },
            Opcode::EditPtr => {
                let at = self.reg(ops[0].byte());
                let v = self.reg(ops[1].byte());
                self.stack_write(at, v)
            },
            Opcode::Call => {
                if self.stack_violation(top) {
                    self.fault()
                } else {
                    let target = self.jump_address(ops[0].word());
                    self.poke(top, pc.wrapping_add(3));
                    self.set_reg(STACK_TOP_PTR, top.wrapping_add(1));
                    Flow::Jump(target)
                }
            },
            Opcode::Ret => self.return_through(top, top.wrapping_sub(1)),
            Opcode::RetConst => self.return_through(
                top,
                top.wrapping_sub(1).wrapping_sub(ops[0].word()),
            ),
            Opcode::RetFramed => {
                let at = self.reg(ops[0].byte());
                self.return_through(at, at)
            },
            Opcode::SetStackPtr => {
                let v = self.reg(ops[0].byte());
                self.set_reg(STACK_TOP_PTR, v);
                Flow::Next
            },
            _ => Flow::Next,
        }
    }
}

} // verus!
