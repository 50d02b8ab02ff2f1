use crate::assembler::Parameter;
use crate::isa::Opcode;
use crate::machine::{Emulator, Flow, Machine};
use vstd::prelude::*;

verus! {

/// The instructions that move one word between registers, constants and RAM.
pub open spec fn spec_is_transfer(op: Opcode) -> bool {
    matches!(
        op,
        Opcode::Nop | Opcode::Ldi | Opcode::Mov | Opcode::Swp | Opcode::LdiR | Opcode::Sto
            | Opcode::Get | Opcode::LdiPtr | Opcode::StoPtr | Opcode::GetPtr | Opcode::StoPtrOff
            | Opcode::GetPtrOff | Opcode::StoPtrOffPtr | Opcode::GetPtrOffPtr | Opcode::MovR
    )
}

impl Machine {
    /// Writes a word of RAM for the running program, or faults where the program may not
    /// touch it.
    pub open spec fn store_checked(self, index: u16, v: u16) -> (Machine, Flow) {
        if self.ram_violation(index) {
            self.fault()
        } else {
            (self.store(index, v), Flow::Next)
        }
    }

    /// Reads a word of RAM into a register for the running program, or faults where the
    /// program may not touch it.
    pub open spec fn load_checked(self, index: u16, r: u8) -> (Machine, Flow) {
        if self.ram_violation(index) {
            self.fault()
        } else {
            (self.set_reg(r, self.load(index)), Flow::Next)
        }
    }

    /// An instruction that moves one word.
    ///
    /// `Nop` does nothing. `Ldi r c` loads a constant, `Mov a b` copies register `a` to
    /// `b`, `Swp a b` exchanges two registers. `LdiR`, `Sto` and `Get` address RAM by a
    /// constant address, `LdiPtr`, `StoPtr` and `GetPtr` by the address in a register,
    /// `StoPtrOff` and `GetPtrOff` by that address plus a constant, `StoPtrOffPtr p v o` and
    /// `GetPtrOffPtr p d o` by the address in `p` plus the offset in `o`. `MovR d s` copies
    /// the word of RAM at `s` to `d`.
    pub open spec fn transfer(self, op: Opcode, ops: Seq<Parameter>) -> (Machine, Flow) {
        match op {
            Opcode::Ldi => (self.set_reg(ops[0].spec_byte(), ops[1].spec_word()), Flow::Next),
            Opcode::Mov => (
                self.set_reg(ops[1].spec_byte(), self.reg(ops[0].spec_byte())),
                Flow::Next,
            ),
            Opcode::Swp => (
                self.set_reg(ops[1].spec_byte(), self.reg(ops[0].spec_byte())).set_reg(
                    ops[0].spec_byte(),
                    self.reg(ops[1].spec_byte()),
                ),
                Flow::Next,
            ),
            Opcode::LdiR => self.store_checked(ops[0].spec_word(), ops[1].spec_word()),
            Opcode::Sto => self.store_checked(ops[0].spec_word(), self.reg(ops[1].spec_byte())),
            Opcode::Get => self.load_checked(ops[0].spec_word(), ops[1].spec_byte()),
            Opcode::LdiPtr => self.store_checked(self.reg(ops[0].spec_byte()), ops[1].spec_word()),
            Opcode::StoPtr => self.store_checked(
                self.reg(ops[0].spec_byte()),
                self.reg(ops[1].spec_byte()),
            ),
            Opcode::GetPtr => self.load_checked(self.reg(ops[0].spec_byte()), ops[1].spec_byte()),
            Opcode::StoPtrOff => self.store_checked(
                self.reg(ops[0].spec_byte()).wrapping_add(ops[1].spec_word()),
                self.reg(ops[2].spec_byte()),
            ),
            Opcode::GetPtrOff => self.load_checked(
                self.reg(ops[0].spec_byte()).wrapping_add(ops[1].spec_word()),
                ops[2].spec_byte(),
            ),
            Opcode::StoPtrOffPtr => self.store_checked(
                self.reg(ops[0].spec_byte()).wrapping_add(self.reg(ops[2].spec_byte())),
                self.reg(ops[1].spec_byte()),
            ),
            Opcode::GetPtrOffPtr => self.load_checked(
                self.reg(ops[0].spec_byte()).wrapping_add(self.reg(ops[2].spec_byte())),
                ops[1].spec_byte(),
            ),
            Opcode::MovR => if self.ram_violation(ops[0].spec_word()) || self.ram_violation(
                ops[1].spec_word(),
            ) {
                self.fault()
            } else {
                (self.store(ops[0].spec_word(), self.load(ops[1].spec_word())), Flow::Next)
            },
            _ => (self, Flow::Next),
        }
    }
}

impl Emulator {
    /// Writes a word of RAM for the running program, or faults.
    pub fn store_checked(&mut self, index: u16, v: u16) -> (flow: Flow)
        requires
            old(self).wf(),
        ensures
            (final(self)@, flow) == old(self)@.store_checked(index, v),
            final(self).wf(),
    {
        if self.ram_violation(index) {
            self.fault()
        } else {
            self.store(index, v);
            Flow::Next
        }
    }

    /// Reads a word of RAM into a register for the running program, or faults.
    pub fn load_checked(&mut self, index: u16, r: u8) -> (flow: Flow)
        requires
            old(self).wf(),
        ensures
            (final(self)@, flow) == old(self)@.load_checked(index, r),
            final(self).wf(),
    {
        if self.ram_violation(index) {
            self.fault()
        } else {
            let v = self.load(index);
            self.set_reg(r, v);
            Flow::Next
        }
    }

    /// Executes an instruction that moves one word.
    pub fn transfer(&mut self, op: Opcode, ops: &Vec<Parameter>) -> (flow: Flow)
        requires
            old(self).wf(),
            spec_is_transfer(op),
            ops@.len() == op.spec_params().len(),
        ensures
            (final(self)@, flow) == old(self)@.transfer(op, ops@),
            final(self).wf(),
    {
        match op {
            Opcode::Ldi => {
                self.set_reg(ops[0].byte(), ops[1].word());
                Flow::Next
            },
            Opcode::Mov => {
                let v = self.reg(ops[0].byte());
                self.set_reg(ops[1].byte(), v);
                Flow::Next
            },
            Opcode::Swp => {
                let x = self.reg(ops[0].byte());
                let y = self.reg(ops[1].byte());
                self.set_reg(ops[1].byte(), x);
                self.set_reg(ops[0].byte(), y);
                Flow::Next
            },
            Opcode::LdiR => self.store_checked(ops[0].word(), ops[1].word()),
            Opcode::Sto => {
                let v = self.reg(ops[1].byte());
                self.store_checked(ops[0].word(), v)
            },
            Opcode::Get => self.load_checked(ops[0].word(), ops[1].byte()),
            Opcode::LdiPtr => {
                let at = self.reg(ops[0].byte());
                self.store_checked(at, ops[1].word())
            },
            Opcode::StoPtr => {
                let at = self.reg(ops[0].byte());
                let v = self.reg(ops[1].byte());
                self.store_checked(at, v)
            },
            Opcode::GetPtr => {
                let at = self.reg(ops[0].byte());
                self.load_checked(at, ops[1].byte())
            },
            Opcode::StoPtrOff => {
                let at = self.reg(ops[0].byte()).wrapping_add(ops[1].word());
                let v = self.reg(ops[2].byte());
                self.store_checked(at, v)
            },
            Opcode::GetPtrOff => {
                let at = self.reg(ops[0].byte()).wrapping_add(ops[1].word());
                self.load_checked(at, ops[2].byte())
            },
            Opcode::StoPtrOffPtr => {
                let at = self.reg(ops[0].byte()).wrapping_add(self.reg(ops[2].byte()));
                let v = self.reg(ops[1].byte());
                self.store_checked(at, v)
            },
            Opcode::GetPtrOffPtr => {
                let at = self.reg(ops[0].byte()).wrapping_add(self.reg(ops[2].byte()));
                self.load_checked(at, ops[1].byte())
            },
            Opcode::MovR => {
                if self.ram_violation(ops[0].word()) || self.ram_violation(ops[1].word()) {
                    self.fault()
                } else {
                    let v = self.load(ops[1].word());
                    self.store(ops[0].word(), v);
                    Flow::Next
                }
            },
            _ => Flow::Next,
        }
    }
}

} // verus!
