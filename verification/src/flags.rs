use crate::assembler::Parameter;
use crate::isa::Opcode;
use crate::machine::{
    Emulator, Flow, Machine, CONDITION_FLAG, FAULT_FLAG, OVERFLOW_FLAG, ZERO_FLAG,
};
use vstd::prelude::*;

verus! {

/// The instructions that compare and that handle the flags.
pub open spec fn spec_is_flag_form(op: Opcode) -> bool {
    matches!(
        op,
        Opcode::Less | Opcode::Grtr | Opcode::Eq | Opcode::LessImm | Opcode::GrtrImm
            | Opcode::EqImm | Opcode::ClrFlags | Opcode::SaveFlags | Opcode::Zero
            | Opcode::LoadFlags
    )
}

/// The jumps.
pub open spec fn spec_is_branch(op: Opcode) -> bool {
    matches!(
        op,
        Opcode::Jmp | Opcode::Jic | Opcode::Jnc | Opcode::Jiz | Opcode::Jnz | Opcode::JiErr
            | Opcode::JnErr | Opcode::JiCry | Opcode::JnCry | Opcode::JmpPtr | Opcode::JicPtr
            | Opcode::JncPtr | Opcode::JizPtr | Opcode::JnzPtr | Opcode::JiCryPtr
            | Opcode::JnCryPtr
    )
}

/// The jumps that take their target from a register.
pub open spec fn spec_is_pointer_branch(op: Opcode) -> bool {
    matches!(
        op,
        Opcode::JmpPtr | Opcode::JicPtr | Opcode::JncPtr | Opcode::JizPtr | Opcode::JnzPtr
            | Opcode::JiCryPtr | Opcode::JnCryPtr
    )
}

/// Whether a jump takes its target from a register.
#[verifier::when_used_as_spec(spec_is_pointer_branch)]
pub fn is_pointer_branch(op: Opcode) -> (r: bool)
    ensures
        r == spec_is_pointer_branch(op),
{
    matches!(
        op,
        Opcode::JmpPtr | Opcode::JicPtr | Opcode::JncPtr | Opcode::JizPtr | Opcode::JnzPtr
            | Opcode::JiCryPtr | Opcode::JnCryPtr
    )
}

/// A truth value as a word: 1 or 0.
pub open spec fn spec_truth(b: bool) -> u16 {
    if b {
        1
    } else {
        0
    }
}

/// A truth value as a word: 1 or 0.
#[verifier::when_used_as_spec(spec_truth)]
pub fn truth(b: bool) -> (r: u16)
    ensures
        r == spec_truth(b),
{
    if b {
        1
    } else {
        0
    }
}

impl Machine {
    /// Whether a flag is set: its register is not zero.
    pub open spec fn flag(self, r: u8) -> bool {
        self.reg(r) != 0
    }

    /// The four flags in one word: condition, zero, overflow and fault in bits 0 to 3.
    pub open spec fn flags_word(self) -> u16 {
        (spec_truth(self.flag(CONDITION_FLAG)) + 2 * spec_truth(self.flag(ZERO_FLAG)) + 4
            * spec_truth(self.flag(OVERFLOW_FLAG)) + 8 * spec_truth(self.flag(FAULT_FLAG))) as u16
    }

    /// The state with the four flags taken from bits 0 to 3 of a word.
    pub open spec fn load_flags(self, v: u16) -> Machine {
        self.set_reg(CONDITION_FLAG, v % 2).set_reg(FAULT_FLAG, v / 8 % 2).set_reg(
            ZERO_FLAG,
            v / 2 % 2,
        ).set_reg(OVERFLOW_FLAG, v / 4 % 2)
    }

    /// An instruction that compares or that handles the flags.
    ///
    /// `Less`, `Grtr` and `Eq` compare two registers, their `Imm` forms a register and a
    /// constant, and `Zero` a register and zero; each sets the condition flag to 1 or 0.
    /// `ClrFlags` clears the four flags, `SaveFlags r` writes them to a register as one
    /// word, and `LoadFlags r` sets them from a register.
    pub open spec fn flag_form(self, op: Opcode, ops: Seq<Parameter>) -> (Machine, Flow) {
        let x = self.reg(ops[0].spec_byte());
        let state = match op {
            Opcode::Less => self.set_reg(
                CONDITION_FLAG,
                spec_truth(x < self.reg(ops[1].spec_byte())),
            ),
            Opcode::Grtr => self.set_reg(
                CONDITION_FLAG,
                spec_truth(x > self.reg(ops[1].spec_byte())),
            ),
            Opcode::Eq => self.set_reg(
                CONDITION_FLAG,
                spec_truth(x == self.reg(ops[1].spec_byte())),
            ),
            Opcode::LessImm => self.set_reg(CONDITION_FLAG, spec_truth(x < ops[1].spec_word())),
            Opcode::GrtrImm => self.set_reg(CONDITION_FLAG, spec_truth(x > ops[1].spec_word())),
            Opcode::EqImm => self.set_reg(CONDITION_FLAG, spec_truth(x == ops[1].spec_word())),
            Opcode::Zero => self.set_reg(CONDITION_FLAG, spec_truth(x == 0)),
            Opcode::ClrFlags => self.set_reg(CONDITION_FLAG, 0).set_reg(FAULT_FLAG, 0).set_reg(
                ZERO_FLAG,
                0,
            ).set_reg(OVERFLOW_FLAG, 0),
            Opcode::SaveFlags => self.set_reg(ops[0].spec_byte(), self.flags_word()),
            Opcode::LoadFlags => self.load_flags(x),
            _ => self,
        };
        (state, Flow::Next)
    }

    /// Whether a jump is taken: `Jmp` always, `Jic` and `Jnc` by the condition flag, `Jiz`
    /// and `Jnz` by the zero flag, `JiErr` and `JnErr` by the fault flag, `JiCry` and
    /// `JnCry` by the overflow flag; the `Ptr` forms likewise.
    pub open spec fn branch_taken(self, op: Opcode) -> bool {
        match op {
            Opcode::Jic | Opcode::JicPtr => self.flag(CONDITION_FLAG),
            Opcode::Jnc | Opcode::JncPtr => !self.flag(CONDITION_FLAG),
            Opcode::Jiz | Opcode::JizPtr => self.flag(ZERO_FLAG),
            Opcode::Jnz | Opcode::JnzPtr => !self.flag(ZERO_FLAG),
            Opcode::JiErr => self.flag(FAULT_FLAG),
            Opcode::JnErr => !self.flag(FAULT_FLAG),
            Opcode::JiCry | Opcode::JiCryPtr => self.flag(OVERFLOW_FLAG),
            Opcode::JnCry | Opcode::JnCryPtr => !self.flag(OVERFLOW_FLAG),
            _ => true,
        }
    }

    /// A jump: where it is taken, execution goes on at its target, which is a constant
    /// address or the address in a register, relocated by the program's origin when
    /// unprivileged. No jump changes the state.
    pub open spec fn branch(self, op: Opcode, ops: Seq<Parameter>) -> (Machine, Flow) {
        let target = if spec_is_pointer_branch(op) {
            self.reg(ops[0].spec_byte())
        } else {
            ops[0].spec_word()
        };
        if self.branch_taken(op) {
            (self, Flow::Jump(self.jump_address(target)))
        } else {
            (self, Flow::Next)
        }
    }
}

impl Emulator {
    /// Whether a flag is set.
    pub fn flag(&self, r: u8) -> (b: bool)
        requires
            self.wf(),
        ensures
            b == self@.flag(r),
    {
        self.reg(r) != 0
    }

    /// Executes an instruction that compares or that handles the flags.
    pub fn flag_form(&mut self, op: Opcode, ops: &Vec<Parameter>) -> (flow: Flow)
        requires
            old(self).wf(),
            spec_is_flag_form(op),
            ops@.len() == op.spec_params().len(),
        ensures
            (final(self)@, flow) == old(self)@.flag_form(op, ops@),
            final(self).wf(),
    {
        match op {
            Opcode::ClrFlags => {
                self.set_reg(CONDITION_FLAG, 0);
                self.set_reg(FAULT_FLAG, 0);
                self.set_reg(ZERO_FLAG, 0);
                self.set_reg(OVERFLOW_FLAG, 0);
            },
            Opcode::SaveFlags => {
                let word = truth(self.flag(CONDITION_FLAG)) + 2 * truth(self.flag(ZERO_FLAG)) + 4
                    * truth(self.flag(OVERFLOW_FLAG)) + 8 * truth(self.flag(FAULT_FLAG));
                self.set_reg(ops[0].byte(), word);
            },
            Opcode::LoadFlags => {
                let v = self.reg(ops[0].byte());
                self.set_reg(CONDITION_FLAG, v % 2);
                self.set_reg(FAULT_FLAG, v / 8 % 2);
                self.set_reg(ZERO_FLAG, v / 2 % 2);
                self.set_reg(OVERFLOW_FLAG, v / 4 % 2);
            },
            Opcode::Zero => {
                let x = self.reg(ops[0].byte());
                self.set_reg(CONDITION_FLAG, truth(x == 0));
            },
            Opcode::Less => {
                let x = self.reg(ops[0].byte());
                let y = self.reg(ops[1].byte());
                self.set_reg(CONDITION_FLAG, truth(x < y));
            },
            Opcode::Grtr => {
                let x = self.reg(ops[0].byte());
                let y = self.reg(ops[1].byte());
                self.set_reg(CONDITION_FLAG, truth(x > y));
            },
            Opcode::Eq => {
                let x = self.reg(ops[0].byte());
                let y = self.reg(ops[1].byte());
                self.set_reg(CONDITION_FLAG, truth(x == y));
            },
            Opcode::LessImm => {
                let x = self.reg(ops[0].byte());
                self.set_reg(CONDITION_FLAG, truth(x < ops[1].word()));
            },
            Opcode::GrtrImm => {
                let x = self.reg(ops[0].byte());
                self.set_reg(CONDITION_FLAG, truth(x > ops[1].word()));
            },
            Opcode::EqImm => {
                let x = self.reg(ops[0].byte());
                self.set_reg(CONDITION_FLAG, truth(x == ops[1].word()));
            },
            _ => {},
        }
        Flow::Next
    }

    /// Whether a jump is taken.
    pub fn branch_taken(&self, op: Opcode) -> (b: bool)
        requires
            self.wf(),
        ensures
            b == self@.branch_taken(op),
    {
        match op {
            Opcode::Jic | Opcode::JicPtr => self.flag(CONDITION_FLAG),
            Opcode::Jnc | Opcode::JncPtr => !self.flag(CONDITION_FLAG),
            Opcode::Jiz | Opcode::JizPtr => self.flag(ZERO_FLAG),
            Opcode::Jnz | Opcode::JnzPtr => !self.flag(ZERO_FLAG),
            Opcode::JiErr => self.flag(FAULT_FLAG),
            Opcode::JnErr => !self.flag(FAULT_FLAG),
            Opcode::JiCry | Opcode::JiCryPtr => self.flag(OVERFLOW_FLAG),
            Opcode::JnCry | Opcode::JnCryPtr => !self.flag(OVERFLOW_FLAG),
            _ => true,
        }
    }

    /// Executes a jump.
    pub fn branch(&mut self, op: Opcode, ops: &Vec<Parameter>) -> (flow: Flow)
        requires
            old(self).wf(),
            spec_is_branch(op),
            ops@.len() == op.spec_params().len(),
        ensures
            (final(self)@, flow) == old(self)@.branch(op, ops@),
            final(self).wf(),
    {
        let target = if is_pointer_branch(op) {
            self.reg(ops[0].byte())
        } else {
            ops[0].word()
        };
        if self.branch_taken(op) {
            Flow::Jump(self.jump_address(target))
        } else {
            Flow::Next
        }
    }
}

} // verus!
