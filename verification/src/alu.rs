use crate::assembler::Parameter;
use crate::isa::Opcode;
use crate::machine::{Emulator, Flow, Machine};
use vstd::prelude::*;

verus! {

/// `base` to the power `exp`, cut down to 16 bits.
pub open spec fn spec_pow(base: u16, exp: u16) -> u16
    decreases exp,
{
    if exp == 0 {
        1
    } else {
        base.wrapping_mul(spec_pow(base, (exp - 1) as u16))
    }
}

/// Raises `base` to the power `exp`, wrapping around at 16 bits.
pub fn pow(base: u16, exp: u16) -> (r: u16)
    ensures
        r == spec_pow(base, exp),
{
    let mut r: u16 = 1;
    let mut i: u16 = 0;
    while i < exp
        invariant
            i <= exp,
            r == spec_pow(base, i),
        decreases exp - i,
    {
        r = base.wrapping_mul(r);
        i += 1;
    }
    r
}

/// `x` with its bits rotated to the left by `by` places; 16 places are a full turn.
pub open spec fn spec_rotate_left(x: u16, by: u16) -> u16 {
    x.wrapping_shl((by % 16) as u32) | x.wrapping_shr((16 - by % 16) as u32)
}

/// Rotates the bits of `x` to the left.
#[verifier::when_used_as_spec(spec_rotate_left)]
pub fn rotate_left(x: u16, by: u16) -> (r: u16)
    ensures
        r == spec_rotate_left(x, by),
{
    x.wrapping_shl((by % 16) as u32) | x.wrapping_shr((16 - by % 16) as u32)
}

/// `x` with its bits rotated to the right by `by` places; 16 places are a full turn.
pub open spec fn spec_rotate_right(x: u16, by: u16) -> u16 {
    x.wrapping_shr((by % 16) as u32) | x.wrapping_shl((16 - by % 16) as u32)
}

/// Rotates the bits of `x` to the right.
#[verifier::when_used_as_spec(spec_rotate_right)]
pub fn rotate_right(x: u16, by: u16) -> (r: u16)
    ensures
        r == spec_rotate_right(x, by),
{
    x.wrapping_shr((by % 16) as u32) | x.wrapping_shl((16 - by % 16) as u32)
}

/// The instructions that compute a register from two registers.
pub open spec fn spec_is_register_form(op: Opcode) -> bool {
    matches!(
        op,
        Opcode::Add | Opcode::Sub | Opcode::SubRev | Opcode::Mul | Opcode::Div | Opcode::Mod
            | Opcode::And | Opcode::Or | Opcode::Xor | Opcode::Pow | Opcode::Left | Opcode::Right
            | Opcode::RotLeft | Opcode::RotRight
    )
}

/// The instructions that compute a register from a register and a constant.
pub open spec fn spec_is_immediate_form(op: Opcode) -> bool {
    matches!(
        op,
        Opcode::AddImm | Opcode::SubImm | Opcode::SubRevImm | Opcode::MulImm | Opcode::DivImm
            | Opcode::ModImm | Opcode::AndImm | Opcode::OrImm | Opcode::XorImm | Opcode::PowImm
            | Opcode::LeftImm | Opcode::RightImm | Opcode::RotLeftImm | Opcode::RotRightImm
    )
}

/// The arithmetic and logic instructions.
pub open spec fn spec_is_arithmetic(op: Opcode) -> bool {
    spec_is_register_form(op) || spec_is_immediate_form(op) || op == Opcode::Not
}

/// Whether an instruction takes its second input from a constant.
#[verifier::when_used_as_spec(spec_is_immediate_form)]
pub fn is_immediate_form(op: Opcode) -> (r: bool)
    ensures
        r == spec_is_immediate_form(op),
{
    matches!(
        op,
        Opcode::AddImm | Opcode::SubImm | Opcode::SubRevImm | Opcode::MulImm | Opcode::DivImm
            | Opcode::ModImm | Opcode::AndImm | Opcode::OrImm | Opcode::XorImm | Opcode::PowImm
            | Opcode::LeftImm | Opcode::RightImm | Opcode::RotLeftImm | Opcode::RotRightImm
    )
}

/// What an arithmetic or logic instruction computes from its two inputs. All arithmetic is
/// unsigned and wraps around at 16 bits; a shift or rotation goes by the low four bits of
/// its second input. `None` where the instruction divides by zero.
pub open spec fn spec_binary(op: Opcode, x: u16, y: u16) -> Option<u16> {
    match op {
        Opcode::Add | Opcode::AddImm => Some(x.wrapping_add(y)),
        Opcode::Sub | Opcode::SubImm => Some(x.wrapping_sub(y)),
        Opcode::SubRev | Opcode::SubRevImm => Some(y.wrapping_sub(x)),
        Opcode::Mul | Opcode::MulImm => Some(x.wrapping_mul(y)),
        Opcode::Div | Opcode::DivImm => if y == 0 {
            None
        } else {
            Some(x / y)
        },
        Opcode::Mod | Opcode::ModImm => if y == 0 {
            None
        } else {
            Some(x % y)
        },
        Opcode::And | Opcode::AndImm => Some(x & y),
        Opcode::Or | Opcode::OrImm => Some(x | y),
        Opcode::Xor | Opcode::XorImm => Some(x ^ y),
        Opcode::Pow | Opcode::PowImm => Some(spec_pow(x, y)),
        Opcode::Left | Opcode::LeftImm => Some(x.wrapping_shl(y as u32)),
        Opcode::Right | Opcode::RightImm => Some(x.wrapping_shr(y as u32)),
        Opcode::RotLeft | Opcode::RotLeftImm => Some(spec_rotate_left(x, y)),
        Opcode::RotRight | Opcode::RotRightImm => Some(spec_rotate_right(x, y)),
        _ => Some(x),
    }
}

/// Computes what an arithmetic or logic instruction computes.
pub fn binary(op: Opcode, x: u16, y: u16) -> (r: Option<u16>)
    ensures
        r == spec_binary(op, x, y),
{
    match op {
        Opcode::Add | Opcode::AddImm => Some(x.wrapping_add(y)),
        Opcode::Sub | Opcode::SubImm => Some(x.wrapping_sub(y)),
        Opcode::SubRev | Opcode::SubRevImm => Some(y.wrapping_sub(x)),
        Opcode::Mul | Opcode::MulImm => Some(x.wrapping_mul(y)),
        Opcode::Div | Opcode::DivImm => if y == 0 {
            None
        } else {
            Some(x / y)
        },
        Opcode::Mod | Opcode::ModImm => if y == 0 {
            None
        } else {
            Some(x % y)
        },
        Opcode::And | Opcode::AndImm => Some(x & y),
        Opcode::Or | Opcode::OrImm => Some(x | y),
        Opcode::Xor | Opcode::XorImm => Some(x ^ y),
        Opcode::Pow | Opcode::PowImm => Some(pow(x, y)),
        Opcode::Left | Opcode::LeftImm => Some(x.wrapping_shl(y as u32)),
        Opcode::Right | Opcode::RightImm => Some(x.wrapping_shr(y as u32)),
        Opcode::RotLeft | Opcode::RotLeftImm => Some(rotate_left(x, y)),
        Opcode::RotRight | Opcode::RotRightImm => Some(rotate_right(x, y)),
        _ => Some(x),
    }
}

impl Machine {
    /// An arithmetic or logic instruction. `Not a d` writes the complement of register `a`
    /// to register `d`. Every other one takes its first input from a register and its
    /// second from a register or from a constant, and writes the result to the register
    /// that its last operand names. Division by zero writes nothing and faults.
    pub open spec fn arithmetic(self, op: Opcode, ops: Seq<Parameter>) -> (Machine, Flow) {
        if op == Opcode::Not {
            (self.set_reg(ops[1].spec_byte(), !self.reg(ops[0].spec_byte())), Flow::Next)
        } else {
            let x = self.reg(ops[0].spec_byte());
            let y = if spec_is_immediate_form(op) {
                ops[1].spec_word()
            } else {
                self.reg(ops[1].spec_byte())
            };
            match spec_binary(op, x, y) {
                Some(v) => (self.set_reg(ops[2].spec_byte(), v), Flow::Next),
                None => self.fault(),
            }
        }
    }
}

impl Emulator {
    /// Executes an arithmetic or logic instruction.
    pub fn arithmetic(&mut self, op: Opcode, ops: &Vec<Parameter>) -> (flow: Flow)
        requires
            old(self).wf(),
            spec_is_arithmetic(op),
            ops@.len() == op.spec_params().len(),
        ensures
            (final(self)@, flow) == old(self)@.arithmetic(op, ops@),
            final(self).wf(),
    {
        if op == Opcode::Not {
            let v = !self.reg(ops[0].byte());
            self.set_reg(ops[1].byte(), v);
            Flow::Next
        } else {
            let x = self.reg(ops[0].byte());
            let y = if is_immediate_form(op) {
                ops[1].word()
            } else {
                self.reg(ops[1].byte())
            };
            match binary(op, x, y) {
                Some(v) => {
                    self.set_reg(ops[2].byte(), v);
                    Flow::Next
                },
                None => self.fault(),
            }
        }
    }
}

} // verus!
