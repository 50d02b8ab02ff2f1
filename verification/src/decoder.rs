use crate::assembler::{spec_kind_matches, Parameter};
use crate::emitter::{
    lemma_instruction_bytes_len, lemma_operands_fit_slot, spec_encode, spec_first_mismatch,
    spec_instruction_bytes, spec_operand_bytes, spec_pack, spec_padded, spec_positions, spec_word,
};
use crate::isa::{params_width, Opcode, Param};
use vstd::prelude::*;

verus! {

/// The six bytes of a slot: of each word the high byte, then the low byte.
pub open spec fn spec_slot_bytes(words: Seq<u16>) -> Seq<u8> {
    seq![
        (words[0] / 256) as u8,
        (words[0] % 256) as u8,
        (words[1] / 256) as u8,
        (words[1] % 256) as u8,
        (words[2] / 256) as u8,
        (words[2] % 256) as u8,
    ]
}

/// The operand of a kind whose bytes start at `at`, the low byte first.
pub open spec fn spec_decode_operand(param: Param, bytes: Seq<u8>, at: int) -> Parameter {
    match param {
        Param::Reg => Parameter::Register(spec_padded(bytes, at)),
        Param::Ptr => Parameter::Pointer(spec_padded(bytes, at)),
        Param::Const8 => Parameter::Constant(spec_padded(bytes, at) as u16),
        Param::Const16 => Parameter::Constant(
            spec_word(spec_padded(bytes, at + 1), spec_padded(bytes, at)),
        ),
        Param::Addr16 => Parameter::Address(
            spec_word(spec_padded(bytes, at + 1), spec_padded(bytes, at)) as u32,
        ),
        Param::Addr32 => Parameter::Address(
            (spec_padded(bytes, at) + 0x100 * spec_padded(bytes, at + 1) + 0x1_0000 * spec_padded(
                bytes,
                at + 2,
            ) + 0x100_0000 * spec_padded(bytes, at + 3)) as u32,
        ),
    }
}

/// Where the bytes of the operand at position `i` start in a slot: behind the opcode byte
/// and the operands before it.
pub open spec fn spec_operand_offset(params: Seq<Param>, i: int) -> int {
    1 + params_width(params.take(i)) as int
}

/// The operands that a slot holds for an instruction with the operand kinds `params`.
pub open spec fn spec_decode_operands(words: Seq<u16>, params: Seq<Param>) -> Seq<Parameter> {
    Seq::new(
        params.len(),
        |i: int| spec_decode_operand(params[i], spec_slot_bytes(words), spec_operand_offset(params, i)),
    )
}

/// The instruction that a slot holds, by the high byte of its first word.
pub open spec fn spec_decode_opcode(words: Seq<u16>) -> Option<Opcode> {
    Opcode::spec_from_code((words[0] / 256) as u8)
}

fn decode_operand(param: Param, bytes: &Vec<u8>, at: usize) -> (r: Parameter)
    requires
        at <= 0xffff,
    ensures
        r == spec_decode_operand(param, bytes@, at as int),
{
    let b0 = if at < bytes.len() {
        bytes[at]
    } else {
        0
    };
    let b1 = if at + 1 < bytes.len() {
        bytes[at + 1]
    } else {
        0
    };
    let b2 = if at + 2 < bytes.len() {
        bytes[at + 2]
    } else {
        0
    };
    let b3 = if at + 3 < bytes.len() {
        bytes[at + 3]
    } else {
        0
    };
    match param {
        Param::Reg => Parameter::Register(b0),
        Param::Ptr => Parameter::Pointer(b0),
        Param::Const8 => Parameter::Constant(b0 as u16),
        Param::Const16 => Parameter::Constant((b1 as u16) * 256 + (b0 as u16)),
        Param::Addr16 => Parameter::Address(((b1 as u16) * 256 + (b0 as u16)) as u32),
        Param::Addr32 => Parameter::Address(
            (b0 as u32) + 0x100 * (b1 as u32) + 0x1_0000 * (b2 as u32) + 0x100_0000 * (b3 as u32),
        ),
    }
}

/// Reads the operands of an instruction out of its slot.
pub fn decode_operands(words: &[u16; 3], params: &Vec<Param>) -> (operands: Vec<Parameter>)
    requires
        params@.len() <= 0x1000,
    ensures
        operands@ == spec_decode_operands(words@, params@),
{
    let mut bytes: Vec<u8> = Vec::new();
    bytes.push((words[0] / 256) as u8);
    bytes.push((words[0] % 256) as u8);
    bytes.push((words[1] / 256) as u8);
    bytes.push((words[1] % 256) as u8);
    bytes.push((words[2] / 256) as u8);
    bytes.push((words[2] % 256) as u8);
    assert(bytes@ =~= spec_slot_bytes(words@));
    let mut operands: Vec<Parameter> = Vec::new();
    let mut at: usize = 1;
    let mut i: usize = 0;
    assert(params@.take(0).len() == 0);
    while i < params.len()
        invariant
            i <= params.len(),
            params@.len() <= 0x1000,
            bytes@ == spec_slot_bytes(words@),
            at == spec_operand_offset(params@, i as int),
            at <= 1 + 4 * i,
            operands@.len() == i,
            forall|j: int|
                0 <= j < i ==> operands@[j] == spec_decode_operand(
                    params@[j],
                    bytes@,
                    spec_operand_offset(params@, j),
                ),
        decreases params.len() - i,
    {
        operands.push(decode_operand(params[i], &bytes, at));
        proof {
            assert(params@.take(i + 1).drop_last() =~= params@.take(i as int));
            assert(params@.take(i + 1).last() == params@[i as int]);
        }
        at = at + params[i].width();
        i += 1;
    }
    assert(operands@ =~= spec_decode_operands(words@, params@));
    operands
}

/// Reads an instruction and its operands out of a slot; `None` where the opcode byte names
/// no instruction.
pub fn decode(words: &[u16; 3]) -> (r: Option<(Opcode, Vec<Parameter>)>)
    ensures
        match r {
            Some((op, operands)) => spec_decode_opcode(words@) == Some(op) && operands@
                == spec_decode_operands(words@, op.spec_params()),
            None => spec_decode_opcode(words@) is None,
        },
{
    match Opcode::from_code((words[0] / 256) as u8) {
        Some(op) => {
            let params = op.params();
            proof {
                lemma_operands_fit_slot(op);
            }
            let operands = decode_operands(words, &params);
            Some((op, operands))
        },
        None => None,
    }
}

/// Whether an operand is of the kind of its slot and small enough to be encoded whole: a
/// constant for an 8-bit slot below 256, an address for a 16-bit slot below 65536.
pub open spec fn spec_operand_fits(param: Param, operand: Parameter) -> bool {
    &&& spec_kind_matches(param, operand)
    &&& match (param, operand) {
        (Param::Const8, Parameter::Constant(n)) => n < 0x100,
        (Param::Addr16, Parameter::Address(n)) => n < 0x1_0000,
        _ => true,
    }
}

/// Whether the operands are as many as the instruction has slots and each fits its slot.
pub open spec fn spec_operands_fit(op: Opcode, operands: Seq<Parameter>) -> bool {
    &&& operands.len() == op.spec_params().len()
    &&& forall|i: int|
        0 <= i < operands.len() ==> spec_operand_fits(#[trigger] op.spec_params()[i], operands[i])
}

proof fn lemma_fit_no_mismatch(op: Opcode, operands: Seq<Parameter>, n: int)
    requires
        spec_operands_fit(op, operands),
        0 <= n <= operands.len(),
    ensures
        spec_first_mismatch(op.spec_params(), operands, n) is None,
    decreases n,
{
    if n > 0 {
        lemma_fit_no_mismatch(op, operands, n - 1);
        assert(spec_operand_fits(op.spec_params()[n - 1], operands[n - 1]));
    }
}

/// The bytes of the operand at position `i` stand at its offset, whatever follows.
proof fn lemma_operand_bytes_in_place(op: Opcode, operands: Seq<Parameter>, i: int, n: int)
    requires
        spec_operands_fit(op, operands),
        0 <= i < n <= operands.len(),
    ensures
        ({
            let bytes = spec_instruction_bytes(op, operands, n);
            let own = spec_operand_bytes(op.spec_params()[i], operands[i])->0;
            let at = spec_operand_offset(op.spec_params(), i);
            &&& own.len() == op.spec_params()[i].spec_width()
            &&& at + own.len() <= bytes.len()
            &&& forall|j: int| 0 <= j < own.len() ==> bytes[at + j] == own[j]
        }),
    decreases n,
{
    let params = op.spec_params();
    assert(spec_operand_fits(params[i], operands[i]));
    lemma_fit_no_mismatch(op, operands, n - 1);
    lemma_instruction_bytes_len(op, operands, n - 1);
    assert(spec_operand_fits(params[n - 1], operands[n - 1]));
    if i < n - 1 {
        lemma_operand_bytes_in_place(op, operands, i, n - 1);
    }
}

/// A slot's bytes are the bytes that were packed into it.
proof fn lemma_pack_slot_bytes(bytes: Seq<u8>)
    ensures
        forall|j: int| 0 <= j < 6 ==> spec_slot_bytes(spec_pack(bytes))[j] == spec_padded(bytes, j),
{
}

/// An operand that fits its slot is read back from its own bytes.
proof fn lemma_decode_own_bytes(param: Param, operand: Parameter, slot: Seq<u8>, at: int)
    requires
        spec_operand_fits(param, operand),
        forall|j: int|
            0 <= j < spec_operand_bytes(param, operand)->0.len() ==> spec_padded(slot, at + j)
                == spec_operand_bytes(param, operand)->0[j],
    ensures
        spec_decode_operand(param, slot, at) == operand,
{
    let own = spec_operand_bytes(param, operand)->0;
    match (param, operand) {
        (Param::Const16, Parameter::Constant(v)) => {
            assert(spec_padded(slot, at + 0) == own[0]);
            assert(spec_padded(slot, at + 1) == own[1]);
        },
        (Param::Const8, Parameter::Constant(v)) => {
            assert(spec_padded(slot, at + 0) == own[0]);
        },
        (Param::Addr32, Parameter::Address(v)) => {
            assert(spec_padded(slot, at + 0) == own[0]);
            assert(spec_padded(slot, at + 1) == own[1]);
            assert(spec_padded(slot, at + 2) == own[2]);
            assert(spec_padded(slot, at + 3) == own[3]);
        },
        (Param::Addr16, Parameter::Address(v)) => {
            assert(spec_padded(slot, at + 0) == own[0]);
            assert(spec_padded(slot, at + 1) == own[1]);
        },
        (Param::Reg, Parameter::Register(r)) => {
            assert(spec_padded(slot, at + 0) == own[0]);
        },
        (Param::Ptr, Parameter::Pointer(r)) => {
            assert(spec_padded(slot, at + 0) == own[0]);
        },
        _ => {},
    }
}

/// The operand at position `i` is read back from the slot that was packed from an
/// instruction's bytes.
proof fn lemma_decode_position(op: Opcode, operands: Seq<Parameter>, i: int)
    requires
        spec_operands_fit(op, operands),
        0 <= i < operands.len(),
    ensures
        spec_decode_operand(
            op.spec_params()[i],
            spec_slot_bytes(
                spec_pack(spec_instruction_bytes(op, operands, operands.len() as int)),
            ),
            spec_operand_offset(op.spec_params(), i),
        ) == operands[i],
{
    let params = op.spec_params();
    let n = operands.len() as int;
    let bytes = spec_instruction_bytes(op, operands, n);
    let slot = spec_slot_bytes(spec_pack(bytes));
    lemma_pack_slot_bytes(bytes);
    lemma_operand_bytes_in_place(op, operands, i, n);
    lemma_fit_no_mismatch(op, operands, n);
    lemma_instruction_bytes_len(op, operands, n);
    lemma_operands_fit_slot(op);
    assert(params.take(n) =~= params);
    let at = spec_operand_offset(params, i);
    let own = spec_operand_bytes(params[i], operands[i])->0;
    assert(spec_operand_fits(params[i], operands[i]));
    assert forall|j: int| 0 <= j < own.len() implies spec_padded(slot, at + j) == own[j] by {
        assert(bytes[at + j] == own[j]);
        assert(slot[at + j] == spec_padded(bytes, at + j));
    }
    lemma_decode_own_bytes(params[i], operands[i], slot, at);
}

/// The slot that was packed from an instruction's bytes selects the instruction.
proof fn lemma_decode_opcode(op: Opcode, operands: Seq<Parameter>, n: int)
    requires
        0 <= n,
    ensures
        spec_decode_opcode(spec_pack(spec_instruction_bytes(op, operands, n))) == Some(op),
{
    let bytes = spec_instruction_bytes(op, operands, n);
    lemma_first_byte(op, operands, n);
    lemma_pack_slot_bytes(bytes);
    let words = spec_pack(bytes);
    assert(spec_slot_bytes(words)[0] == spec_padded(bytes, 0));
    assert((words[0] / 256) as u8 == op.spec_code());
    lemma_code_round_trip(op);
}

/// Decoding undoes encoding: for every instruction and operands that fit its slots, the
/// slot that the emitter writes has three words, holds the instruction's opcode and decodes
/// to those operands.
pub proof fn lemma_encode_decode_round_trip(op: Opcode, operands: Seq<Parameter>)
    requires
        spec_operands_fit(op, operands),
    ensures
        spec_encode(op, operands) is Ok,
        spec_encode(op, operands)->Ok_0.len() == 3,
        spec_decode_opcode(spec_encode(op, operands)->Ok_0) == Some(op),
        spec_decode_operands(spec_encode(op, operands)->Ok_0, op.spec_params()) == operands,
{
    let params = op.spec_params();
    let n = params.len() as int;
    lemma_fit_no_mismatch(op, operands, n);
    assert(spec_positions(params, operands) == n);
    let bytes = spec_instruction_bytes(op, operands, n);
    let words = spec_pack(bytes);
    assert(spec_encode(op, operands) == Ok::<Seq<u16>, int>(words));
    lemma_decode_opcode(op, operands, n);
    let decoded = spec_decode_operands(words, params);
    assert forall|i: int| 0 <= i < n implies decoded[i] == operands[i] by {
        lemma_decode_position(op, operands, i);
    }
    assert(decoded =~= operands);
}

/// The first byte of an instruction's bytes is its opcode.
proof fn lemma_first_byte(op: Opcode, operands: Seq<Parameter>, n: int)
    requires
        0 <= n,
    ensures
        spec_instruction_bytes(op, operands, n).len() >= 1,
        spec_instruction_bytes(op, operands, n)[0] == op.spec_code(),
    decreases n,
{
    if n > 0 {
        lemma_first_byte(op, operands, n - 1);
    }
}

/// Every instruction is the one that its opcode byte selects: no two share a byte.
pub proof fn lemma_code_round_trip(op: Opcode)
    ensures
        Opcode::spec_from_code(op.spec_code()) == Some(op),
{
}

/// An opcode byte that selects an instruction is that instruction's byte.
pub proof fn lemma_from_code_exact(b: u8)
    ensures
        Opcode::spec_from_code(b) is Some ==> Opcode::spec_from_code(b)->0.spec_code() == b,
{
}

} // verus!
