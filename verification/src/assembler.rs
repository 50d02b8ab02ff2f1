use crate::isa::{Opcode, Param};
use crate::labels::{Label, LabelView};
use crate::lexeme::{same_word, spec_same_word, spec_upper, upper};
use vstd::prelude::*;
use vstd::string::StringSliceAdditionalSpecFns;
use vstd::utf8::encode_utf8;

verus! {

/// An operand as it is written in the source text.
#[derive(Clone, Copy, Debug, PartialEq, Eq, Structural)]
pub enum Parameter {
    /// `%name`: a register, by index.
    Register(u8),
    /// `$n` or `@n`: a constant.
    Constant(u16),
    /// `#n`: an address.
    Address(u32),
    /// `[%name]`: the address that a register holds.
    Pointer(u8),
}

impl Parameter {
    /// The operand as one byte: a register or pointer index, or the low byte of a number.
    pub open spec fn spec_byte(self) -> u8 {
        match self {
            Parameter::Register(r) => r,
            Parameter::Pointer(r) => r,
            Parameter::Constant(n) => (n % 0x100) as u8,
            Parameter::Address(n) => (n % 0x100) as u8,
        }
    }

    /// The operand as one byte.
    #[verifier::when_used_as_spec(spec_byte)]
    pub fn byte(self) -> (r: u8)
        ensures
            r == self.spec_byte(),
    {
        match self {
            Parameter::Register(r) => r,
            Parameter::Pointer(r) => r,
            Parameter::Constant(n) => (n % 0x100) as u8,
            Parameter::Address(n) => (n % 0x100) as u8,
        }
    }

    /// The operand as a word: a constant, the low word of an address, or an index.
    pub open spec fn spec_word(self) -> u16 {
        match self {
            Parameter::Register(r) => r as u16,
            Parameter::Pointer(r) => r as u16,
            Parameter::Constant(n) => n,
            Parameter::Address(n) => (n % 0x1_0000) as u16,
        }
    }

    /// The operand as a word.
    #[verifier::when_used_as_spec(spec_word)]
    pub fn word(self) -> (r: u16)
        ensures
            r == self.spec_word(),
    {
        match self {
            Parameter::Register(r) => r as u16,
            Parameter::Pointer(r) => r as u16,
            Parameter::Constant(n) => n,
            Parameter::Address(n) => (n % 0x1_0000) as u16,
        }
    }

    /// The operand as a number of 32 bits.
    pub open spec fn spec_long(self) -> u32 {
        match self {
            Parameter::Register(r) => r as u32,
            Parameter::Pointer(r) => r as u32,
            Parameter::Constant(n) => n as u32,
            Parameter::Address(n) => n,
        }
    }

    /// The operand as a number of 32 bits.
    #[verifier::when_used_as_spec(spec_long)]
    pub fn long(self) -> (r: u32)
        ensures
            r == self.spec_long(),
    {
        match self {
            Parameter::Register(r) => r as u32,
            Parameter::Pointer(r) => r as u32,
            Parameter::Constant(n) => n as u32,
            Parameter::Address(n) => n,
        }
    }
}

/// What the assembler rejects. `line` is the tag of the line in the script.
#[derive(Clone, Copy, Debug, PartialEq, Eq, Structural)]
pub enum AsmError {
    /// `!` with nothing after it.
    MissingLabelKind { line: usize },
    /// A label declaration without a name.
    MissingLabelName { line: usize },
    /// `! define` or `! const` without a value.
    MissingLabelValue { line: usize },
    /// A label whose name is taken.
    RedefinedLabel { line: usize },
    /// A label kind that the assembler does not know.
    InvalidLabelKind { line: usize },
    /// A trait without a value.
    MissingTraitValue { line: usize },
    /// A trait that the assembler does not know.
    InvalidTraitName { line: usize },
    /// The token at index `token` is neither a known label nor a numeric literal.
    InvalidNumber { line: usize, token: usize },
    /// The token at index `token` names no register.
    InvalidRegister { line: usize, token: usize },
    /// No operand can start with the token at index `token`, or the operand is cut short.
    InvalidOperand { line: usize, token: usize },
    /// `*` with nothing after it.
    MissingMnemonic { line: usize },
    /// The instruction takes `expected` operands and `found` were written.
    OperandCount { line: usize, found: usize, expected: usize },
    /// The operand at `position` is not of the kind `kind` that its slot takes.
    OperandType { line: usize, position: usize, kind: Param },
    /// No instruction of that name takes these operands.
    InvalidInstruction { line: usize },
}

impl AsmError {
    /// The tag of the line that the error was found on.
    pub open spec fn spec_line(self) -> usize {
        match self {
            AsmError::MissingLabelKind { line } => line,
            AsmError::MissingLabelName { line } => line,
            AsmError::MissingLabelValue { line } => line,
            AsmError::RedefinedLabel { line } => line,
            AsmError::InvalidLabelKind { line } => line,
            AsmError::MissingTraitValue { line } => line,
            AsmError::InvalidTraitName { line } => line,
            AsmError::InvalidNumber { line, .. } => line,
            AsmError::InvalidRegister { line, .. } => line,
            AsmError::InvalidOperand { line, .. } => line,
            AsmError::MissingMnemonic { line } => line,
            AsmError::OperandCount { line, .. } => line,
            AsmError::OperandType { line, .. } => line,
            AsmError::InvalidInstruction { line } => line,
        }
    }

    /// The tag of the line that the error was found on.
    #[verifier::when_used_as_spec(spec_line)]
    pub fn line(self) -> (r: usize)
        ensures
            r == self.spec_line(),
    {
        match self {
            AsmError::MissingLabelKind { line } => line,
            AsmError::MissingLabelName { line } => line,
            AsmError::MissingLabelValue { line } => line,
            AsmError::RedefinedLabel { line } => line,
            AsmError::InvalidLabelKind { line } => line,
            AsmError::MissingTraitValue { line } => line,
            AsmError::InvalidTraitName { line } => line,
            AsmError::InvalidNumber { line, .. } => line,
            AsmError::InvalidRegister { line, .. } => line,
            AsmError::InvalidOperand { line, .. } => line,
            AsmError::MissingMnemonic { line } => line,
            AsmError::OperandCount { line, .. } => line,
            AsmError::OperandType { line, .. } => line,
            AsmError::InvalidInstruction { line } => line,
        }
    }
}

/// One entry of the stream that the emitter reads.
#[derive(Debug)]
pub enum Item {
    /// An instruction with its operands and the tag of its source line.
    Instruction(Opcode, Vec<Parameter>, usize),
    /// A label or trait, where it was declared.
    Label(Label),
}

/// What an item holds, with the operands as a sequence and a label as its view.
pub enum ItemView {
    /// An instruction, its operands and the tag of its source line.
    Instruction(Opcode, Seq<Parameter>, usize),
    /// A label or trait.
    Label(LabelView),
}

impl View for Item {
    type V = ItemView;

    open spec fn view(&self) -> ItemView {
        match self {
            Item::Instruction(op, operands, line) => ItemView::Instruction(*op, operands@, *line),
            Item::Label(label) => ItemView::Label(label@),
        }
    }
}

/// The views of a stream of items.
pub open spec fn items_view(items: Seq<Item>) -> Seq<ItemView> {
    Seq::new(items.len(), |i: int| items[i]@)
}

/// The bytes of a word as it is written in the source.
pub open spec fn written(s: &str) -> Seq<u8> {
    s.spec_bytes()
}

impl Opcode {
    /// The mnemonic as bytes.
    pub open spec fn name_bytes(self) -> Seq<u8> {
        encode_utf8(self.spec_name())
    }
}

/// The index of the register that a token names: `rda` to `rdz` are 0 to 25 and `acc` is 26,
/// in either case of the letters.
pub open spec fn spec_register_index(token: Seq<u8>) -> Option<u8> {
    if token.len() != 3 {
        None
    } else if spec_upper(token[0]) == 0x52 && spec_upper(token[1]) == 0x44 && 0x41 <= spec_upper(
        token[2],
    ) <= 0x5a {
        Some((spec_upper(token[2]) - 0x41) as u8)
    } else if spec_upper(token[0]) == 0x41 && spec_upper(token[1]) == 0x43 && spec_upper(token[2])
        == 0x43 {
        Some(26)
    } else {
        None
    }
}

/// Looks a register up by name.
pub fn register_index(token: &str) -> (r: Option<u8>)
    ensures
        r == spec_register_index(token.spec_bytes()),
{
    let bytes = token.as_bytes();
    if bytes.len() != 3 {
        return None;
    }
    let a = upper(bytes[0]);
    let b = upper(bytes[1]);
    let c = upper(bytes[2]);
    if a == 0x52 && b == 0x44 && 0x41 <= c && c <= 0x5a {
        Some(c - 0x41)
    } else if a == 0x41 && b == 0x43 && c == 0x43 {
        Some(26)
    } else {
        None
    }
}

/// Whether a written operand is of the kind that an operand slot takes.
pub open spec fn spec_kind_matches(param: Param, operand: Parameter) -> bool {
    match param {
        Param::Const8 | Param::Const16 => operand is Constant,
        Param::Addr16 | Param::Addr32 => operand is Address,
        Param::Reg => operand is Register,
        Param::Ptr => operand is Pointer,
    }
}

/// Whether a written operand is of the kind that an operand slot takes.
#[verifier::when_used_as_spec(spec_kind_matches)]
pub fn kind_matches(param: Param, operand: Parameter) -> (r: bool)
    ensures
        r == spec_kind_matches(param, operand),
{
    match param {
        Param::Const8 | Param::Const16 => match operand {
            Parameter::Constant(_) => true,
            _ => false,
        },
        Param::Addr16 | Param::Addr32 => match operand {
            Parameter::Address(_) => true,
            _ => false,
        },
        Param::Reg => match operand {
            Parameter::Register(_) => true,
            _ => false,
        },
        Param::Ptr => match operand {
            Parameter::Pointer(_) => true,
            _ => false,
        },
    }
}

/// Checks the operand at position `i` against the kind `param`. Returns whether it is
/// invalid, and in that case records the error.
pub fn match_valid(
    errors: &mut Vec<AsmError>,
    param: &Param,
    parameters: &Vec<Parameter>,
    i: usize,
    native_line_number: usize,
) -> (invalid: bool)
    requires
        i < parameters.len(),
    ensures
        invalid == !spec_kind_matches(*param, parameters[i as int]),
        final(errors)@ == if invalid {
            old(errors)@.push(
                (AsmError::OperandType { line: native_line_number, position: i, kind: *param }),
            )
        } else {
            old(errors)@
        },
{
    if kind_matches(*param, parameters[i]) {
        false
    } else {
        errors.push(
            AsmError::OperandType { line: native_line_number, position: i, kind: *param },
        );
        true
    }
}

/// Whether the written operands fit an instruction's operand slots in number and in kinds.
pub open spec fn spec_signature_matches(params: Seq<Param>, operands: Seq<Parameter>) -> bool {
    params.len() == operands.len() && forall|i: int|
        0 <= i < params.len() ==> spec_kind_matches(params[i], operands[i])
}

/// Whether the written operands fit the operand slots in number and in kinds.
pub fn signature_matches(params: &Vec<Param>, operands: &Vec<Parameter>) -> (r: bool)
    ensures
        r == spec_signature_matches(params@, operands@),
{
    if params.len() != operands.len() {
        return false;
    }
    let mut i: usize = 0;
    while i < params.len()
        invariant
            i <= params.len(),
            params.len() == operands.len(),
            forall|j: int| 0 <= j < i ==> spec_kind_matches(params@[j], operands@[j]),
        decreases params.len() - i,
    {
        if !kind_matches(params[i], operands[i]) {
            return false;
        }
        i += 1;
    }
    true
}

/// The instruction with the lowest opcode below `bound` whose mnemonic is `mnemonic`, the
/// case of letters ignored.
pub open spec fn spec_find_instruction_below(mnemonic: Seq<u8>, bound: int) -> Option<Opcode>
    decreases bound,
{
    if bound <= 0 {
        None
    } else {
        match spec_find_instruction_below(mnemonic, bound - 1) {
            Some(op) => Some(op),
            None => match Opcode::spec_from_code((bound - 1) as u8) {
                Some(op) => if spec_same_word(op.name_bytes(), mnemonic) {
                    Some(op)
                } else {
                    None
                },
                None => None,
            },
        }
    }
}

/// The instruction that a mnemonic names.
pub open spec fn spec_find_instruction(mnemonic: Seq<u8>) -> Option<Opcode> {
    spec_find_instruction_below(mnemonic, 256)
}

proof fn lemma_find_instruction_stays(mnemonic: Seq<u8>, found: int, bound: int)
    requires
        0 <= found <= bound,
        spec_find_instruction_below(mnemonic, found) is Some,
    ensures
        spec_find_instruction_below(mnemonic, bound) == spec_find_instruction_below(
            mnemonic,
            found,
        ),
    decreases bound - found,
{
    if found < bound {
        lemma_find_instruction_stays(mnemonic, found, bound - 1);
    }
}

/// Looks an instruction up by its mnemonic.
pub fn find_instruction(mnemonic: &str) -> (r: Option<Opcode>)
    ensures
        r == spec_find_instruction(mnemonic.spec_bytes()),
{
    let mut code: u16 = 0;
    while code < 256
        invariant
            code <= 256,
            spec_find_instruction_below(mnemonic.spec_bytes(), code as int) is None,
        decreases 256 - code,
    {
        match Opcode::from_code(code as u8) {
            Some(op) => {
                if same_word(op.name(), mnemonic) {
                    proof {
                        lemma_find_instruction_stays(mnemonic.spec_bytes(), code + 1, 256);
                    }
                    return Some(op);
                }
            },
            None => {},
        }
        code += 1;
    }
    None
}

} // verus!
