use crate::assembler::{
    find_instruction, items_view, match_valid, register_index, signature_matches,
    spec_find_instruction, spec_kind_matches, spec_register_index, spec_signature_matches, written,
    AsmError, Item, ItemView, Parameter,
};
use crate::isa::{Opcode, Param};
use crate::labels::{
    find_label, labels_view, resolve_number, spec_find_label, spec_resolve_number, Label,
    LabelView,
};
use crate::lexeme::{parse_number, same_text, same_word, spec_parse_number, spec_same_word};
use crate::text::{script_bytes, strs_bytes};
use vstd::prelude::*;
use vstd::string::StringSliceAdditionalSpecFns;

verus! {

/// Number of surface mnemonics that stand for more than one instruction.
pub const PSEUDO_COUNT: usize = 12;

/// The instructions that the pseudo-instruction at `index` can stand for, in the order in
/// which they are tried. The first one gives the pseudo-instruction its name.
pub open spec fn spec_pseudo(index: int) -> Seq<Opcode> {
    if index == 0 {
        seq![Opcode::Add, Opcode::AddImm]
    } else if index == 1 {
        seq![Opcode::Sub, Opcode::SubImm]
    } else if index == 2 {
        seq![Opcode::Mul, Opcode::MulImm]
    } else if index == 3 {
        seq![Opcode::Div, Opcode::DivImm]
    } else if index == 4 {
        seq![Opcode::Mod, Opcode::ModImm]
    } else if index == 5 {
        seq![Opcode::Mov, Opcode::MovR]
    } else if index == 6 {
        seq![Opcode::Ldi, Opcode::LdiR, Opcode::LdiPtr]
    } else if index == 7 {
        seq![Opcode::MemCpy, Opcode::MemCpyPtr]
    } else if index == 8 {
        seq![Opcode::MemCompare, Opcode::MemComparePtr]
    } else if index == 9 {
        seq![Opcode::Sto, Opcode::StoPtr, Opcode::StoPtrOff]
    } else if index == 10 {
        seq![Opcode::Get, Opcode::GetPtr, Opcode::GetPtrOff]
    } else if index == 11 {
        seq![Opcode::Psh, Opcode::PshCon, Opcode::PshPtr]
    } else {
        Seq::empty()
    }
}

/// The instructions that the pseudo-instruction at `index` can stand for.
pub fn pseudo(index: usize) -> (r: Vec<Opcode>)
    ensures
        r@ == spec_pseudo(index as int),
        index < PSEUDO_COUNT ==> r@.len() > 0,
{
    if index == 0 {
        vec![Opcode::Add, Opcode::AddImm]
    } else if index == 1 {
        vec![Opcode::Sub, Opcode::SubImm]
    } else if index == 2 {
        vec![Opcode::Mul, Opcode::MulImm]
    } else if index == 3 {
        vec![Opcode::Div, Opcode::DivImm]
    } else if index == 4 {
        vec![Opcode::Mod, Opcode::ModImm]
    } else if index == 5 {
        vec![Opcode::Mov, Opcode::MovR]
    } else if index == 6 {
        vec![Opcode::Ldi, Opcode::LdiR, Opcode::LdiPtr]
    } else if index == 7 {
        vec![Opcode::MemCpy, Opcode::MemCpyPtr]
    } else if index == 8 {
        vec![Opcode::MemCompare, Opcode::MemComparePtr]
    } else if index == 9 {
        vec![Opcode::Sto, Opcode::StoPtr, Opcode::StoPtrOff]
    } else if index == 10 {
        vec![Opcode::Get, Opcode::GetPtr, Opcode::GetPtrOff]
    } else if index == 11 {
        vec![Opcode::Psh, Opcode::PshCon, Opcode::PshPtr]
    } else {
        Vec::new()
    }
}

/// Index of the first pseudo-instruction below `bound` with the name `mnemonic`, the case
/// of letters ignored.
pub open spec fn spec_find_pseudo_below(mnemonic: Seq<u8>, bound: int) -> Option<int>
    decreases bound,
{
    if bound <= 0 {
        None
    } else {
        match spec_find_pseudo_below(mnemonic, bound - 1) {
            Some(i) => Some(i),
            None => if spec_same_word(spec_pseudo(bound - 1)[0].name_bytes(), mnemonic) {
                Some(bound - 1)
            } else {
                None
            },
        }
    }
}

/// The first of `candidates[..bound]` whose operand slots the written operands fit.
pub open spec fn spec_first_fit(candidates: Seq<Opcode>, operands: Seq<Parameter>, bound: int)
    -> Option<Opcode>
    decreases bound,
{
    if bound <= 0 {
        None
    } else {
        match spec_first_fit(candidates, operands, bound - 1) {
            Some(op) => Some(op),
            None => if spec_signature_matches(candidates[bound - 1].spec_params(), operands) {
                Some(candidates[bound - 1])
            } else {
                None
            },
        }
    }
}

/// The instruction that a surface mnemonic stands for with the given operands: of the first
/// pseudo-instruction of that name, the first instruction that the operands fit.
pub open spec fn spec_pseudo_match(mnemonic: Seq<u8>, operands: Seq<Parameter>) -> Option<
    Opcode,
> {
    match spec_find_pseudo_below(mnemonic, PSEUDO_COUNT as int) {
        Some(i) => spec_first_fit(spec_pseudo(i), operands, spec_pseudo(i).len() as int),
        None => None,
    }
}

proof fn lemma_find_pseudo_stays(mnemonic: Seq<u8>, found: int, bound: int)
    requires
        0 <= found <= bound,
        spec_find_pseudo_below(mnemonic, found) is Some,
    ensures
        spec_find_pseudo_below(mnemonic, bound) == spec_find_pseudo_below(mnemonic, found),
    decreases bound - found,
{
    if found < bound {
        lemma_find_pseudo_stays(mnemonic, found, bound - 1);
    }
}

proof fn lemma_first_fit_stays(
    candidates: Seq<Opcode>,
    operands: Seq<Parameter>,
    found: int,
    bound: int,
)
    requires
        0 <= found <= bound,
        spec_first_fit(candidates, operands, found) is Some,
    ensures
        spec_first_fit(candidates, operands, bound) == spec_first_fit(candidates, operands, found),
    decreases bound - found,
{
    if found < bound {
        lemma_first_fit_stays(candidates, operands, found, bound - 1);
    }
}

fn first_fit(candidates: &Vec<Opcode>, operands: &Vec<Parameter>) -> (r: Option<Opcode>)
    ensures
        r == spec_first_fit(candidates@, operands@, candidates@.len() as int),
{
    let mut i: usize = 0;
    while i < candidates.len()
        invariant
            i <= candidates.len(),
            spec_first_fit(candidates@, operands@, i as int) is None,
        decreases candidates.len() - i,
    {
        let params = candidates[i].params();
        if signature_matches(&params, operands) {
            proof {
                lemma_first_fit_stays(candidates@, operands@, i + 1, candidates@.len() as int);
            }
            return Some(candidates[i]);
        }
        i += 1;
    }
    None
}

/// Picks the instruction that a surface mnemonic stands for with the given operands.
pub fn pseudo_match(mnemonic: &str, operands: &Vec<Parameter>) -> (r: Option<Opcode>)
    ensures
        r == spec_pseudo_match(mnemonic.spec_bytes(), operands@),
{
    let mut i: usize = 0;
    while i < PSEUDO_COUNT
        invariant
            i <= PSEUDO_COUNT,
            spec_find_pseudo_below(mnemonic.spec_bytes(), i as int) is None,
        decreases PSEUDO_COUNT - i,
    {
        let candidates = pseudo(i);
        if same_word(candidates[0].name(), mnemonic) {
            proof {
                lemma_find_pseudo_stays(mnemonic.spec_bytes(), i + 1, PSEUDO_COUNT as int);
            }
            return first_fit(&candidates, operands);
        }
        i += 1;
    }
    None
}

/// The errors in the kinds of the first `bound` operands, in order.
pub open spec fn spec_type_errors(
    params: Seq<Param>,
    operands: Seq<Parameter>,
    line: usize,
    bound: int,
) -> Seq<AsmError>
    decreases bound,
{
    if bound <= 0 {
        Seq::empty()
    } else {
        let earlier = spec_type_errors(params, operands, line, bound - 1);
        if spec_kind_matches(params[bound - 1], operands[bound - 1]) {
            earlier
        } else {
            earlier.push(
                (AsmError::OperandType {
                    line,
                    position: (bound - 1) as usize,
                    kind: params[bound - 1],
                }),
            )
        }
    }
}

/// What is wrong with the operands written for an instruction: first their number, then the
/// kind of each operand that has a slot.
pub open spec fn spec_operand_errors(op: Opcode, operands: Seq<Parameter>, line: usize) -> Seq<
    AsmError,
> {
    let params = op.spec_params();
    let count = if params.len() != operands.len() {
        seq![
            (AsmError::OperandCount {
                line,
                found: operands.len() as usize,
                expected: params.len() as usize,
            }),
        ]
    } else {
        Seq::empty()
    };
    let checked = if params.len() <= operands.len() {
        params.len()
    } else {
        operands.len()
    };
    count + spec_type_errors(params, operands, line, checked as int)
}

/// Resolves `mnemonic` against the instruction table and checks the operands. A known
/// instruction is appended to `instructions` with its operands, whatever the check finds,
/// and `cont` is set; what the check finds is appended to `errors`. An unknown mnemonic
/// changes nothing.
pub fn handle_instruction(
    errors: &mut Vec<AsmError>,
    cont: &mut bool,
    mnemonic: &str,
    native_line_number: usize,
    parameters: Vec<Parameter>,
    instructions: &mut Vec<Item>,
)
    ensures
        match spec_find_instruction(mnemonic.spec_bytes()) {
            Some(op) => {
                &&& *final(cont)
                &&& final(errors)@ == old(errors)@ + spec_operand_errors(
                    op,
                    parameters@,
                    native_line_number,
                )
                &&& items_view(final(instructions)@) == items_view(old(instructions)@).push(
                    ItemView::Instruction(op, parameters@, native_line_number),
                )
            },
            None => {
                &&& *final(cont) == *old(cont)
                &&& final(errors)@ == old(errors)@
                &&& items_view(final(instructions)@) == items_view(old(instructions)@)
            },
        },
{
    match find_instruction(mnemonic) {
        Some(op) => {
            let params = op.params();
            if params.len() != parameters.len() {
                errors.push(
                    AsmError::OperandCount {
                        line: native_line_number,
                        found: parameters.len(),
                        expected: params.len(),
                    },
                );
            }
            let checked = if params.len() <= parameters.len() {
                params.len()
            } else {
                parameters.len()
            };
            let ghost base = errors@;
            let mut i: usize = 0;
            assert(errors@ =~= base + spec_type_errors(
                params@,
                parameters@,
                native_line_number,
                0,
            ));
            while i < checked
                invariant
                    i <= checked,
                    checked <= params.len(),
                    checked <= parameters.len(),
                    errors@ == base + spec_type_errors(
                        params@,
                        parameters@,
                        native_line_number,
                        i as int,
                    ),
                decreases checked - i,
            {
                let ghost before = errors@;
                let invalid = match_valid(errors, &params[i], &parameters, i, native_line_number);
                proof {
                    let earlier = spec_type_errors(
                        params@,
                        parameters@,
                        native_line_number,
                        i as int,
                    );
                    if invalid {
                        assert(before.push(
                            (AsmError::OperandType {
                                line: native_line_number,
                                position: i,
                                kind: params@[i as int],
                            }),
                        ) =~= base + earlier.push(
                            (AsmError::OperandType {
                                line: native_line_number,
                                position: i,
                                kind: params@[i as int],
                            }),
                        ));
                    }
                }
                i += 1;
            }
            proof {
                assert(items_view(
                    instructions@.push(Item::Instruction(op, parameters, native_line_number)),
                ) =~= items_view(instructions@).push(
                    ItemView::Instruction(op, parameters@, native_line_number),
                ));
            }
            instructions.push(Item::Instruction(op, parameters, native_line_number));
            *cont = true;
        },
        None => {},
    }
}

/// A word cut down to its low 16 bits.
pub open spec fn spec_low_word(v: u32) -> u16 {
    (v % 0x1_0000) as u16
}

/// Cuts a number down to its low 16 bits.
#[verifier::when_used_as_spec(spec_low_word)]
pub fn low_word(v: u32) -> (r: u16)
    ensures
        r == spec_low_word(v),
{
    (v % 0x1_0000) as u16
}

/// What reading one operand gives: the operands read, the errors found, and the index of
/// the token at which the next operand starts.
pub struct OperandStep {
    pub operands: Seq<Parameter>,
    pub errors: Seq<AsmError>,
    pub next: int,
}

/// The operand that starts at token `i` of a line:
/// `%reg`, `$n` or `@n`, `#n`, `[%reg]`, or `[%reg+$n]`, which gives a pointer and a constant.
/// A register or number that cannot be read is an error and gives no operand. A token that
/// starts no operand is an error and is passed over; an operand that is cut short is an
/// error and ends the line.
pub open spec fn spec_operand(
    tokens: Seq<Seq<u8>>,
    i: int,
    labels: Seq<LabelView>,
    line: usize,
) -> OperandStep {
    let n = tokens.len() as int;
    let cut_short = OperandStep {
        operands: Seq::empty(),
        errors: seq![(AsmError::InvalidOperand { line, token: i as usize })],
        next: n,
    };
    let t = tokens[i];
    if t == written("%") {
        if i + 1 >= n {
            cut_short
        } else {
            match spec_register_index(tokens[i + 1]) {
                Some(r) => OperandStep {
                    operands: seq![Parameter::Register(r)],
                    errors: Seq::empty(),
                    next: i + 2,
                },
                None => OperandStep {
                    operands: Seq::empty(),
                    errors: seq![(AsmError::InvalidRegister { line, token: (i + 1) as usize })],
                    next: i + 2,
                },
            }
        }
    } else if t == written("$") || t == written("@") || t == written("#") {
        if i + 1 >= n {
            cut_short
        } else {
            match spec_resolve_number(tokens[i + 1], labels) {
                Some(v) => OperandStep {
                    operands: seq![
                        if t == written("#") {
                            Parameter::Address(v)
                        } else {
                            Parameter::Constant(spec_low_word(v))
                        },
                    ],
                    errors: Seq::empty(),
                    next: i + 2,
                },
                None => OperandStep {
                    operands: Seq::empty(),
                    errors: seq![(AsmError::InvalidNumber { line, token: (i + 1) as usize })],
                    next: i + 2,
                },
            }
        }
    } else if t == written("[") {
        if i + 3 < n && tokens[i + 1] == written("%") && tokens[i + 3] == written("]") {
            match spec_register_index(tokens[i + 2]) {
                Some(r) => OperandStep {
                    operands: seq![Parameter::Pointer(r)],
                    errors: Seq::empty(),
                    next: i + 4,
                },
                None => OperandStep {
                    operands: Seq::empty(),
                    errors: seq![(AsmError::InvalidRegister { line, token: (i + 2) as usize })],
                    next: i + 4,
                },
            }
        } else if i + 6 < n && tokens[i + 1] == written("%") && tokens[i + 3] == written("+")
            && tokens[i + 4] == written("$") && tokens[i + 6] == written("]") {
            let pointer = match spec_register_index(tokens[i + 2]) {
                Some(r) => OperandStep {
                    operands: seq![Parameter::Pointer(r)],
                    errors: Seq::empty(),
                    next: i + 7,
                },
                None => OperandStep {
                    operands: Seq::empty(),
                    errors: seq![(AsmError::InvalidRegister { line, token: (i + 2) as usize })],
                    next: i + 7,
                },
            };
            match spec_resolve_number(tokens[i + 5], labels) {
                Some(v) => OperandStep {
                    operands: pointer.operands.push(Parameter::Constant(spec_low_word(v))),
                    errors: pointer.errors,
                    next: i + 7,
                },
                None => OperandStep {
                    operands: pointer.operands,
                    errors: pointer.errors.push(
                        (AsmError::InvalidNumber { line, token: (i + 5) as usize }),
                    ),
                    next: i + 7,
                },
            }
        } else {
            cut_short
        }
    } else {
        OperandStep {
            operands: Seq::empty(),
            errors: seq![(AsmError::InvalidOperand { line, token: i as usize })],
            next: i + 1,
        }
    }
}

/// The operands written from token `i` on, with the errors found in them.
pub open spec fn spec_operands(
    tokens: Seq<Seq<u8>>,
    i: int,
    labels: Seq<LabelView>,
    line: usize,
) -> (Seq<Parameter>, Seq<AsmError>)
    decreases tokens.len() - i,
{
    if i < 0 || i >= tokens.len() {
        (Seq::empty(), Seq::empty())
    } else {
        let step = spec_operand(tokens, i, labels, line);
        let rest = spec_operands(tokens, step.next, labels, line);
        (step.operands + rest.0, step.errors + rest.1)
    }
}

/// Reads the operand that starts at token `i` into `operands` and `errors`.
fn parse_operand(
    tokens: &Vec<&str>,
    i: usize,
    labels: &Vec<Label>,
    line: usize,
    operands: &mut Vec<Parameter>,
    errors: &mut Vec<AsmError>,
) -> (next: usize)
    requires
        i < tokens.len(),
    ensures
        next == spec_operand(strs_bytes(tokens@), i as int, labels_view(labels@), line).next,
        i < next <= tokens.len(),
        final(operands)@ == old(operands)@ + spec_operand(
            strs_bytes(tokens@),
            i as int,
            labels_view(labels@),
            line,
        ).operands,
        final(errors)@ == old(errors)@ + spec_operand(
            strs_bytes(tokens@),
            i as int,
            labels_view(labels@),
            line,
        ).errors,
{
    let n = tokens.len();
    let ghost all = strs_bytes(tokens@);
    let ghost step = spec_operand(all, i as int, labels_view(labels@), line);
    let ghost operands0 = operands@;
    let ghost errors0 = errors@;
    let t = tokens[i];
    assert(all[i as int] == t.spec_bytes());
    let is_percent = same_text(t, "%");
    let is_address = same_text(t, "#");
    let is_number = is_address || same_text(t, "$") || same_text(t, "@");
    let is_bracket = same_text(t, "[");
    if is_percent || is_number {
        if i + 1 >= n {
            errors.push(AsmError::InvalidOperand { line, token: i });
            assert(operands@ =~= operands0 + step.operands);
            assert(errors@ =~= errors0 + step.errors);
            return n;
        }
        assert(all[i + 1] == tokens@[i + 1].spec_bytes());
        if is_percent {
            match register_index(tokens[i + 1]) {
                Some(r) => {
                    operands.push(Parameter::Register(r));
                },
                None => {
                    errors.push(AsmError::InvalidRegister { line, token: i + 1 });
                },
            }
        } else {
            match resolve_number(tokens[i + 1], Some(labels)) {
                Some(v) => {
                    if is_address {
                        operands.push(Parameter::Address(v));
                    } else {
                        operands.push(Parameter::Constant(low_word(v)));
                    }
                },
                None => {
                    errors.push(AsmError::InvalidNumber { line, token: i + 1 });
                },
            }
        }
        assert(operands@ =~= operands0 + step.operands);
        assert(errors@ =~= errors0 + step.errors);
        return i + 2;
    }
    if is_bracket {
        if n >= 4 && i < n - 3 {
            assert(all[i + 1] == tokens@[i + 1].spec_bytes());
            assert(all[i + 2] == tokens@[i + 2].spec_bytes());
            assert(all[i + 3] == tokens@[i + 3].spec_bytes());
            if same_text(tokens[i + 1], "%") && same_text(tokens[i + 3], "]") {
                match register_index(tokens[i + 2]) {
                    Some(r) => {
                        operands.push(Parameter::Pointer(r));
                    },
                    None => {
                        errors.push(AsmError::InvalidRegister { line, token: i + 2 });
                    },
                }
                assert(operands@ =~= operands0 + step.operands);
                assert(errors@ =~= errors0 + step.errors);
                return i + 4;
            }
        }
        if n >= 7 && i < n - 6 {
            assert(all[i + 1] == tokens@[i + 1].spec_bytes());
            assert(all[i + 2] == tokens@[i + 2].spec_bytes());
            assert(all[i + 3] == tokens@[i + 3].spec_bytes());
            assert(all[i + 4] == tokens@[i + 4].spec_bytes());
            assert(all[i + 5] == tokens@[i + 5].spec_bytes());
            assert(all[i + 6] == tokens@[i + 6].spec_bytes());
            if same_text(tokens[i + 1], "%") && same_text(tokens[i + 3], "+") && same_text(
                tokens[i + 4],
                "$",
            ) && same_text(tokens[i + 6], "]") {
                match register_index(tokens[i + 2]) {
                    Some(r) => {
                        operands.push(Parameter::Pointer(r));
                    },
                    None => {
                        errors.push(AsmError::InvalidRegister { line, token: i + 2 });
                    },
                }
                match resolve_number(tokens[i + 5], Some(labels)) {
                    Some(v) => {
                        operands.push(Parameter::Constant(low_word(v)));
                    },
                    None => {
                        errors.push(AsmError::InvalidNumber { line, token: i + 5 });
                    },
                }
                assert(operands@ =~= operands0 + step.operands);
                assert(errors@ =~= errors0 + step.errors);
                return i + 7;
            }
        }
        errors.push(AsmError::InvalidOperand { line, token: i });
        assert(operands@ =~= operands0 + step.operands);
        assert(errors@ =~= errors0 + step.errors);
        return n;
    }
    errors.push(AsmError::InvalidOperand { line, token: i });
    assert(operands@ =~= operands0 + step.operands);
    assert(errors@ =~= errors0 + step.errors);
    i + 1
}

/// Reads the operands written from token `start` on; errors are appended to `errors`.
pub fn parse_operands(
    tokens: &Vec<&str>,
    start: usize,
    labels: &Vec<Label>,
    line: usize,
    errors: &mut Vec<AsmError>,
) -> (operands: Vec<Parameter>)
    ensures
        operands@ == spec_operands(
            strs_bytes(tokens@),
            start as int,
            labels_view(labels@),
            line,
        ).0,
        final(errors)@ == old(errors)@ + spec_operands(
            strs_bytes(tokens@),
            start as int,
            labels_view(labels@),
            line,
        ).1,
{
    let mut operands: Vec<Parameter> = Vec::new();
    let mut i: usize = start;
    let ghost all = strs_bytes(tokens@);
    let ghost known = labels_view(labels@);
    let ghost whole = spec_operands(all, start as int, known, line);
    let ghost errors0 = errors@;
    assert(operands@ + whole.0 =~= whole.0);
    assert(errors@ =~= errors0 + Seq::<AsmError>::empty());
    while i < tokens.len()
        invariant
            all == strs_bytes(tokens@),
            known == labels_view(labels@),
            whole == spec_operands(all, start as int, known, line),
            operands@ + spec_operands(all, i as int, known, line).0 == whole.0,
            exists|done: Seq<AsmError>|
                errors@ == errors0 + done && done + spec_operands(all, i as int, known, line).1
                    == whole.1,
        decreases tokens.len() - i,
    {
        let ghost done = choose|done: Seq<AsmError>|
            errors@ == errors0 + done && done + spec_operands(all, i as int, known, line).1
                == whole.1;
        let ghost step = spec_operand(all, i as int, known, line);
        let ghost before = operands@;
        let next = parse_operand(tokens, i, labels, line, &mut operands, errors);
        proof {
            let rest = spec_operands(all, next as int, known, line);
            assert(spec_operands(all, i as int, known, line).0 == step.operands + rest.0);
            assert(operands@ + rest.0 =~= before + (step.operands + rest.0));
            let done2 = done + step.errors;
            assert(errors@ =~= errors0 + done2);
            assert(done2 + rest.1 =~= done + (step.errors + rest.1));
        }
        i = next;
    }
    proof {
        let done = choose|done: Seq<AsmError>|
            errors@ == errors0 + done && done + spec_operands(all, i as int, known, line).1
                == whole.1;
        assert(done + Seq::<AsmError>::empty() =~= done);
        assert(operands@ + Seq::<Parameter>::empty() =~= operands@);
    }
    operands
}

/// A tokenised script as the passes see it: each line's tokens as bytes, with its tag.
pub type ScriptView = Seq<(Seq<Seq<u8>>, usize)>;

/// The state of the label pass: the program-word cursor, the labels declared and the errors
/// found so far.
pub struct LabelPass {
    pub cursor: int,
    pub labels: Seq<LabelView>,
    pub errors: Seq<AsmError>,
}

/// The label kinds that name a place in the program.
pub open spec fn spec_is_header_kind(t: Seq<u8>) -> bool {
    t == written("function") || t == written("header") || t == written("loop") || t == written("end") || t
        == written("condition") || t == written("true") || t == written("false") || t == written("if") || t
        == written("else") || t == written("label")
}

/// The traits that a program can declare.
pub open spec fn spec_is_trait_name(t: Seq<u8>) -> bool {
    t == written("ram_size") || t == written("name") || t == written("program_size") || t == written("page")
}

fn is_header_kind(t: &str) -> (r: bool)
    ensures
        r == spec_is_header_kind(t.spec_bytes()),
{
    same_text(t, "function") || same_text(t, "header") || same_text(t, "loop") || same_text(
        t,
        "end",
    ) || same_text(t, "condition") || same_text(t, "true") || same_text(t, "false") || same_text(
        t,
        "if",
    ) || same_text(t, "else") || same_text(t, "label")
}

fn is_trait_name(t: &str) -> (r: bool)
    ensures
        r == spec_is_trait_name(t.spec_bytes()),
{
    same_text(t, "ram_size") || same_text(t, "name") || same_text(t, "program_size") || same_text(
        t,
        "page",
    )
}

/// The error of declaring a name that a label already has.
pub open spec fn spec_redefinition(labels: Seq<LabelView>, name: Seq<u8>, line: usize) -> Seq<
    AsmError,
> {
    if spec_find_label(labels, name) is Some {
        seq![(AsmError::RedefinedLabel { line })]
    } else {
        Seq::empty()
    }
}

/// What a line that starts with `!` declares. A header kind names the cursor; `define`
/// names an address and `const` a value, both written as a numeric literal. The label is
/// recorded also where its name was taken, which is an error.
pub open spec fn spec_declare(pass: LabelPass, tokens: Seq<Seq<u8>>, line: usize) -> LabelPass {
    if tokens.len() < 2 {
        LabelPass { errors: pass.errors.push((AsmError::MissingLabelKind { line })), ..pass }
    } else if spec_is_header_kind(tokens[1]) {
        if tokens.len() < 3 {
            LabelPass { errors: pass.errors.push((AsmError::MissingLabelName { line })), ..pass }
        } else {
            LabelPass {
                labels: pass.labels.push(LabelView::Header(tokens[2], pass.cursor as usize)),
                errors: pass.errors + spec_redefinition(pass.labels, tokens[2], line),
                ..pass
            }
        }
    } else if tokens[1] == written("define") || tokens[1] == written("const") {
        if tokens.len() < 4 {
            LabelPass { errors: pass.errors.push((AsmError::MissingLabelValue { line })), ..pass }
        } else {
            let errors = pass.errors + spec_redefinition(pass.labels, tokens[2], line);
            match spec_parse_number(tokens[3]) {
                Some(v) => LabelPass {
                    labels: pass.labels.push(
                        if tokens[1] == written("define") {
                            LabelView::Variable(tokens[2], spec_low_word(v))
                        } else {
                            LabelView::Const(tokens[2], spec_low_word(v))
                        },
                    ),
                    errors,
                    ..pass
                },
                None => LabelPass {
                    errors: errors.push((AsmError::InvalidNumber { line, token: 3 })),
                    ..pass
                },
            }
        }
    } else {
        LabelPass { errors: pass.errors.push((AsmError::InvalidLabelKind { line })), ..pass }
    }
}

/// What a line that starts with `.` declares: a trait with its value, written as a numeric
/// literal. The trait `page` also moves the cursor to its value.
pub open spec fn spec_declare_trait(pass: LabelPass, tokens: Seq<Seq<u8>>, line: usize)
    -> LabelPass {
    if tokens.len() < 3 {
        LabelPass { errors: pass.errors.push((AsmError::MissingTraitValue { line })), ..pass }
    } else if spec_is_trait_name(tokens[1]) {
        match spec_parse_number(tokens[2]) {
            Some(v) => LabelPass {
                cursor: if tokens[1] == written("page") {
                    spec_low_word(v) as int
                } else {
                    pass.cursor
                },
                labels: pass.labels.push(LabelView::Trait(tokens[1], spec_low_word(v))),
                errors: pass.errors,
            },
            None => LabelPass {
                errors: pass.errors.push((AsmError::InvalidNumber { line, token: 2 })),
                ..pass
            },
        }
    } else {
        LabelPass { errors: pass.errors.push((AsmError::InvalidTraitName { line })), ..pass }
    }
}

/// Whether a line declares a label or a trait.
pub open spec fn spec_is_declaration(tokens: Seq<Seq<u8>>) -> bool {
    tokens.len() > 0 && (tokens[0] == written("!") || tokens[0] == written("."))
}

/// The label pass over one line: a declaration is recorded, any other line that holds
/// tokens is an instruction and moves the cursor on by one slot of three words.
pub open spec fn spec_label_line(pass: LabelPass, tokens: Seq<Seq<u8>>, line: usize)
    -> LabelPass {
    if tokens.len() == 0 {
        pass
    } else if tokens[0] == written("!") {
        spec_declare(pass, tokens, line)
    } else if tokens[0] == written(".") {
        spec_declare_trait(pass, tokens, line)
    } else {
        LabelPass { cursor: pass.cursor + 3, ..pass }
    }
}

/// The label pass over the first `n` lines of a script. The cursor starts behind the three
/// words of the header.
pub open spec fn spec_label_pass(script: ScriptView, n: int) -> LabelPass
    decreases n,
{
    if n <= 0 {
        LabelPass { cursor: 3, labels: Seq::empty(), errors: Seq::empty() }
    } else {
        spec_label_line(spec_label_pass(script, n - 1), script[n - 1].0, script[n - 1].1)
    }
}

/// The cursor of the label pass stays within three words per line of the highest page.
pub proof fn lemma_label_pass_cursor(script: ScriptView, n: int)
    requires
        0 <= n <= script.len(),
    ensures
        0 <= spec_label_pass(script, n).cursor <= 0xffff + 3 * n,
    decreases n,
{
    if n > 0 {
        lemma_label_pass_cursor(script, n - 1);
    }
}

/// Runs the label pass: the labels of a script in the order of their declaration, or the
/// errors found.
pub fn collect_labels(script: &Vec<(Vec<&str>, usize)>) -> (r: Result<Vec<Label>, Vec<AsmError>>)
    requires
        0xffff + 3 * script.len() <= usize::MAX,
    ensures
        match r {
            Ok(labels) => {
                &&& spec_label_pass(script_bytes(script@), script@.len() as int).errors.len() == 0
                &&& labels_view(labels@) == spec_label_pass(
                    script_bytes(script@),
                    script@.len() as int,
                ).labels
            },
            Err(errors) => {
                &&& errors@.len() > 0
                &&& errors@ == spec_label_pass(script_bytes(script@), script@.len() as int).errors
            },
        },
{
    let mut cursor: usize = 3;
    let mut labels: Vec<Label> = Vec::new();
    let mut errors: Vec<AsmError> = Vec::new();
    let mut k: usize = 0;
    let ghost all = script_bytes(script@);
    assert(labels_view(labels@) =~= Seq::<LabelView>::empty());
    while k < script.len()
        invariant
            k <= script.len(),
            0xffff + 3 * script.len() <= usize::MAX,
            all == script_bytes(script@),
            cursor == spec_label_pass(all, k as int).cursor,
            labels_view(labels@) == spec_label_pass(all, k as int).labels,
            errors@ == spec_label_pass(all, k as int).errors,
        decreases script.len() - k,
    {
        let tokens = &script[k].0;
        let line = script[k].1;
        let ghost pass = spec_label_pass(all, k as int);
        let ghost t = strs_bytes(tokens@);
        let ghost known = labels_view(labels@);
        proof {
            lemma_label_pass_cursor(all, k as int);
            lemma_label_pass_cursor(all, k + 1);
            assert(all[k as int] == (t, line));
            assert(forall|j: int| 0 <= j < tokens@.len() ==> t[j] == tokens@[j].spec_bytes());
        }
        if tokens.len() == 0 {
        } else if same_text(tokens[0], "!") {
            if tokens.len() < 2 {
                errors.push(AsmError::MissingLabelKind { line });
            } else if is_header_kind(tokens[1]) {
                if tokens.len() < 3 {
                    errors.push(AsmError::MissingLabelName { line });
                } else {
                    if find_label(&labels, tokens[2]).is_some() {
                        errors.push(AsmError::RedefinedLabel { line });
                    }
                    let label = Label::Header(tokens[2].to_owned(), cursor);
                    proof {
                        assert(labels_view(labels@.push(label)) =~= known.push(label@));
                        assert(errors@ =~= pass.errors + spec_redefinition(known, t[2], line));
                    }
                    labels.push(label);
                }
            } else {
                let is_define = same_text(tokens[1], "define");
                if is_define || same_text(tokens[1], "const") {
                    if tokens.len() < 4 {
                        errors.push(AsmError::MissingLabelValue { line });
                    } else {
                        if find_label(&labels, tokens[2]).is_some() {
                            errors.push(AsmError::RedefinedLabel { line });
                        }
                        assert(errors@ =~= pass.errors + spec_redefinition(known, t[2], line));
                        match parse_number(tokens[3]) {
                            Some(v) => {
                                let label = if is_define {
                                    Label::Variable(tokens[2].to_owned(), low_word(v))
                                } else {
                                    Label::Const(tokens[2].to_owned(), low_word(v))
                                };
                                proof {
                                    assert(labels_view(labels@.push(label)) =~= known.push(
                                        label@,
                                    ));
                                }
                                labels.push(label);
                            },
                            None => {
                                errors.push(AsmError::InvalidNumber { line, token: 3 });
                            },
                        }
                    }
                } else {
                    errors.push(AsmError::InvalidLabelKind { line });
                }
            }
        } else if same_text(tokens[0], ".") {
            if tokens.len() < 3 {
                errors.push(AsmError::MissingTraitValue { line });
            } else if is_trait_name(tokens[1]) {
                match parse_number(tokens[2]) {
                    Some(v) => {
                        let label = Label::Trait(tokens[1].to_owned(), low_word(v));
                        proof {
                            assert(labels_view(labels@.push(label)) =~= known.push(label@));
                        }
                        labels.push(label);
                        if same_text(tokens[1], "page") {
                            cursor = low_word(v) as usize;
                        }
                    },
                    None => {
                        errors.push(AsmError::InvalidNumber { line, token: 2 });
                    },
                }
            } else {
                errors.push(AsmError::InvalidTraitName { line });
            }
        } else {
            cursor = cursor + 3;
        }
        k += 1;
    }
    if errors.len() > 0 {
        Err(errors)
    } else {
        Ok(labels)
    }
}

/// The instruction that a mnemonic and its operands select, with the errors found. After
/// `*` only the instruction table is asked. Otherwise the pseudo-instructions are asked
/// first, and the instruction table where they give nothing. A known instruction is selected
/// also where the operands are wrong for it.
pub open spec fn spec_select(
    direct: bool,
    mnemonic: Seq<u8>,
    operands: Seq<Parameter>,
    line: usize,
) -> (Option<Opcode>, Seq<AsmError>) {
    let surface = if direct {
        None
    } else {
        spec_pseudo_match(mnemonic, operands)
    };
    match surface {
        Some(op) => (Some(op), Seq::empty()),
        None => match spec_find_instruction(mnemonic) {
            Some(op) => (Some(op), spec_operand_errors(op, operands, line)),
            None => (None, seq![(AsmError::InvalidInstruction { line })]),
        },
    }
}

/// The state of the instruction pass: the stream of items, the errors found, and how many
/// declarations have been passed.
pub struct InstructionPass {
    pub items: Seq<ItemView>,
    pub errors: Seq<AsmError>,
    pub declared: int,
}

/// The instruction pass over one line. A declaration puts its label into the stream; the
/// labels are taken in the order in which the label pass recorded them. Any other line is
/// an instruction: an optional `*`, the mnemonic, the operands.
pub open spec fn spec_instruction_line(
    state: InstructionPass,
    tokens: Seq<Seq<u8>>,
    line: usize,
    labels: Seq<LabelView>,
) -> InstructionPass {
    if tokens.len() == 0 {
        state
    } else if spec_is_declaration(tokens) {
        InstructionPass {
            items: if 0 <= state.declared < labels.len() {
                state.items.push(ItemView::Label(labels[state.declared]))
            } else {
                state.items
            },
            declared: state.declared + 1,
            ..state
        }
    } else {
        let direct = tokens[0] == written("*");
        let at: int = if direct {
            1
        } else {
            0
        };
        if at >= tokens.len() {
            InstructionPass { errors: state.errors.push((AsmError::MissingMnemonic { line })), ..state }
        } else {
            let written = spec_operands(tokens, at + 1, labels, line);
            let selected = spec_select(direct, tokens[at], written.0, line);
            InstructionPass {
                items: match selected.0 {
                    Some(op) => state.items.push(ItemView::Instruction(op, written.0, line)),
                    None => state.items,
                },
                errors: state.errors + written.1 + selected.1,
                ..state
            }
        }
    }
}

/// The instruction pass over the first `n` lines of a script.
pub open spec fn spec_instruction_pass(script: ScriptView, labels: Seq<LabelView>, n: int) -> InstructionPass
    decreases n,
{
    if n <= 0 {
        InstructionPass { items: Seq::empty(), errors: Seq::empty(), declared: 0 }
    } else {
        spec_instruction_line(
            spec_instruction_pass(script, labels, n - 1),
            script[n - 1].0,
            script[n - 1].1,
            labels,
        )
    }
}

/// What assembling a script gives: the label pass first, and the instruction pass only if
/// the label pass found no error. The result is the stream of items and the labels, or the
/// errors of the pass that failed.
pub open spec fn spec_parse(script: ScriptView) -> Result<
    (Seq<ItemView>, Seq<LabelView>),
    Seq<AsmError>,
> {
    let pass = spec_label_pass(script, script.len() as int);
    if pass.errors.len() > 0 {
        Err(pass.errors)
    } else {
        let assembly = spec_instruction_pass(script, pass.labels, script.len() as int);
        if assembly.errors.len() > 0 {
            Err(assembly.errors)
        } else {
            Ok((assembly.items, pass.labels))
        }
    }
}

/// Assembles one instruction line into `instructions` and `errors`.
fn assemble_instruction(
    tokens: &Vec<&str>,
    line: usize,
    labels: &Vec<Label>,
    instructions: &mut Vec<Item>,
    errors: &mut Vec<AsmError>,
)
    requires
        tokens.len() > 0,
        !spec_is_declaration(strs_bytes(tokens@)),
    ensures
        ({
            let before = InstructionPass {
                items: items_view(old(instructions)@),
                errors: old(errors)@,
                declared: 0,
            };
            let after = spec_instruction_line(before, strs_bytes(tokens@), line, labels_view(labels@));
            &&& items_view(final(instructions)@) == after.items
            &&& final(errors)@ == after.errors
        }),
{
    let ghost t = strs_bytes(tokens@);
    let ghost known = labels_view(labels@);
    let ghost errors0 = errors@;
    let ghost items0 = items_view(instructions@);
    proof {
        assert(forall|j: int| 0 <= j < tokens@.len() ==> t[j] == tokens@[j].spec_bytes());
    }
    let direct = same_text(tokens[0], "*");
    let at: usize = if direct {
        1
    } else {
        0
    };
    if at >= tokens.len() {
        errors.push(AsmError::MissingMnemonic { line });
        return ;
    }
    let operands = parse_operands(tokens, at + 1, labels, line, errors);
    let ghost written = spec_operands(t, at + 1, known, line);
    if !direct {
        match pseudo_match(tokens[at], &operands) {
            Some(op) => {
                proof {
                    assert(items_view(instructions@.push(Item::Instruction(op, operands, line)))
                        =~= items0.push(ItemView::Instruction(op, operands@, line)));
                    assert(errors@ =~= errors0 + written.1 + Seq::<AsmError>::empty());
                }
                instructions.push(Item::Instruction(op, operands, line));
                return ;
            },
            None => {},
        }
    }
    let mut cont = false;
    let ghost mid = errors@;
    handle_instruction(errors, &mut cont, tokens[at], line, operands, instructions);
    if !cont {
        errors.push(AsmError::InvalidInstruction { line });
    }
    proof {
        let selected = spec_select(direct, t[at as int], written.0, line);
        assert(errors@ =~= errors0 + written.1 + selected.1);
    }
}

/// Assembles a tokenised script: resolves the labels, then turns every instruction line
/// into an instruction with typed operands. Gives the stream for the emitter together with
/// the labels, or every error that the failing pass found.
pub fn parse_sudo(script: Vec<(Vec<&str>, usize)>) -> (r: Result<
    (Vec<Item>, Vec<Label>),
    Vec<AsmError>,
>)
    requires
        0xffff + 3 * script.len() <= usize::MAX,
    ensures
        match r {
            Ok((items, labels)) => spec_parse(script_bytes(script@)) == Ok::<
                (Seq<ItemView>, Seq<LabelView>),
                Seq<AsmError>,
            >((items_view(items@), labels_view(labels@))),
            Err(errors) => spec_parse(script_bytes(script@)) == Err::<
                (Seq<ItemView>, Seq<LabelView>),
                Seq<AsmError>,
            >(errors@),
        },
{
    let labels = match collect_labels(&script) {
        Ok(labels) => labels,
        Err(errors) => {
            return Err(errors);
        },
    };
    let mut instructions: Vec<Item> = Vec::new();
    let mut errors: Vec<AsmError> = Vec::new();
    let mut declared: usize = 0;
    let mut k: usize = 0;
    let ghost all = script_bytes(script@);
    let ghost known = labels_view(labels@);
    assert(items_view(instructions@) =~= Seq::<ItemView>::empty());
    while k < script.len()
        invariant
            k <= script.len(),
            declared <= k,
            all == script_bytes(script@),
            known == labels_view(labels@),
            items_view(instructions@) == spec_instruction_pass(all, known, k as int).items,
            errors@ == spec_instruction_pass(all, known, k as int).errors,
            declared == spec_instruction_pass(all, known, k as int).declared,
        decreases script.len() - k,
    {
        let tokens = &script[k].0;
        let line = script[k].1;
        let ghost t = strs_bytes(tokens@);
        let ghost state = spec_instruction_pass(all, known, k as int);
        proof {
            assert(all[k as int] == (t, line));
            assert(forall|j: int| 0 <= j < tokens@.len() ==> t[j] == tokens@[j].spec_bytes());
        }
        if tokens.len() == 0 {
        } else if same_text(tokens[0], "!") || same_text(tokens[0], ".") {
            if declared < labels.len() {
                let label = labels[declared].duplicate();
                proof {
                    assert(items_view(instructions@.push(Item::Label(label))) =~= state.items.push(
                        ItemView::Label(label@),
                    ));
                }
                instructions.push(Item::Label(label));
            }
            declared += 1;
        } else {
            let ghost before = InstructionPass {
                items: items_view(instructions@),
                errors: errors@,
                declared: 0,
            };
            assemble_instruction(tokens, line, &labels, &mut instructions, &mut errors);
        }
        k += 1;
    }
    if errors.len() > 0 {
        Err(errors)
    } else {
        Ok((instructions, labels))
    }
}

/// The instruction pass puts at most one item into the stream for each line.
pub proof fn lemma_instruction_pass_length(script: ScriptView, labels: Seq<LabelView>, n: int)
    requires
        0 <= n,
    ensures
        spec_instruction_pass(script, labels, n).items.len() <= n,
    decreases n,
{
    if n > 0 {
        lemma_instruction_pass_length(script, labels, n - 1);
    }
}

/// A stream has no more items than the script has lines.
pub proof fn lemma_parse_length(script: ScriptView)
    ensures
        spec_parse(script) is Ok ==> spec_parse(script)->Ok_0.0.len() <= script.len(),
{
    let pass = spec_label_pass(script, script.len() as int);
    lemma_instruction_pass_length(script, pass.labels, script.len() as int);
}

} // verus!
