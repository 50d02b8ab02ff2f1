use crate::assembler::{items_view, written, Item, ItemView, Parameter};
use crate::isa::{params_width, Opcode, Param};
use crate::labels::{labels_view, search_for_trait, spec_search_for_trait, Label, LabelView};
use crate::lexeme::same_text;
use vstd::prelude::*;

verus! {

/// An operand that does not fit the slot it was written for.
#[derive(Clone, Copy, Debug, PartialEq, Eq, Structural)]
pub struct EmitError {
    /// Tag of the source line of the instruction.
    pub line: usize,
    /// Position of the operand, or of the first slot or operand that has no partner.
    pub position: usize,
}

/// The bytes that encode an operand in a slot of a kind: one byte for a register, a pointer
/// or an 8-bit constant, two bytes for a 16-bit constant or address, four for a 32-bit
/// address, always low byte first and cut down to the slot's width. `None` where the operand
/// is not of the slot's kind.
pub open spec fn spec_operand_bytes(param: Param, operand: Parameter) -> Option<Seq<u8>> {
    match (param, operand) {
        (Param::Const16, Parameter::Constant(n)) => Some(
            seq![(n % 256) as u8, (n / 256) as u8],
        ),
        (Param::Const8, Parameter::Constant(n)) => Some(seq![(n % 256) as u8]),
        (Param::Addr32, Parameter::Address(n)) => Some(
            seq![
                (n % 256) as u8,
                (n / 0x100 % 256) as u8,
                (n / 0x1_0000 % 256) as u8,
                (n / 0x100_0000) as u8,
            ],
        ),
        (Param::Addr16, Parameter::Address(n)) => Some(
            seq![(n % 256) as u8, (n / 0x100 % 256) as u8],
        ),
        (Param::Reg, Parameter::Register(r)) => Some(seq![r]),
        (Param::Ptr, Parameter::Pointer(r)) => Some(seq![r]),
        _ => None,
    }
}

/// Appends the bytes of an operand to `bytes`; `false` where the operand is not of the
/// slot's kind.
fn push_operand_bytes(bytes: &mut Vec<u8>, param: Param, operand: Parameter) -> (ok: bool)
    ensures
        ok == spec_operand_bytes(param, operand) is Some,
        final(bytes)@ == if ok {
            old(bytes)@ + spec_operand_bytes(param, operand)->0
        } else {
            old(bytes)@
        },
{
    let ghost before = bytes@;
    match (param, operand) {
        (Param::Const16, Parameter::Constant(n)) => {
            bytes.push((n % 256) as u8);
            bytes.push((n / 256) as u8);
            assert(bytes@ =~= before + seq![(n % 256) as u8, (n / 256) as u8]);
            true
        },
        (Param::Const8, Parameter::Constant(n)) => {
            bytes.push((n % 256) as u8);
            assert(bytes@ =~= before + seq![(n % 256) as u8]);
            true
        },
        (Param::Addr32, Parameter::Address(n)) => {
            bytes.push((n % 256) as u8);
            bytes.push((n / 0x100 % 256) as u8);
            bytes.push((n / 0x1_0000 % 256) as u8);
            bytes.push((n / 0x100_0000) as u8);
            assert(bytes@ =~= before + seq![
                (n % 256) as u8,
                (n / 0x100 % 256) as u8,
                (n / 0x1_0000 % 256) as u8,
                (n / 0x100_0000) as u8,
            ]);
            true
        },
        (Param::Addr16, Parameter::Address(n)) => {
            bytes.push((n % 256) as u8);
            bytes.push((n / 0x100 % 256) as u8);
            assert(bytes@ =~= before + seq![(n % 256) as u8, (n / 0x100 % 256) as u8]);
            true
        },
        (Param::Reg, Parameter::Register(r)) => {
            bytes.push(r);
            assert(bytes@ =~= before + seq![r]);
            true
        },
        (Param::Ptr, Parameter::Pointer(r)) => {
            bytes.push(r);
            assert(bytes@ =~= before + seq![r]);
            true
        },
        _ => false,
    }
}

/// The first position at which operands and slots do not pair up: a slot without operand,
/// an operand without slot, or an operand of another kind than its slot. `None` where the
/// first `bound` positions are in order.
pub open spec fn spec_first_mismatch(params: Seq<Param>, operands: Seq<Parameter>, bound: int)
    -> Option<int>
    decreases bound,
{
    if bound <= 0 {
        None
    } else {
        match spec_first_mismatch(params, operands, bound - 1) {
            Some(i) => Some(i),
            None => if bound - 1 >= params.len() || bound - 1 >= operands.len()
                || spec_operand_bytes(params[bound - 1], operands[bound - 1]) is None {
                Some(bound - 1)
            } else {
                None
            },
        }
    }
}

/// The longer of the two lengths: the number of positions that must pair up.
pub open spec fn spec_positions(params: Seq<Param>, operands: Seq<Parameter>) -> int {
    if params.len() >= operands.len() {
        params.len() as int
    } else {
        operands.len() as int
    }
}

/// The opcode byte followed by the bytes of the first `n` operands.
pub open spec fn spec_instruction_bytes(op: Opcode, operands: Seq<Parameter>, n: int) -> Seq<u8>
    decreases n,
{
    if n <= 0 {
        seq![op.spec_code()]
    } else {
        spec_instruction_bytes(op, operands, n - 1) + match spec_operand_bytes(
            op.spec_params()[n - 1],
            operands[n - 1],
        ) {
            Some(bytes) => bytes,
            None => Seq::empty(),
        }
    }
}

/// The byte at `i`, or zero behind the end.
pub open spec fn spec_padded(bytes: Seq<u8>, i: int) -> u8 {
    if 0 <= i < bytes.len() {
        bytes[i]
    } else {
        0
    }
}

/// A word made of a high and a low byte.
pub open spec fn spec_word(high: u8, low: u8) -> u16 {
    (high * 256 + low) as u16
}

/// The three words of a slot that holds `bytes`: the first byte is the high half of the
/// first word, and what the bytes leave open is zero.
pub open spec fn spec_pack(bytes: Seq<u8>) -> Seq<u16> {
    seq![
        spec_word(spec_padded(bytes, 0), spec_padded(bytes, 1)),
        spec_word(spec_padded(bytes, 2), spec_padded(bytes, 3)),
        spec_word(spec_padded(bytes, 4), spec_padded(bytes, 5)),
    ]
}

/// The encoded form of an instruction: its slot of three words, or the position of the
/// first operand that does not fit.
pub open spec fn spec_encode(op: Opcode, operands: Seq<Parameter>) -> Result<Seq<u16>, int> {
    let params = op.spec_params();
    match spec_first_mismatch(params, operands, spec_positions(params, operands)) {
        Some(i) => Err(i),
        None => Ok(spec_pack(spec_instruction_bytes(op, operands, params.len() as int))),
    }
}

proof fn lemma_first_mismatch_stays(
    params: Seq<Param>,
    operands: Seq<Parameter>,
    found: int,
    bound: int,
)
    requires
        0 <= found <= bound,
        spec_first_mismatch(params, operands, found) is Some,
    ensures
        spec_first_mismatch(params, operands, bound) == spec_first_mismatch(
            params,
            operands,
            found,
        ),
    decreases bound - found,
{
    if found < bound {
        lemma_first_mismatch_stays(params, operands, found, bound - 1);
    }
}

/// Without a mismatch there are as many operands as slots.
proof fn lemma_no_mismatch_same_length(params: Seq<Param>, operands: Seq<Parameter>)
    requires
        spec_first_mismatch(params, operands, spec_positions(params, operands)) is None,
    ensures
        params.len() == operands.len(),
{
    let n = spec_positions(params, operands);
    if params.len() != operands.len() {
        assert(spec_first_mismatch(params, operands, n) is Some);
    }
}

/// An instruction's bytes are its opcode and the bytes of its operands, as many as the
/// widths of their slots add up to.
pub proof fn lemma_instruction_bytes_len(op: Opcode, operands: Seq<Parameter>, n: int)
    requires
        0 <= n <= op.spec_params().len(),
        n <= operands.len(),
        spec_first_mismatch(op.spec_params(), operands, n) is None,
    ensures
        spec_instruction_bytes(op, operands, n).len() == 1 + params_width(
            op.spec_params().take(n),
        ),
    decreases n,
{
    let params = op.spec_params();
    if n > 0 {
        lemma_instruction_bytes_len(op, operands, n - 1);
        assert(params.take(n).drop_last() =~= params.take(n - 1));
        assert(params.take(n).last() == params[n - 1]);
    } else {
        assert(params.take(0).len() == 0);
    }
}

/// No instruction has more than five bytes of operands, so every instruction fits a slot.
pub proof fn lemma_operands_fit_slot(op: Opcode)
    ensures
        params_width(op.spec_params()) <= 5,
        op.spec_params().len() <= 5,
{
    let p = op.spec_params();
    reveal_with_fuel(params_width, 6);
    if p.len() == 0 {
    } else if p.len() == 1 {
        assert(p.drop_last().len() == 0);
    } else if p.len() == 2 {
        assert(p.drop_last().drop_last().len() == 0);
        assert(p.drop_last().last() == p[0]);
    } else if p.len() == 3 {
        assert(p.drop_last().drop_last().drop_last().len() == 0);
        assert(p.drop_last().last() == p[1]);
        assert(p.drop_last().drop_last().last() == p[0]);
    } else if p.len() == 4 {
        assert(p.drop_last().drop_last().drop_last().drop_last().len() == 0);
        assert(p.drop_last().last() == p[2]);
        assert(p.drop_last().drop_last().last() == p[1]);
        assert(p.drop_last().drop_last().drop_last().last() == p[0]);
    } else {
        assert(p.len() == 5);
        assert(p.drop_last().drop_last().drop_last().drop_last().drop_last().len() == 0);
        assert(p.drop_last().last() == p[3]);
        assert(p.drop_last().drop_last().last() == p[2]);
        assert(p.drop_last().drop_last().drop_last().last() == p[1]);
        assert(p.drop_last().drop_last().drop_last().drop_last().last() == p[0]);
    }
}

fn padded(bytes: &Vec<u8>, i: usize) -> (b: u8)
    ensures
        b == spec_padded(bytes@, i as int),
{
    if i < bytes.len() {
        bytes[i]
    } else {
        0
    }
}

fn word(high: u8, low: u8) -> (w: u16)
    ensures
        w == spec_word(high, low),
{
    (high as u16) * 256 + (low as u16)
}

/// Encodes an instruction into its slot of three words.
pub fn encode(op: Opcode, operands: &Vec<Parameter>) -> (r: Result<[u16; 3], usize>)
    ensures
        match r {
            Ok(words) => spec_encode(op, operands@) == Ok::<Seq<u16>, int>(words@),
            Err(position) => spec_encode(op, operands@) == Err::<Seq<u16>, int>(position as int),
        },
{
    let params = op.params();
    let positions = if params.len() >= operands.len() {
        params.len()
    } else {
        operands.len()
    };
    let mut bytes: Vec<u8> = Vec::new();
    bytes.push(op.code());
    let mut i: usize = 0;
    assert(bytes@ =~= spec_instruction_bytes(op, operands@, 0));
    while i < positions
        invariant
            i <= positions,
            positions == spec_positions(params@, operands@),
            params@ == op.spec_params(),
            spec_first_mismatch(params@, operands@, i as int) is None,
            i <= params.len(),
            i <= operands.len(),
            bytes@ == spec_instruction_bytes(op, operands@, i as int),
        decreases positions - i,
    {
        if i >= params.len() || i >= operands.len() {
            proof {
                lemma_first_mismatch_stays(params@, operands@, i + 1, positions as int);
            }
            return Err(i);
        }
        if !push_operand_bytes(&mut bytes, params[i], operands[i]) {
            proof {
                lemma_first_mismatch_stays(params@, operands@, i + 1, positions as int);
            }
            return Err(i);
        }
        i += 1;
    }
    proof {
        lemma_no_mismatch_same_length(params@, operands@);
    }
    let words = [
        word(padded(&bytes, 0), padded(&bytes, 1)),
        word(padded(&bytes, 2), padded(&bytes, 3)),
        word(padded(&bytes, 4), padded(&bytes, 5)),
    ];
    assert(words@ =~= spec_pack(bytes@));
    Ok(words)
}

/// One word of a program image: its index, its value and the tag of the source line that
/// it came from.
pub type ImageWord = (usize, (u16, usize));

/// The state of the emitter: the words written so far and the index of the next word.
pub struct Emission {
    pub image: Seq<ImageWord>,
    pub cursor: int,
}

/// Number of instructions among the first `n` items of a stream.
pub open spec fn spec_count_instructions(items: Seq<ItemView>, n: int) -> int
    decreases n,
{
    if n <= 0 {
        0
    } else {
        spec_count_instructions(items, n - 1) + if items[n - 1] is Instruction {
            1int
        } else {
            0int
        }
    }
}

/// The low 16 bits of a number.
pub open spec fn spec_low16(v: usize) -> u16 {
    (v % 0x1_0000) as u16
}

fn low16(v: usize) -> (r: u16)
    ensures
        r == spec_low16(v),
{
    (v % 0x1_0000) as u16
}

/// The three words of the header: the traits `ram_size`, `program_size` and `name`. A
/// missing trait counts as zero, but a missing `program_size` as three words for each
/// instruction and three more.
pub open spec fn spec_header(items: Seq<ItemView>, labels: Seq<LabelView>) -> Seq<ImageWord> {
    let counted = ((spec_count_instructions(items, items.len() as int) + 1) * 3) as usize;
    seq![
        (0usize, (spec_low16(spec_search_for_trait(labels, written("ram_size"), 0)), 0usize)),
        (1usize, (spec_low16(spec_search_for_trait(labels, written("program_size"), counted)), 0usize)),
        (2usize, (spec_low16(spec_search_for_trait(labels, written("name"), 0)), 0usize)),
    ]
}

/// What one item adds to the image. An instruction adds the three words of its slot at the
/// cursor and moves the cursor on by three. The trait `page` moves the cursor to its value.
/// Any other label adds nothing.
pub open spec fn spec_emit_item(state: Emission, item: ItemView) -> Result<Emission, EmitError> {
    match item {
        ItemView::Instruction(op, operands, line) => match spec_encode(op, operands) {
            Ok(words) => Ok(
                Emission {
                    image: state.image + seq![
                        (state.cursor as usize, (words[0], line)),
                        ((state.cursor + 1) as usize, (words[1], line)),
                        ((state.cursor + 2) as usize, (words[2], line)),
                    ],
                    cursor: state.cursor + 3,
                },
            ),
            Err(position) => Err(EmitError { line, position: position as usize }),
        },
        ItemView::Label(LabelView::Trait(name, value)) => Ok(
            Emission {
                cursor: if name == written("page") {
                    value as int
                } else {
                    state.cursor
                },
                ..state
            },
        ),
        ItemView::Label(_) => Ok(state),
    }
}

/// The image after the first `n` items: the header, then what each item adds, or the error
/// of the first instruction that cannot be encoded.
pub open spec fn spec_emit(items: Seq<ItemView>, labels: Seq<LabelView>, n: int) -> Result<
    Emission,
    EmitError,
>
    decreases n,
{
    if n <= 0 {
        Ok(Emission { image: spec_header(items, labels), cursor: 3 })
    } else {
        match spec_emit(items, labels, n - 1) {
            Ok(state) => spec_emit_item(state, items[n - 1]),
            Err(error) => Err(error),
        }
    }
}

/// The program image of a stream of items.
pub open spec fn spec_compile(items: Seq<ItemView>, labels: Seq<LabelView>) -> Result<
    Seq<ImageWord>,
    EmitError,
> {
    match spec_emit(items, labels, items.len() as int) {
        Ok(state) => Ok(state.image),
        Err(error) => Err(error),
    }
}

/// The emitter's cursor stays within three words per item of the highest page, and the
/// image holds the header and three words for each instruction.
pub proof fn lemma_emit_bounds(items: Seq<ItemView>, labels: Seq<LabelView>, n: int)
    requires
        0 <= n <= items.len(),
    ensures
        match spec_emit(items, labels, n) {
            Ok(state) => 0 <= state.cursor <= 0xffff + 3 * n + 3 && state.image.len() == 3 + 3
                * spec_count_instructions(items, n),
            Err(_) => true,
        },
        0 <= spec_count_instructions(items, n) <= n,
    decreases n,
{
    if n > 0 {
        lemma_emit_bounds(items, labels, n - 1);
    }
}

fn count_instructions(items: &Vec<Item>) -> (count: usize)
    ensures
        count == spec_count_instructions(items_view(items@), items@.len() as int),
{
    let mut count: usize = 0;
    let mut i: usize = 0;
    while i < items.len()
        invariant
            i <= items.len(),
            count <= i,
            count == spec_count_instructions(items_view(items@), i as int),
        decreases items.len() - i,
    {
        match &items[i] {
            Item::Instruction(_, _, _) => {
                count += 1;
            },
            _ => {},
        }
        i += 1;
    }
    count
}

/// Serialises a stream of items into a program image: the three words of the header, then
/// one slot of three words for each instruction at the cursor, which the trait `page`
/// relocates. Fails on the first instruction with an operand that does not fit its slot.
pub fn compile_script(instructions: Vec<Item>, labels: Vec<Label>) -> (r: Result<
    Vec<ImageWord>,
    EmitError,
>)
    requires
        0xffff + 3 * instructions.len() + 3 <= usize::MAX,
    ensures
        match r {
            Ok(image) => spec_compile(items_view(instructions@), labels_view(labels@)) == Ok::<
                Seq<ImageWord>,
                EmitError,
            >(image@),
            Err(error) => spec_compile(items_view(instructions@), labels_view(labels@)) == Err::<
                Seq<ImageWord>,
                EmitError,
            >(error),
        },
{
    let ghost items = items_view(instructions@);
    let ghost known = labels_view(labels@);
    let count = count_instructions(&instructions);
    proof {
        lemma_emit_bounds(items, known, items.len() as int);
    }
    let mut image: Vec<ImageWord> = Vec::new();
    image.push((0, (low16(search_for_trait(&labels, "ram_size", 0)), 0)));
    image.push((1, (low16(search_for_trait(&labels, "program_size", (count + 1) * 3)), 0)));
    image.push((2, (low16(search_for_trait(&labels, "name", 0)), 0)));
    assert(image@ =~= spec_header(items, known));
    let mut cursor: usize = 3;
    let mut i: usize = 0;
    while i < instructions.len()
        invariant
            i <= instructions.len(),
            0xffff + 3 * instructions.len() + 3 <= usize::MAX,
            items == items_view(instructions@),
            known == labels_view(labels@),
            spec_emit(items, known, i as int) == Ok::<Emission, EmitError>(
                Emission { image: image@, cursor: cursor as int },
            ),
        decreases instructions.len() - i,
    {
        proof {
            lemma_emit_bounds(items, known, i as int);
            lemma_emit_bounds(items, known, i + 1);
            assert(items[i as int] == instructions@[i as int]@);
        }
        match &instructions[i] {
            Item::Instruction(op, operands, line) => {
                match encode(*op, operands) {
                    Ok(words) => {
                        let ghost before = image@;
                        image.push((cursor, (words[0], *line)));
                        image.push((cursor + 1, (words[1], *line)));
                        image.push((cursor + 2, (words[2], *line)));
                        assert(image@ =~= before + seq![
                            (cursor, (words@[0], *line)),
                            ((cursor + 1) as usize, (words@[1], *line)),
                            ((cursor + 2) as usize, (words@[2], *line)),
                        ]);
                        cursor = cursor + 3;
                    },
                    Err(position) => {
                        proof {
                            lemma_emit_error_stays(items, known, i + 1, items.len() as int);
                        }
                        return Err(EmitError { line: *line, position });
                    },
                }
            },
            Item::Label(Label::Trait(name, value)) => {
                if same_text(name.as_str(), "page") {
                    cursor = *value as usize;
                }
            },
            Item::Label(_) => {},
        }
        i += 1;
    }
    Ok(image)
}

/// Once an instruction has failed, the items behind it change nothing.
proof fn lemma_emit_error_stays(
    items: Seq<ItemView>,
    labels: Seq<LabelView>,
    failed: int,
    n: int,
)
    requires
        0 <= failed <= n,
        spec_emit(items, labels, failed) is Err,
    ensures
        spec_emit(items, labels, n) == spec_emit(items, labels, failed),
    decreases n - failed,
{
    if failed < n {
        lemma_emit_error_stays(items, labels, failed, n - 1);
    }
}

/// Every instruction takes one slot: what the emitter adds for it are three words, at the
/// cursor and the two indices behind it, and the cursor moves on by three.
pub proof fn lemma_slot_stride(state: Emission, op: Opcode, operands: Seq<Parameter>, line: usize)
    requires
        spec_encode(op, operands) is Ok,
    ensures
        spec_encode(op, operands)->Ok_0.len() == 3,
        spec_emit_item(state, ItemView::Instruction(op, operands, line)) is Ok,
        ({
            let after = spec_emit_item(state, ItemView::Instruction(op, operands, line))->Ok_0;
            let n = state.image.len() as int;
            &&& after.cursor == state.cursor + 3
            &&& after.image.len() == n + 3
            &&& after.image.subrange(0, n) == state.image
            &&& after.image[n].0 == state.cursor as usize
            &&& after.image[n + 1].0 == (state.cursor + 1) as usize
            &&& after.image[n + 2].0 == (state.cursor + 2) as usize
        }),
{
    let after = spec_emit_item(state, ItemView::Instruction(op, operands, line))->Ok_0;
    assert(after.image.subrange(0, state.image.len() as int) =~= state.image);
}

/// A program image holds the three words of the header and three words for each
/// instruction of the stream.
pub proof fn lemma_image_size(items: Seq<ItemView>, labels: Seq<LabelView>)
    ensures
        spec_compile(items, labels) is Ok ==> spec_compile(items, labels)->Ok_0.len() == 3 + 3
            * spec_count_instructions(items, items.len() as int),
{
    lemma_emit_bounds(items, labels, items.len() as int);
}

} // verus!
