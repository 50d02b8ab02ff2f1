use crate::assembler::{
    spec_find_instruction, spec_kind_matches, spec_signature_matches, written, ItemView,
    Parameter,
};
use crate::emitter::{spec_emit, spec_encode, spec_first_mismatch};
use crate::isa::{Opcode, Param};
use crate::labels::{lemma_find_label, spec_find_label, spec_resolve_number, LabelView};
use crate::parser::{
    spec_find_pseudo_below, spec_first_fit, spec_instruction_line, spec_instruction_pass,
    spec_is_declaration, spec_label_line, spec_label_pass, spec_low_word, spec_operand,
    spec_operand_errors, spec_operands,
    spec_parse, spec_pseudo, spec_pseudo_match, spec_redefinition, spec_select,
    spec_type_errors, ScriptView, PSEUDO_COUNT,
};
use crate::text::spec_tokenize_script;
use crate::toolchain::{spec_assemble, BuildErrorView};
use vstd::prelude::*;

verus! {

/// Whether every label that is no trait has a name that no label before it has.
pub open spec fn names_fresh(labels: Seq<LabelView>) -> bool {
    forall|i: int, j: int|
        0 <= j < i < labels.len() && !(labels[i] is Trait) && labels[i].name() is Some
            ==> #[trigger] labels[j].name() != #[trigger] labels[i].name()
}

/// The errors of the label pass only grow, and while there are none, no name was declared
/// twice.
pub proof fn lemma_label_pass_fresh(script: ScriptView, n: int)
    requires
        0 <= n <= script.len(),
    ensures
        spec_label_pass(script, n).errors.len() == 0 ==> names_fresh(
            spec_label_pass(script, n).labels,
        ),
        n > 0 ==> spec_label_pass(script, n - 1).errors.len() <= spec_label_pass(
            script,
            n,
        ).errors.len(),
    decreases n,
{
    if n > 0 {
        lemma_label_pass_fresh(script, n - 1);
        let before = spec_label_pass(script, n - 1);
        let after = spec_label_pass(script, n);
        let tokens = script[n - 1].0;
        let line = script[n - 1].1;
        assert(after == spec_label_line(before, tokens, line));
        if after.errors.len() == 0 {
            assert(before.errors.len() == 0);
            assert(after.labels =~= before.labels || (after.labels.len() == before.labels.len() + 1
                && after.labels.drop_last() =~= before.labels));
            if after.labels.len() == before.labels.len() + 1 {
                let added = after.labels.last();
                if !(added is Trait) {
                    assert(spec_redefinition(before.labels, tokens[2], line).len() == 0);
                    assert(added.name() == Some(tokens[2]));
                    lemma_find_label(before.labels, tokens[2]);
                }
                assert forall|i: int, j: int|
                    0 <= j < i < after.labels.len() && !(after.labels[i] is Trait)
                        && after.labels[i].name() is Some implies #[trigger] after.labels[j].name()
                    != #[trigger] after.labels[i].name() by {
                    if i < before.labels.len() {
                        assert(after.labels[i] == before.labels[i]);
                        assert(after.labels[j] == before.labels[j]);
                    } else {
                        assert(after.labels[j] == before.labels[j]);
                    }
                }
            } else {
                assert(after.labels == before.labels);
            }
        }
    }
}

/// A label resolves to the cursor at which it was declared, wherever it is referred to:
/// in a script whose label pass finds no error, every name that heads a place in the
/// program resolves to that place's address.
pub proof fn lemma_label_resolution_stable(script: ScriptView, i: int)
    requires
        spec_label_pass(script, script.len() as int).errors.len() == 0,
        0 <= i < spec_label_pass(script, script.len() as int).labels.len(),
        spec_label_pass(script, script.len() as int).labels[i] is Header,
    ensures
        ({
            let labels = spec_label_pass(script, script.len() as int).labels;
            spec_resolve_number(labels[i]->Header_0, labels) == labels[i].number()
        }),
{
    let labels = spec_label_pass(script, script.len() as int).labels;
    let name = labels[i]->Header_0;
    lemma_label_pass_fresh(script, script.len() as int);
    lemma_find_label(labels, name);
    assert(labels[i].name() == Some(name));
    match spec_find_label(labels, name) {
        Some(k) => {
            if k < i {
                assert(labels[k].name() != labels[i].name());
            }
        },
        None => {},
    }
}

/// A reference to a label gives the label's value wherever it stands: on any line and at any
/// position of the line, the operand `#name` is the address of the place that `name` heads,
/// and `$name` is that address as a constant.
pub proof fn lemma_reference_resolves(
    script: ScriptView,
    k: int,
    tokens: Seq<Seq<u8>>,
    i: int,
    line: usize,
)
    requires
        spec_label_pass(script, script.len() as int).errors.len() == 0,
        0 <= k < spec_label_pass(script, script.len() as int).labels.len(),
        spec_label_pass(script, script.len() as int).labels[k] is Header,
        0 <= i,
        i + 1 < tokens.len(),
        tokens[i] == written("#") || tokens[i] == written("$"),
        tokens[i + 1] == spec_label_pass(script, script.len() as int).labels[k]->Header_0,
    ensures
        ({
            let labels = spec_label_pass(script, script.len() as int).labels;
            let address = labels[k].number()->0;
            spec_operand(tokens, i, labels, line).operands == if tokens[i] == written("#") {
                seq![Parameter::Address(address)]
            } else {
                seq![Parameter::Constant(spec_low_word(address))]
            }
        }),
{
    lemma_label_resolution_stable(script, k);
    lemma_sigils_differ();
}

/// The sigils are different words.
proof fn lemma_sigils_differ()
    ensures
        written("#") != written("%"),
        written("$") != written("%"),
        written("#") != written("$"),
{
    reveal_strlit("#");
    reveal_strlit("%");
    reveal_strlit("$");
    assert(written("#").len() == 1 && written("#")[0] == 0x23) by {
        vstd::string::is_ascii_spec_bytes("#");
    }
    assert(written("%").len() == 1 && written("%")[0] == 0x25) by {
        vstd::string::is_ascii_spec_bytes("%");
    }
    assert(written("$").len() == 1 && written("$")[0] == 0x24) by {
        vstd::string::is_ascii_spec_bytes("$");
    }
}

/// Whether an item of a stream can be encoded: a label always, an instruction if its
/// operands fit its slots in number and in kinds.
pub open spec fn spec_well_typed(item: ItemView) -> bool {
    match item {
        ItemView::Instruction(op, operands, _) => spec_signature_matches(
            op.spec_params(),
            operands,
        ),
        ItemView::Label(_) => true,
    }
}

/// Operands without an error in their kinds are of the kinds of their slots.
proof fn lemma_no_type_errors(params: Seq<Param>, operands: Seq<Parameter>, line: usize, n: int)
    requires
        0 <= n <= params.len(),
        n <= operands.len(),
        spec_type_errors(params, operands, line, n).len() == 0,
    ensures
        forall|i: int| 0 <= i < n ==> spec_kind_matches(params[i], operands[i]),
    decreases n,
{
    if n > 0 {
        lemma_no_type_errors(params, operands, line, n - 1);
    }
}

/// The instruction that a pseudo-instruction stands for takes the operands given.
proof fn lemma_first_fit_fits(candidates: Seq<Opcode>, operands: Seq<Parameter>, n: int)
    requires
        0 <= n <= candidates.len(),
    ensures
        spec_first_fit(candidates, operands, n) is Some ==> spec_signature_matches(
            spec_first_fit(candidates, operands, n)->0.spec_params(),
            operands,
        ),
    decreases n,
{
    if n > 0 {
        lemma_first_fit_fits(candidates, operands, n - 1);
    }
}

/// An instruction that is selected without an error takes the operands given.
proof fn lemma_select_well_typed(
    direct: bool,
    mnemonic: Seq<u8>,
    operands: Seq<Parameter>,
    line: usize,
)
    ensures
        ({
            let selected = spec_select(direct, mnemonic, operands, line);
            selected.1.len() == 0 ==> selected.0 is Some && spec_signature_matches(
                selected.0->0.spec_params(),
                operands,
            )
        }),
{
    let selected = spec_select(direct, mnemonic, operands, line);
    if selected.1.len() == 0 {
        let surface = if direct {
            None
        } else {
            spec_pseudo_match(mnemonic, operands)
        };
        match surface {
            Some(op) => {
                let i = spec_find_pseudo_below(mnemonic, PSEUDO_COUNT as int)->0;
                lemma_first_fit_fits(spec_pseudo(i), operands, spec_pseudo(i).len() as int);
            },
            None => {
                let op = spec_find_instruction(mnemonic)->0;
                let params = op.spec_params();
                assert(spec_operand_errors(op, operands, line).len() == 0);
                assert(params.len() == operands.len());
                lemma_no_type_errors(params, operands, line, params.len() as int);
            },
        }
    }
}

/// The instruction pass only adds errors, and while it has found none, every instruction
/// in the stream takes its operands.
pub proof fn lemma_assembled_well_typed(script: ScriptView, labels: Seq<LabelView>, n: int)
    requires
        0 <= n,
    ensures
        n > 0 ==> spec_instruction_pass(script, labels, n - 1).errors.len() <= spec_instruction_pass(
            script,
            labels,
            n,
        ).errors.len(),
        spec_instruction_pass(script, labels, n).errors.len() == 0 ==> forall|i: int|
            0 <= i < spec_instruction_pass(script, labels, n).items.len() ==> spec_well_typed(
                #[trigger] spec_instruction_pass(script, labels, n).items[i],
            ),
    decreases n,
{
    if n > 0 {
        lemma_assembled_well_typed(script, labels, n - 1);
        let before = spec_instruction_pass(script, labels, n - 1);
        let after = spec_instruction_pass(script, labels, n);
        let tokens = script[n - 1].0;
        let line = script[n - 1].1;
        assert(after == spec_instruction_line(before, tokens, line, labels));
        if tokens.len() > 0 && !spec_is_declaration(tokens) {
            let direct = tokens[0] == written("*");
            let at: int = if direct {
                1
            } else {
                0
            };
            if at < tokens.len() {
                let operands = spec_operands(tokens, at + 1, labels, line);
                lemma_select_well_typed(direct, tokens[at], operands.0, line);
            }
        }
        if after.errors.len() == 0 {
            assert forall|i: int| 0 <= i < after.items.len() implies spec_well_typed(
                #[trigger] after.items[i],
            ) by {
                if i < before.items.len() {
                    assert(after.items[i] == before.items[i]);
                }
            }
        }
    }
}

/// Operands that fit the slots of an instruction in number and in kinds can be encoded.
pub proof fn lemma_well_typed_encodes(op: Opcode, operands: Seq<Parameter>)
    requires
        spec_signature_matches(op.spec_params(), operands),
    ensures
        spec_encode(op, operands) is Ok,
{
    lemma_matching_no_mismatch(op.spec_params(), operands, operands.len() as int);
}

proof fn lemma_matching_no_mismatch(params: Seq<Param>, operands: Seq<Parameter>, n: int)
    requires
        spec_signature_matches(params, operands),
        0 <= n <= operands.len(),
    ensures
        spec_first_mismatch(params, operands, n) is None,
    decreases n,
{
    if n > 0 {
        lemma_matching_no_mismatch(params, operands, n - 1);
        assert(spec_kind_matches(params[n - 1], operands[n - 1]));
    }
}

/// A stream of items that can all be encoded gives an image.
pub proof fn lemma_well_typed_emits(items: Seq<ItemView>, labels: Seq<LabelView>, n: int)
    requires
        0 <= n <= items.len(),
        forall|i: int| 0 <= i < items.len() ==> spec_well_typed(#[trigger] items[i]),
    ensures
        spec_emit(items, labels, n) is Ok,
    decreases n,
{
    if n > 0 {
        lemma_well_typed_emits(items, labels, n - 1);
        assert(spec_well_typed(items[n - 1]));
        match items[n - 1] {
            ItemView::Instruction(op, operands, _) => {
                lemma_well_typed_encodes(op, operands);
            },
            ItemView::Label(_) => {},
        }
    }
}

/// What the assembler accepts, the emitter can encode: no source text fails for an operand
/// that does not fit its slot.
pub proof fn lemma_accepted_text_has_an_image(lines: Seq<Seq<u8>>)
    ensures
        !(spec_assemble(lines) matches Err(BuildErrorView::Unencodable(_))),
{
    let script = spec_tokenize_script(lines, lines.len() as int);
    match spec_parse(script) {
        Ok((items, labels)) => {
            let pass = spec_label_pass(script, script.len() as int);
            lemma_assembled_well_typed(script, pass.labels, script.len() as int);
            lemma_well_typed_emits(items, labels, items.len() as int);
        },
        Err(_) => {},
    }
}

} // verus!
