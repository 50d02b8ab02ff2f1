use crate::assembler::AsmError;
use crate::emitter::{compile_script, spec_compile, EmitError, ImageWord};
use crate::parser::{lemma_parse_length, parse_sudo, spec_parse};
use crate::text::{script_bytes, spec_tokenize_script, strs_bytes, tokenize_script};
use vstd::prelude::*;

verus! {

/// Why a source text gives no program image.
#[derive(Debug)]
pub enum BuildError {
    /// The assembler rejected the text: all the errors of the pass that failed.
    Rejected(Vec<AsmError>),
    /// An instruction could not be encoded.
    /// The instruction that could not be encoded.
    Unencodable(EmitError),
}

/// What a build error holds, with the errors as a sequence.
pub enum BuildErrorView {
    /// The errors of the pass that failed.
    Rejected(Seq<AsmError>),
    Unencodable(EmitError),
}

impl View for BuildError {
    type V = BuildErrorView;

    open spec fn view(&self) -> BuildErrorView {
        match self {
            BuildError::Rejected(errors) => BuildErrorView::Rejected(errors@),
            BuildError::Unencodable(error) => BuildErrorView::Unencodable(*error),
        }
    }
}

/// The program image of a source text, given as the bytes of its lines: the lines are
/// tokenised, the labels resolved, the instructions typed, and the stream emitted. No image
/// is made if the assembler finds an error.
pub open spec fn spec_assemble(lines: Seq<Seq<u8>>) -> Result<Seq<ImageWord>, BuildErrorView> {
    match spec_parse(spec_tokenize_script(lines, lines.len() as int)) {
        Err(errors) => Err(BuildErrorView::Rejected(errors)),
        Ok((items, labels)) => match spec_compile(items, labels) {
            Err(error) => Err(BuildErrorView::Unencodable(error)),
            Ok(image) => Ok(image),
        },
    }
}

/// A tokenised script has no more lines than its source, and no more items come of it.
pub proof fn lemma_script_length(lines: Seq<Seq<u8>>, upto: int)
    requires
        0 <= upto,
    ensures
        spec_tokenize_script(lines, upto).len() <= upto,
    decreases upto,
{
    if upto > 0 {
        lemma_script_length(lines, upto - 1);
    }
}

/// Assembles a source text, given as its lines, into a program image.
pub fn assemble(lines: &Vec<&str>) -> (r: Result<Vec<ImageWord>, BuildError>)
    requires
        0xffff + 3 * lines.len() + 3 <= usize::MAX,
    ensures
        match r {
            Ok(image) => spec_assemble(strs_bytes(lines@)) == Ok::<
                Seq<ImageWord>,
                BuildErrorView,
            >(image@),
            Err(error) => spec_assemble(strs_bytes(lines@)) == Err::<
                Seq<ImageWord>,
                BuildErrorView,
            >(error@),
        },
{
    let script = tokenize_script(lines);
    proof {
        lemma_script_length(strs_bytes(lines@), lines@.len() as int);
        assert(script_bytes(script@).len() == script@.len());
    }
    let ghost tokens = script_bytes(script@);
    match parse_sudo(script) {
        Err(errors) => Err(BuildError::Rejected(errors)),
        Ok((items, labels)) => {
            proof {
                lemma_parse_length(tokens);
            }
            match compile_script(items, labels) {
                Err(error) => Err(BuildError::Unencodable(error)),
                Ok(image) => Ok(image),
            }
        },
    }
}

} // verus!
