use vstd::prelude::*;
use vstd::string::StringSliceAdditionalSpecFns;
use vstd::utf8::*;

verus! {

/// The first index at or after `index` that lies on a codepoint boundary of `bytes`, or
/// `index` itself once it has reached the end of the text.
pub open spec fn spec_next_valid_index(index: int, bytes: Seq<u8>) -> int
    decreases bytes.len() - index,
{
    if index >= bytes.len() || is_char_boundary(bytes, index) {
        index
    } else {
        spec_next_valid_index(index + 1, bytes)
    }
}

/// The last index at or before `index` that lies on a codepoint boundary of `bytes`.
pub open spec fn spec_last_valid_index(index: int, bytes: Seq<u8>) -> int
    decreases index,
{
    if index <= 0 || is_char_boundary(bytes, index) {
        index
    } else {
        spec_last_valid_index(index - 1, bytes)
    }
}

/// Moves a byte index forward to the next codepoint boundary of `text`.
pub fn next_valid_index(index: usize, text: &str) -> (r: usize)
    ensures
        r == spec_next_valid_index(index as int, text.spec_bytes()),
{
    let mut index = index;
    let ghost start = index;
    let len = text.as_bytes().len();
    while index < len && !text.is_char_boundary(index)
        invariant
            len == text.spec_bytes().len(),
            spec_next_valid_index(index as int, text.spec_bytes()) == spec_next_valid_index(
                start as int,
                text.spec_bytes(),
            ),
        decreases text.spec_bytes().len() - index,
    {
        index += 1;
    }
    index
}

/// Moves a byte index back to the previous codepoint boundary of `text`.
pub fn last_valid_index(index: usize, text: &str) -> (r: usize)
    ensures
        r == spec_last_valid_index(index as int, text.spec_bytes()),
{
    let mut index = index;
    let ghost start = index;
    while index > 0 && !text.is_char_boundary(index)
        invariant
            spec_last_valid_index(index as int, text.spec_bytes()) == spec_last_valid_index(
                start as int,
                text.spec_bytes(),
            ),
        decreases index,
    {
        index -= 1;
    }
    index
}

/// The single characters that end a token and stand as a token of their own.
pub open spec fn spec_is_break_byte(b: u8) -> bool {
    b == 0x20 || b == 0x0a || b == 0x09 || b == 0x21 || b == 0x40 || b == 0x23 || b == 0x24
        || b == 0x25 || b == 0x5e || b == 0x26 || b == 0x2a || b == 0x28 || b == 0x29 || b == 0x2d
        || b == 0x3d || b == 0x2b || b == 0x5b || b == 0x5d || b == 0x7b || b == 0x7d || b == 0x3b
        || b == 0x3a || b == 0x27 || b == 0x22 || b == 0x2c || b == 0x3c || b == 0x2e || b == 0x3e
        || b == 0x2f || b == 0x3f || b == 0x5c || b == 0x7c
}

/// Whether a byte is a break character.
#[verifier::when_used_as_spec(spec_is_break_byte)]
pub fn is_break_byte(b: u8) -> (r: bool)
    ensures
        r == spec_is_break_byte(b),
{
    b == 0x20 || b == 0x0a || b == 0x09 || b == 0x21 || b == 0x40 || b == 0x23 || b == 0x24
        || b == 0x25 || b == 0x5e || b == 0x26 || b == 0x2a || b == 0x28 || b == 0x29 || b == 0x2d
        || b == 0x3d || b == 0x2b || b == 0x5b || b == 0x5d || b == 0x7b || b == 0x7d || b == 0x3b
        || b == 0x3a || b == 0x27 || b == 0x22 || b == 0x2c || b == 0x3c || b == 0x2e || b == 0x3e
        || b == 0x2f || b == 0x3f || b == 0x5c || b == 0x7c
}

/// Whether the force-split glyph, the inverted exclamation mark U+00A1, is encoded at `i`.
pub open spec fn glyph_at(bytes: Seq<u8>, i: int) -> bool {
    0 <= i && i + 1 < bytes.len() && bytes[i] == 0xc2 && bytes[i + 1] == 0xa1
}

/// Whether the two-character break `//` starts at `i`.
pub open spec fn slash_pair_at(bytes: Seq<u8>, i: int) -> bool {
    0 <= i && i + 1 < bytes.len() && bytes[i] == 0x2f && bytes[i + 1] == 0x2f
}

/// Whether the byte at `i` lies inside an occurrence of a break sequence that is longer than
/// one character.
pub open spec fn spec_part_of_large_token(bytes: Seq<u8>, i: int) -> bool {
    slash_pair_at(bytes, i) || slash_pair_at(bytes, i - 1)
}

/// Whether a token that is no run of ordinary characters starts at `i`.
pub open spec fn special_at(bytes: Seq<u8>, i: int) -> bool {
    0 <= i < bytes.len() && (spec_is_break_byte(bytes[i]) || glyph_at(bytes, i))
}

/// Where the run of ordinary characters that covers `i` ends: the first index from `i` on at
/// which a break character or the glyph starts, or the end of the text.
pub open spec fn run_end(bytes: Seq<u8>, i: int) -> int
    decreases bytes.len() - i,
{
    if i >= bytes.len() {
        bytes.len() as int
    } else if special_at(bytes, i) {
        i
    } else {
        run_end(bytes, i + 1)
    }
}

/// Length of the token that a non-empty text starts with.
pub open spec fn spec_first_token_len(bytes: Seq<u8>) -> int {
    if glyph_at(bytes, 0) {
        2
    } else if spec_is_break_byte(bytes[0]) {
        if spec_part_of_large_token(bytes, 0) {
            2
        } else {
            1
        }
    } else {
        run_end(bytes, 1)
    }
}

/// The tokens of a text, in order: each is the glyph, a break sequence, or a maximal run of
/// other characters; together they make up the text.
pub open spec fn tokens_of(bytes: Seq<u8>) -> Seq<Seq<u8>>
    decreases bytes.len(),
    via tokens_of_decreases
{
    if bytes.len() == 0 {
        Seq::empty()
    } else {
        let k = spec_first_token_len(bytes);
        seq![bytes.subrange(0, k)] + tokens_of(bytes.subrange(k, bytes.len() as int))
    }
}

#[via_fn]
proof fn tokens_of_decreases(bytes: Seq<u8>) {
    if bytes.len() > 0 {
        lemma_first_token_len_bounds(bytes);
    }
}

/// `run_end` stays within the text and ends where the next special token starts.
pub proof fn lemma_run_end_bounds(bytes: Seq<u8>, i: int)
    requires
        0 <= i <= bytes.len(),
    ensures
        i <= run_end(bytes, i) <= bytes.len(),
        run_end(bytes, i) < bytes.len() ==> special_at(bytes, run_end(bytes, i)),
        forall|j: int| i <= j < run_end(bytes, i) ==> !special_at(bytes, j),
    decreases bytes.len() - i,
{
    if i < bytes.len() && !special_at(bytes, i) {
        lemma_run_end_bounds(bytes, i + 1);
    }
}

/// Every non-empty text starts with a token of at least one byte that fits in the text.
pub proof fn lemma_first_token_len_bounds(bytes: Seq<u8>)
    requires
        bytes.len() > 0,
    ensures
        0 < spec_first_token_len(bytes) <= bytes.len(),
{
    lemma_run_end_bounds(bytes, 1);
}

/// Says whether the byte at `char_index` belongs to a break sequence of more than one
/// character in `text`, so that it must not be split off alone.
pub fn part_of_large_token(text: &str, char_index: usize) -> (r: bool)
    ensures
        r == spec_part_of_large_token(text.spec_bytes(), char_index as int),
{
    let bytes = text.as_bytes();
    let n = bytes.len();
    if char_index >= n {
        return false;
    }
    if bytes[char_index] != 0x2f {
        return false;
    }
    let after = char_index + 1 < n && bytes[char_index + 1] == 0x2f;
    let before = char_index > 0 && bytes[char_index - 1] == 0x2f;
    after || before
}

/// In well-formed text every break character and every glyph starts on a codepoint
/// boundary, and so does whatever follows the text's first token.
proof fn lemma_token_boundaries(bytes: Seq<u8>)
    requires
        valid_utf8(bytes),
        bytes.len() > 0,
    ensures
        is_char_boundary(bytes, spec_first_token_len(bytes)),
        forall|j: int| special_at(bytes, j) ==> is_char_boundary(bytes, j),
{
    let k = spec_first_token_len(bytes);
    lemma_first_token_len_bounds(bytes);
    lemma_run_end_bounds(bytes, 1);
    is_char_boundary_start_end_of_seq(bytes);
    assert forall|j: int| special_at(bytes, j) implies is_char_boundary(bytes, j) by {
        is_char_boundary_iff_not_is_continuation_byte(bytes, j);
    }
    if glyph_at(bytes, 0) {
        reveal_with_fuel(is_char_boundary, 2);
        reveal_with_fuel(valid_utf8, 2);
    } else if spec_is_break_byte(bytes[0]) {
        reveal_with_fuel(valid_utf8, 3);
        let rest = pop_first_scalar(bytes);
        assert(rest == bytes.subrange(1, bytes.len() as int));
        assert(is_char_boundary(bytes, 1)) by {
            reveal_with_fuel(is_char_boundary, 2);
        }
        if spec_part_of_large_token(bytes, 0) {
            assert(rest[0] == bytes[1]);
            assert(pop_first_scalar(rest) == rest.subrange(1, rest.len() as int));
            assert(is_char_boundary(rest, 1)) by {
                reveal_with_fuel(is_char_boundary, 2);
            }
            assert(is_char_boundary(bytes, 2)) by {
                reveal_with_fuel(is_char_boundary, 2);
            }
        }
    }
}

/// Skipping ahead to the next codepoint boundary passes over no break character and no
/// glyph.
proof fn lemma_run_end_skips(bytes: Seq<u8>, i: int)
    requires
        valid_utf8(bytes),
        0 <= i <= bytes.len(),
    ensures
        run_end(bytes, i) == run_end(bytes, spec_next_valid_index(i, bytes)),
        i <= spec_next_valid_index(i, bytes) <= bytes.len(),
    decreases bytes.len() - i,
{
    if i < bytes.len() && !is_char_boundary(bytes, i) {
        is_char_boundary_iff_not_is_continuation_byte(bytes, i);
        lemma_run_end_skips(bytes, i + 1);
    }
}

/// Length in bytes of the token that `text` starts with.
pub fn first_token_len(text: &str) -> (k: usize)
    requires
        text.spec_bytes().len() > 0,
    ensures
        k == spec_first_token_len(text.spec_bytes()),
        0 < k <= text.spec_bytes().len(),
        is_char_boundary(text.spec_bytes(), k as int),
{
    let bytes = text.as_bytes();
    let n = bytes.len();
    proof {
        encode_utf8_valid_utf8(text@);
        lemma_token_boundaries(bytes@);
        lemma_first_token_len_bounds(bytes@);
    }
    if n >= 2 && bytes[0] == 0xc2 && bytes[1] == 0xa1 {
        return 2;
    }
    if is_break_byte(bytes[0]) {
        if part_of_large_token(text, 0) {
            return 2;
        }
        return 1;
    }
    let mut k: usize = next_valid_index(1, text);
    proof {
        lemma_run_end_skips(bytes@, 1);
    }
    while k < n && !(is_break_byte(bytes[k]) || (k + 1 < n && bytes[k] == 0xc2 && bytes[k + 1]
        == 0xa1))
        invariant
            n == bytes@.len(),
            bytes@ == text.spec_bytes(),
            valid_utf8(bytes@),
            1 <= k <= n,
            run_end(bytes@, k as int) == run_end(bytes@, 1),
        decreases n - k,
    {
        proof {
            lemma_run_end_skips(bytes@, k + 1);
        }
        k = next_valid_index(k + 1, text);
    }
    k
}

/// The byte contents of a list of texts.
pub open spec fn strs_bytes(parts: Seq<&str>) -> Seq<Seq<u8>> {
    Seq::new(parts.len(), |i: int| parts[i].spec_bytes())
}

/// Splits a text into its tokens.
pub fn split_text<'a>(text: &'a str) -> (tokens: Vec<&'a str>)
    ensures
        strs_bytes(tokens@) == tokens_of(text.spec_bytes()),
{
    let mut tokens: Vec<&'a str> = Vec::new();
    let mut rest: &'a str = text;
    assert(strs_bytes(tokens@) =~= Seq::<Seq<u8>>::empty());
    while rest.as_bytes().len() > 0
        invariant
            strs_bytes(tokens@) + tokens_of(rest.spec_bytes()) == tokens_of(text.spec_bytes()),
        decreases rest.spec_bytes().len(),
    {
        let k = first_token_len(rest);
        let (token, tail) = rest.split_at(k);
        proof {
            let before = strs_bytes(tokens@);
            let after = strs_bytes(tokens@.push(token));
            assert(after =~= before + seq![token.spec_bytes()]);
            assert(tokens_of(rest.spec_bytes()) == seq![token.spec_bytes()] + tokens_of(
                tail.spec_bytes(),
            ));
            assert(after + tokens_of(tail.spec_bytes()) =~= before + tokens_of(rest.spec_bytes()));
        }
        tokens.push(token);
        rest = tail;
    }
    assert(tokens_of(rest.spec_bytes()) =~= Seq::<Seq<u8>>::empty());
    assert(strs_bytes(tokens@) + Seq::<Seq<u8>>::empty() =~= strs_bytes(tokens@));
    tokens
}

/// The tokens of each text of a list, one text after the other.
pub open spec fn spec_split_all(parts: Seq<Seq<u8>>) -> Seq<Seq<u8>>
    decreases parts.len(),
{
    if parts.len() == 0 {
        Seq::empty()
    } else {
        spec_split_all(parts.drop_last()) + tokens_of(parts.last())
    }
}

/// Replaces each text in `line` by its tokens, in place and in order.
pub fn split_line<'a>(line: &mut Vec<&'a str>)
    ensures
        strs_bytes(final(line)@) == spec_split_all(strs_bytes(old(line)@)),
{
    let mut out: Vec<&'a str> = Vec::new();
    let mut i: usize = 0;
    assert(strs_bytes(out@) =~= Seq::<Seq<u8>>::empty());
    assert(strs_bytes(line@.take(0)) =~= Seq::<Seq<u8>>::empty());
    while i < line.len()
        invariant
            i <= line.len(),
            *line == *old(line),
            strs_bytes(out@) == spec_split_all(strs_bytes(line@.take(i as int))),
        decreases line.len() - i,
    {
        let mut tokens = split_text(line[i]);
        proof {
            let done = strs_bytes(line@.take(i as int));
            let next = strs_bytes(line@.take(i + 1));
            assert(next.drop_last() =~= done);
            assert(next.last() == line@[i as int].spec_bytes());
            assert(strs_bytes(out@ + tokens@) =~= strs_bytes(out@) + strs_bytes(tokens@));
        }
        out.append(&mut tokens);
        i += 1;
    }
    assert(line@.take(i as int) =~= line@);
    *line = out;
}

/// A token that carries nothing: empty, a space or a comma.
pub open spec fn spec_is_blank(token: Seq<u8>) -> bool {
    token.len() == 0 || token == seq![0x20u8] || token == seq![0x2cu8]
}

/// The token `;`, which starts a comment.
pub open spec fn spec_is_comment_mark(token: Seq<u8>) -> bool {
    token == seq![0x3bu8]
}

/// The tokens of a line that the assembler reads: blank tokens are dropped, and so is
/// everything from the first `;` on.
pub open spec fn significant(tokens: Seq<Seq<u8>>) -> Seq<Seq<u8>>
    decreases tokens.len(),
{
    if tokens.len() == 0 || spec_is_comment_mark(tokens[0]) {
        Seq::empty()
    } else if spec_is_blank(tokens[0]) {
        significant(tokens.drop_first())
    } else {
        seq![tokens[0]] + significant(tokens.drop_first())
    }
}

fn is_blank(token: &str) -> (r: bool)
    ensures
        r == spec_is_blank(token.spec_bytes()),
{
    let bytes = token.as_bytes();
    if bytes.len() == 0 {
        return true;
    }
    let r = bytes.len() == 1 && (bytes[0] == 0x20 || bytes[0] == 0x2c);
    proof {
        if r {
            assert(bytes@ =~= seq![bytes@[0]]);
        }
        assert(seq![0x20u8].len() == 1 && seq![0x20u8][0] == 0x20);
        assert(seq![0x2cu8].len() == 1 && seq![0x2cu8][0] == 0x2c);
    }
    r
}

fn is_comment_mark(token: &str) -> (r: bool)
    ensures
        r == spec_is_comment_mark(token.spec_bytes()),
{
    let bytes = token.as_bytes();
    let r = bytes.len() == 1 && bytes[0] == 0x3b;
    proof {
        if r {
            assert(bytes@ =~= seq![bytes@[0]]);
        }
        assert(seq![0x3bu8].len() == 1 && seq![0x3bu8][0] == 0x3b);
    }
    r
}

/// Splits one line of source text into the tokens that the assembler reads.
pub fn tokenize_line<'a>(text: &'a str) -> (tokens: Vec<&'a str>)
    ensures
        strs_bytes(tokens@) == significant(tokens_of(text.spec_bytes())),
{
    let all = split_text(text);
    let mut tokens: Vec<&'a str> = Vec::new();
    let mut i: usize = 0;
    let ghost all_bytes = strs_bytes(all@);
    assert(strs_bytes(tokens@) =~= Seq::<Seq<u8>>::empty());
    assert(all_bytes.skip(0) =~= all_bytes);
    while i < all.len() && !is_comment_mark(all[i])
        invariant
            i <= all.len(),
            all_bytes == strs_bytes(all@),
            strs_bytes(tokens@) + significant(all_bytes.skip(i as int)) == significant(all_bytes),
        decreases all.len() - i,
    {
        proof {
            let rest = all_bytes.skip(i as int);
            assert(rest[0] == all@[i as int].spec_bytes());
            assert(rest.drop_first() =~= all_bytes.skip(i + 1));
            assert(strs_bytes(tokens@.push(all@[i as int])) =~= strs_bytes(tokens@) + seq![
                all@[i as int].spec_bytes(),
            ]);
        }
        if !is_blank(all[i]) {
            tokens.push(all[i]);
        }
        i += 1;
    }
    proof {
        let rest = all_bytes.skip(i as int);
        if i < all.len() {
            assert(rest[0] == all@[i as int].spec_bytes());
        }
        assert(significant(rest) =~= Seq::<Seq<u8>>::empty());
    }
    tokens
}

/// The byte contents of a tokenised script: each line's tokens with the line's tag.
pub open spec fn script_bytes(script: Seq<(Vec<&str>, usize)>) -> Seq<(Seq<Seq<u8>>, usize)> {
    Seq::new(script.len(), |i: int| (strs_bytes(script[i].0@), script[i].1))
}

/// The tokenised lines of the first `upto` lines of a source text: every line that holds a
/// token, with its tokens and its index among all lines.
pub open spec fn spec_tokenize_script(lines: Seq<Seq<u8>>, upto: int) -> Seq<
    (Seq<Seq<u8>>, usize),
>
    decreases upto,
{
    if upto <= 0 {
        Seq::empty()
    } else {
        let earlier = spec_tokenize_script(lines, upto - 1);
        let tokens = significant(tokens_of(lines[upto - 1]));
        if tokens.len() == 0 {
            earlier
        } else {
            earlier.push((tokens, (upto - 1) as usize))
        }
    }
}

/// Tokenises a source text given as its lines; lines without tokens are left out, the others
/// keep the index of their line as tag.
pub fn tokenize_script<'a>(lines: &Vec<&'a str>) -> (script: Vec<(Vec<&'a str>, usize)>)
    ensures
        script_bytes(script@) == spec_tokenize_script(strs_bytes(lines@), lines@.len() as int),
{
    let mut script: Vec<(Vec<&'a str>, usize)> = Vec::new();
    let mut i: usize = 0;
    assert(script_bytes(script@) =~= Seq::<(Seq<Seq<u8>>, usize)>::empty());
    while i < lines.len()
        invariant
            i <= lines.len(),
            script_bytes(script@) == spec_tokenize_script(strs_bytes(lines@), i as int),
        decreases lines.len() - i,
    {
        let tokens = tokenize_line(lines[i]);
        if tokens.len() > 0 {
            proof {
                assert(script_bytes(script@.push((tokens, i))) =~= script_bytes(script@).push(
                    (strs_bytes(tokens@), i),
                ));
            }
            script.push((tokens, i));
        }
        i += 1;
    }
    script
}

/// The texts of a list, one behind the other.
pub open spec fn joined(parts: Seq<Seq<u8>>) -> Seq<u8>
    decreases parts.len(),
{
    if parts.len() == 0 {
        Seq::empty()
    } else {
        parts[0] + joined(parts.drop_first())
    }
}

/// What a token is: the glyph, a single break character, the break `//`, or a run of
/// characters that holds neither a break character nor the glyph. No token is empty.
pub open spec fn is_token(token: Seq<u8>) -> bool {
    ||| token == seq![0xc2u8, 0xa1u8]
    ||| token.len() == 1 && spec_is_break_byte(token[0])
    ||| token == seq![0x2fu8, 0x2fu8]
    ||| token.len() > 0 && forall|i: int| 0 <= i < token.len() ==> !special_at(token, i)
}

/// The tokens of a text make up the text: nothing is lost and nothing is added.
pub proof fn lemma_tokens_make_up_text(bytes: Seq<u8>)
    ensures
        joined(tokens_of(bytes)) == bytes,
    decreases bytes.len(),
{
    if bytes.len() > 0 {
        lemma_first_token_len_bounds(bytes);
        let k = spec_first_token_len(bytes);
        let rest = bytes.subrange(k, bytes.len() as int);
        lemma_tokens_make_up_text(rest);
        let tokens = tokens_of(bytes);
        assert(tokens[0] == bytes.subrange(0, k));
        assert(tokens.drop_first() =~= tokens_of(rest));
        assert(bytes.subrange(0, k) + rest =~= bytes);
    } else {
        assert(joined(tokens_of(bytes)) =~= bytes);
    }
}

/// The token that a text starts with is the glyph, a single break character, the break
/// `//`, or a run without break characters and glyphs.
pub proof fn lemma_first_token_is_token(bytes: Seq<u8>)
    requires
        bytes.len() > 0,
    ensures
        is_token(bytes.subrange(0, spec_first_token_len(bytes))),
{
    lemma_first_token_len_bounds(bytes);
    let k = spec_first_token_len(bytes);
    let token = bytes.subrange(0, k);
    if glyph_at(bytes, 0) {
        assert(token =~= seq![0xc2u8, 0xa1u8]);
    } else if spec_is_break_byte(bytes[0]) {
        if spec_part_of_large_token(bytes, 0) {
            assert(token =~= seq![0x2fu8, 0x2fu8]);
        } else {
            assert(token[0] == bytes[0]);
        }
    } else {
        lemma_run_end_bounds(bytes, 1);
        assert forall|i: int| 0 <= i < token.len() implies !special_at(token, i) by {
            assert(token[i] == bytes[i]);
            assert(!special_at(bytes, i));
            if i + 1 < token.len() {
                assert(token[i + 1] == bytes[i + 1]);
            }
        }
    }
}

/// Every token of a text is a token in the sense of `is_token`.
pub proof fn lemma_tokens_are_tokens(bytes: Seq<u8>, i: int)
    requires
        0 <= i < tokens_of(bytes).len(),
    ensures
        is_token(tokens_of(bytes)[i]),
    decreases bytes.len(),
{
    if bytes.len() > 0 {
        lemma_first_token_len_bounds(bytes);
        let k = spec_first_token_len(bytes);
        let rest = bytes.subrange(k, bytes.len() as int);
        let tokens = tokens_of(bytes);
        if i == 0 {
            lemma_first_token_is_token(bytes);
        } else {
            assert(tokens[i] == tokens_of(rest)[i - 1]);
            lemma_tokens_are_tokens(rest, i - 1);
        }
    }
}

} // verus!
