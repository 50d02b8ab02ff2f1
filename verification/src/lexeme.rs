use vstd::prelude::*;
use vstd::string::StringSliceAdditionalSpecFns;

verus! {

/// Whether two texts hold the same bytes.
pub fn same_text(a: &str, b: &str) -> (r: bool)
    ensures
        r == (a.spec_bytes() == b.spec_bytes()),
{
    let x = a.as_bytes();
    let y = b.as_bytes();
    if x.len() != y.len() {
        return false;
    }
    let mut i: usize = 0;
    while i < x.len()
        invariant
            i <= x.len(),
            x.len() == y.len(),
            x@ == a.spec_bytes(),
            y@ == b.spec_bytes(),
            forall|j: int| 0 <= j < i ==> x@[j] == y@[j],
        decreases x.len() - i,
    {
        if x[i] != y[i] {
            return false;
        }
        i += 1;
    }
    assert(x@ =~= y@);
    true
}

/// An ASCII letter in upper case; any other byte unchanged.
pub open spec fn spec_upper(b: u8) -> u8 {
    if 0x61 <= b <= 0x7a {
        (b - 0x20) as u8
    } else {
        b
    }
}

/// An ASCII letter in upper case; any other byte unchanged.
#[verifier::when_used_as_spec(spec_upper)]
pub fn upper(b: u8) -> (r: u8)
    ensures
        r == spec_upper(b),
{
    if 0x61 <= b && b <= 0x7a {
        b - 0x20
    } else {
        b
    }
}

/// Whether two words are equal when the case of ASCII letters is ignored.
pub open spec fn spec_same_word(a: Seq<u8>, b: Seq<u8>) -> bool {
    a.len() == b.len() && forall|i: int| 0 <= i < a.len() ==> spec_upper(a[i]) == spec_upper(b[i])
}

/// Compares two words without regard to the case of ASCII letters.
pub fn same_word(a: &str, b: &str) -> (r: bool)
    ensures
        r == spec_same_word(a.spec_bytes(), b.spec_bytes()),
{
    let x = a.as_bytes();
    let y = b.as_bytes();
    if x.len() != y.len() {
        return false;
    }
    let mut i: usize = 0;
    while i < x.len()
        invariant
            i <= x.len(),
            x.len() == y.len(),
            x@ == a.spec_bytes(),
            y@ == b.spec_bytes(),
            forall|j: int| 0 <= j < i ==> spec_upper(x@[j]) == spec_upper(y@[j]),
        decreases x.len() - i,
    {
        if upper(x[i]) != upper(y[i]) {
            return false;
        }
        i += 1;
    }
    true
}

/// The value of a digit in a radix, if the byte is a digit of that radix.
pub open spec fn spec_digit(b: u8, radix: int) -> Option<int> {
    let v: int = if 0x30 <= b <= 0x39 {
        b - 0x30
    } else if 0x61 <= b <= 0x66 {
        b - 0x61 + 10
    } else if 0x41 <= b <= 0x46 {
        b - 0x41 + 10
    } else {
        radix
    };
    if v < radix {
        Some(v)
    } else {
        None
    }
}

/// The number that a row of digits writes in a radix; `None` if a byte is no digit.
pub open spec fn spec_digits(digits: Seq<u8>, radix: int) -> Option<int>
    decreases digits.len(),
{
    if digits.len() == 0 {
        Some(0)
    } else {
        match (spec_digits(digits.drop_last(), radix), spec_digit(digits.last(), radix)) {
            (Some(high), Some(low)) => Some(high * radix + low),
            _ => None,
        }
    }
}

/// The radix that a literal's prefix selects: 2 after `0b`, 16 after `0x`, else 10. A
/// prefix counts only when something follows it.
pub open spec fn spec_radix(token: Seq<u8>) -> int {
    if token.len() > 2 && token[0] == 0x30 && token[1] == 0x62 {
        2
    } else if token.len() > 2 && token[0] == 0x30 && token[1] == 0x78 {
        16
    } else {
        10
    }
}

/// The value of a numeric literal: binary after `0b`, hexadecimal after `0x`, decimal
/// otherwise. `None` if the token is empty, holds a byte that is no digit, or writes a number
/// above `u32::MAX`.
pub open spec fn spec_parse_number(token: Seq<u8>) -> Option<u32> {
    let radix = spec_radix(token);
    let digits = if radix == 10 {
        token
    } else {
        token.skip(2)
    };
    if digits.len() == 0 {
        None
    } else {
        match spec_digits(digits, radix) {
            Some(v) => if v <= u32::MAX {
                Some(v as u32)
            } else {
                None
            },
            None => None,
        }
    }
}

/// A longer row of digits writes no smaller number than its beginning.
proof fn lemma_digits_grow(digits: Seq<u8>, radix: int, n: int)
    requires
        2 <= radix <= 16,
        0 <= n <= digits.len(),
    ensures
        spec_digits(digits, radix) is Some ==> spec_digits(digits.take(n), radix) is Some,
        spec_digits(digits, radix) is Some ==> 0 <= spec_digits(digits.take(n), radix)->0
            <= spec_digits(digits, radix)->0,
    decreases digits.len() - n,
{
    if n == digits.len() {
        assert(digits.take(n) =~= digits);
        lemma_digits_nonnegative(digits, radix);
    } else {
        lemma_digits_grow(digits, radix, n + 1);
        let longer = digits.take(n + 1);
        assert(longer.drop_last() =~= digits.take(n));
        if spec_digits(digits, radix) is Some {
            lemma_digits_nonnegative(digits.take(n), radix);
            let high = spec_digits(digits.take(n), radix)->0;
            assert(high * radix >= high) by (nonlinear_arith)
                requires
                    high >= 0,
                    radix >= 2,
            ;
        }
    }
}

proof fn lemma_digits_nonnegative(digits: Seq<u8>, radix: int)
    requires
        2 <= radix <= 16,
    ensures
        spec_digits(digits, radix) is Some ==> spec_digits(digits, radix)->0 >= 0,
    decreases digits.len(),
{
    if digits.len() > 0 {
        lemma_digits_nonnegative(digits.drop_last(), radix);
        if spec_digits(digits, radix) is Some {
            let high = spec_digits(digits.drop_last(), radix)->0;
            assert(high * radix >= 0) by (nonlinear_arith)
                requires
                    high >= 0,
                    radix >= 2,
            ;
        }
    }
}

fn digit(b: u8, radix: u64) -> (r: Option<u64>)
    requires
        2 <= radix <= 16,
    ensures
        r is Some == spec_digit(b, radix as int) is Some,
        r is Some ==> r->0 == spec_digit(b, radix as int)->0,
{
    let v: u64 = if 0x30 <= b && b <= 0x39 {
        (b - 0x30) as u64
    } else if 0x61 <= b && b <= 0x66 {
        (b - 0x61) as u64 + 10
    } else if 0x41 <= b && b <= 0x46 {
        (b - 0x41) as u64 + 10
    } else {
        radix
    };
    if v < radix {
        Some(v)
    } else {
        None
    }
}

/// Reads a numeric literal.
pub fn parse_number(token: &str) -> (r: Option<u32>)
    ensures
        r == spec_parse_number(token.spec_bytes()),
{
    let bytes = token.as_bytes();
    let n = bytes.len();
    let radix: u64 = if n > 2 && bytes[0] == 0x30 && bytes[1] == 0x62 {
        2
    } else if n > 2 && bytes[0] == 0x30 && bytes[1] == 0x78 {
        16
    } else {
        10
    };
    let start: usize = if radix == 10 {
        0
    } else {
        2
    };
    let ghost digits = if radix == 10 {
        bytes@
    } else {
        bytes@.skip(2)
    };
    if start >= n {
        return None;
    }
    let mut value: u64 = 0;
    let mut i: usize = start;
    assert(digits.take(0) =~= Seq::<u8>::empty());
    while i < n
        invariant
            start <= i <= n,
            n == bytes@.len(),
            2 <= radix <= 16,
            bytes@ == token.spec_bytes(),
            radix == spec_radix(bytes@),
            digits == if radix == 10 {
                bytes@
            } else {
                bytes@.skip(2)
            },
            digits.len() == n - start,
            forall|j: int| 0 <= j < digits.len() ==> digits[j] == bytes@[j + start],
            spec_digits(digits.take(i - start), radix as int) == Some(value as int),
            value <= u32::MAX,
        decreases n - i,
    {
        let ghost longer = digits.take(i - start + 1);
        proof {
            assert(longer.drop_last() =~= digits.take(i - start));
            assert(longer.last() == bytes@[i as int]);
            lemma_digits_grow(digits, radix as int, i - start + 1);
        }
        match digit(bytes[i], radix) {
            None => {
                return None;
            },
            Some(d) => {
                assert(value * radix <= 0xffff_ffff * 16) by (nonlinear_arith)
                    requires
                        value <= 0xffff_ffff,
                        radix <= 16,
                ;
                let next = value * radix + d;
                if next > 0xffff_ffff {
                    return None;
                }
                value = next;
            },
        }
        i += 1;
    }
    assert(digits.take(i - start) =~= digits);
    Some(value as u32)
}

} // verus!
