//! Small verified text utilities shared by the auth and parameter-parsing
//! modules.

use vstd::prelude::*;
use vstd::string::StrSliceExecFns;
use crate::errors::ParseFailure;

verus! {

/// Character-by-character text equality.
pub fn str_eq(a: &str, b: &str) -> (r: bool)
    ensures
        r == (a@ == b@),
{
    let n = a.unicode_len();
    if n != b.unicode_len() {
        return false;
    }
    let mut i: usize = 0;
    while i < n
        invariant
            n == a@.len(),
            n == b@.len(),
            i <= n,
            forall|j: int| 0 <= j < i ==> a@[j] == b@[j],
        decreases n - i,
    {
        if a.get_char(i) != b.get_char(i) {
            return false;
        }
        i = i + 1;
    }
    proof {
        assert(a@ =~= b@);
    }
    true
}

/// The characters Unicode marks `White_Space` — the set a standard trim
/// removes: the ASCII whitespace, next line, no-break space, the Ogham space
/// mark, the typographic spaces, the line and paragraph separators, the
/// narrow no-break and medium mathematical spaces, and the ideographic
/// space.
pub open spec fn is_space_char(c: char) -> bool {
    ('\u{9}' <= c && c <= '\u{d}') || c == ' ' || c == '\u{85}' || c == '\u{a0}'
        || c == '\u{1680}' || ('\u{2000}' <= c && c <= '\u{200a}') || c == '\u{2028}'
        || c == '\u{2029}' || c == '\u{202f}' || c == '\u{205f}' || c == '\u{3000}'
}

/// A text is blank when every character in it is whitespace; the empty text
/// is blank.
pub open spec fn spec_is_blank(s: Seq<char>) -> bool {
    forall|i: int| 0 <= i < s.len() ==> is_space_char(s[i])
}

/// Whether `s` trims down to nothing.
pub fn is_blank(s: &str) -> (r: bool)
    ensures
        r == spec_is_blank(s@),
{
    let n = s.unicode_len();
    let mut i: usize = 0;
    while i < n
        invariant
            n == s@.len(),
            i <= n,
            forall|j: int| 0 <= j < i ==> is_space_char(s@[j]),
        decreases n - i,
    {
        let c = s.get_char(i);
        let space = (c >= '\u{9}' && c <= '\u{d}') || c == ' ' || c == '\u{85}' || c == '\u{a0}'
            || c == '\u{1680}' || (c >= '\u{2000}' && c <= '\u{200a}') || c == '\u{2028}'
            || c == '\u{2029}' || c == '\u{202f}' || c == '\u{205f}' || c == '\u{3000}';
        if !space {
            assert(!is_space_char(s@[i as int]));
            return false;
        }
        i = i + 1;
    }
    true
}

/// A decimal digit.
pub open spec fn is_digit(c: char) -> bool {
    '0' <= c && c <= '9'
}

pub open spec fn digit_val(c: char) -> int {
    c as int - '0' as int
}

pub open spec fn all_digits(s: Seq<char>) -> bool {
    forall|i: int| 0 <= i < s.len() ==> is_digit(s[i])
}

/// The value a digit string denotes, read left to right.
pub open spec fn digits_value(s: Seq<char>) -> int
    decreases s.len(),
{
    if s.len() == 0 {
        0
    } else {
        digits_value(s.drop_last()) * 10 + digit_val(s.last())
    }
}

/// The digits of a number text, with an optional leading `'+'` removed.
pub open spec fn digits_part(s: Seq<char>) -> Seq<char> {
    if s.len() > 0 && s[0] == '+' {
        s.subrange(1, s.len() as int)
    } else {
        s
    }
}

/// What parsing a text as an unsigned 32-bit decimal number yields: the
/// empty text is `Empty`; a text that is not an optional `'+'` followed by
/// at least one decimal digit is `InvalidDigit`; digits denoting a value
/// beyond `u32::MAX` are `OutOfRange`.
pub open spec fn parse_u32_spec(s: Seq<char>) -> Result<u32, ParseFailure> {
    if s.len() == 0 {
        Err(ParseFailure::Empty)
    } else {
        let d = digits_part(s);
        if d.len() == 0 || !all_digits(d) {
            Err(ParseFailure::InvalidDigit)
        } else if digits_value(d) > u32::MAX {
            Err(ParseFailure::OutOfRange)
        } else {
            Ok(digits_value(d) as u32)
        }
    }
}

proof fn lemma_digits_value_nonneg(s: Seq<char>)
    requires
        all_digits(s),
    ensures
        digits_value(s) >= 0,
    decreases s.len(),
{
    if s.len() > 0 {
        assert(all_digits(s.drop_last()));
        lemma_digits_value_nonneg(s.drop_last());
    }
}

/// A digit string is worth at least any of its prefixes.
proof fn lemma_digits_value_prefix_le(s: Seq<char>, k: int)
    requires
        all_digits(s),
        0 <= k <= s.len(),
    ensures
        digits_value(s.subrange(0, k)) <= digits_value(s),
    decreases s.len(),
{
    if k == s.len() {
        assert(s.subrange(0, k) =~= s);
    } else {
        let head = s.drop_last();
        assert(all_digits(head));
        assert(s.subrange(0, k) =~= head.subrange(0, k));
        lemma_digits_value_prefix_le(head, k);
        lemma_digits_value_nonneg(head);
    }
}

/// Parse a text as an unsigned 32-bit decimal number.
#[verifier::loop_isolation(false)]
pub fn parse_u32(s: &str) -> (r: Result<u32, ParseFailure>)
    ensures
        r == parse_u32_spec(s@),
{
    let n = s.unicode_len();
    if n == 0 {
        return Err(ParseFailure::Empty);
    }
    let start: usize = if s.get_char(0) == '+' {
        1
    } else {
        0
    };
    let ghost d = digits_part(s@);
    assert(d =~= s@.subrange(start as int, n as int));
    if start == n {
        return Err(ParseFailure::InvalidDigit);
    }
    let mut i: usize = start;
    while i < n
        invariant
            n == s@.len(),
            start <= i <= n,
            d =~= s@.subrange(start as int, n as int),
            forall|j: int| start <= j < i ==> is_digit(s@[j]),
        decreases n - i,
    {
        let c = s.get_char(i);
        if !(c >= '0' && c <= '9') {
            assert(!is_digit(d[i - start]));
            return Err(ParseFailure::InvalidDigit);
        }
        i = i + 1;
    }
    assert(all_digits(d));
    let mut val: u32 = 0;
    let mut j: usize = start;
    while j < n
        invariant
            n == s@.len(),
            start <= j <= n,
            d =~= s@.subrange(start as int, n as int),
            all_digits(d),
            val == digits_value(d.subrange(0, j - start)),
        decreases n - j,
    {
        let c = s.get_char(j);
        assert(is_digit(d[j - start]));
        let dv: u32 = (c as u32) - 48;
        let next: u64 = (val as u64) * 10 + (dv as u64);
        proof {
            assert(d.subrange(0, j + 1 - start).drop_last() =~= d.subrange(0, j - start));
            assert(d.subrange(0, j + 1 - start).last() == s@[j as int]);
            assert(digit_val(s@[j as int]) == dv);
        }
        if next > 0xffff_ffff {
            proof {
                lemma_digits_value_prefix_le(d, j + 1 - start);
            }
            return Err(ParseFailure::OutOfRange);
        }
        val = next as u32;
        j = j + 1;
    }
    proof {
        assert(d.subrange(0, n - start as int) =~= d);
    }
    Ok(val)
}

} // verus!
