//! Which texts are numbers: the decimal integers, and the syntax of a
//! floating-point literal.
use vstd::prelude::*;
use vstd::string::StrSliceExecFns;

verus! {

/// The value of a decimal digit, or -1 for any other character.
pub open spec fn digit(c: char) -> int {
    if c == '0' {
        0
    } else if c == '1' {
        1
    } else if c == '2' {
        2
    } else if c == '3' {
        3
    } else if c == '4' {
        4
    } else if c == '5' {
        5
    } else if c == '6' {
        6
    } else if c == '7' {
        7
    } else if c == '8' {
        8
    } else if c == '9' {
        9
    } else {
        -1
    }
}

/// The number that a run of decimal digits denotes.
pub open spec fn decimal(s: Seq<char>) -> int
    decreases s.len(),
{
    if s.len() == 0 {
        0
    } else {
        decimal(s.drop_last()) * 10 + digit(s.last())
    }
}

/// Whether `s` is a non-empty run of decimal digits.
pub open spec fn all_digits(s: Seq<char>) -> bool {
    s.len() > 0 && forall|i: int| 0 <= i < s.len() ==> digit(#[trigger] s[i]) >= 0
}

/// The integer that `s` denotes: digits after an optional sign.
pub open spec fn integer_text(s: Seq<char>) -> Option<int> {
    if s.len() > 0 && s[0] == '-' {
        if all_digits(s.subrange(1, s.len() as int)) {
            Some(-decimal(s.subrange(1, s.len() as int)))
        } else {
            None
        }
    } else if s.len() > 0 && s[0] == '+' {
        if all_digits(s.subrange(1, s.len() as int)) {
            Some(decimal(s.subrange(1, s.len() as int)))
        } else {
            None
        }
    } else if all_digits(s) {
        Some(decimal(s))
    } else {
        None
    }
}

/// The unsigned 64-bit integer that `s` denotes, if it denotes one: a
/// minus sign is not accepted, whatever follows it.
pub open spec fn text_as_u64(s: Seq<char>) -> Option<u64> {
    match integer_text(s) {
        Some(n) => if s[0] != '-' && n <= u64::MAX {
            Some(n as u64)
        } else {
            None
        },
        None => None,
    }
}

/// The signed 64-bit integer that `s` denotes, if it denotes one.
pub open spec fn text_as_i64(s: Seq<char>) -> Option<i64> {
    match integer_text(s) {
        Some(n) => if i64::MIN <= n <= i64::MAX {
            Some(n as i64)
        } else {
            None
        },
        None => None,
    }
}

/// Calls `str::parse::<u64>`. Claimed of it, as std documents the
/// conversion: it accepts decimal digits after an optional plus sign,
/// nothing else, and fails where the number does not fit.
#[verifier::external_body]
pub(crate) fn parse_u64(text: &str) -> (r: Option<u64>)
    ensures
        r == text_as_u64(text@),
{
    text.parse::<u64>().ok()
}

/// Calls `str::parse::<i64>`. Claimed of it, as std documents the
/// conversion: it accepts decimal digits after an optional sign, nothing
/// else, and fails where the number does not fit.
#[verifier::external_body]
pub(crate) fn parse_i64(text: &str) -> (r: Option<i64>)
    ensures
        r == text_as_i64(text@),
{
    text.parse::<i64>().ok()
}

/// The first index at or after `i` that holds no digit.
pub open spec fn digits_end(s: Seq<char>, i: int) -> int
    decreases s.len() - i,
{
    if 0 <= i < s.len() && digit(s[i]) >= 0 {
        digits_end(s, i + 1)
    } else {
        i
    }
}

/// Whether `c` is the letter `lower` or its capital `upper`.
pub open spec fn letter(c: char, lower: char, upper: char) -> bool {
    c == lower || c == upper
}

/// Whether `s`, from index `a` on, spells `inf`, `nan` or `infinity`, in
/// any mix of capitals.
pub open spec fn special_float(s: Seq<char>, a: int) -> bool {
    ||| (s.len() - a == 3 && letter(s[a], 'i', 'I') && letter(s[a + 1], 'n', 'N') && letter(
        s[a + 2],
        'f',
        'F',
    ))
    ||| (s.len() - a == 3 && letter(s[a], 'n', 'N') && letter(s[a + 1], 'a', 'A') && letter(
        s[a + 2],
        'n',
        'N',
    ))
    ||| (s.len() - a == 8 && letter(s[a], 'i', 'I') && letter(s[a + 1], 'n', 'N') && letter(
        s[a + 2],
        'f',
        'F',
    ) && letter(s[a + 3], 'i', 'I') && letter(s[a + 4], 'n', 'N') && letter(s[a + 5], 'i', 'I')
        && letter(s[a + 6], 't', 'T') && letter(s[a + 7], 'y', 'Y'))
}

pub open spec fn is_sign(c: char) -> bool {
    c == '+' || c == '-'
}

/// Whether `s` has the syntax of a floating-point literal: an optional
/// sign, then `inf`, `infinity` or `nan`, or else digits with at most one
/// point among them, at least one digit in all, and an optional exponent
/// (`e`, an optional sign, digits). Every decimal integer has it.
pub open spec fn float_syntax(s: Seq<char>) -> bool {
    let n = s.len() as int;
    let a: int = if n > 0 && is_sign(s[0]) {
        1
    } else {
        0
    };
    let b = digits_end(s, a);
    let has_point = b < n && s[b] == '.';
    let c = if has_point {
        digits_end(s, b + 1)
    } else {
        b
    };
    let mantissa = (b - a) + (if has_point {
        c - b - 1
    } else {
        0
    });
    let has_exponent = c < n && letter(s[c], 'e', 'E');
    let d = if has_exponent && c + 1 < n && is_sign(s[c + 1]) {
        c + 2
    } else {
        c + 1
    };
    special_float(s, a) || (mantissa > 0 && if has_exponent {
        digits_end(s, d) == n && n > d
    } else {
        c == n
    })
}

pub fn is_digit(c: char) -> (r: bool)
    ensures
        r == (digit(c) >= 0),
{
    c == '0' || c == '1' || c == '2' || c == '3' || c == '4' || c == '5' || c == '6' || c == '7'
        || c == '8' || c == '9'
}

pub fn is_letter(c: char, lower: char, upper: char) -> (r: bool)
    ensures
        r == letter(c, lower, upper),
{
    c == lower || c == upper
}

/// The characters of a text, in order.
pub fn chars_of(text: &str) -> (r: Vec<char>)
    ensures
        r@ == text@,
{
    let n = text.unicode_len();
    let mut out: Vec<char> = Vec::new();
    let mut i: usize = 0;
    while i < n
        invariant
            n == text@.len(),
            i <= n,
            out@ == text@.subrange(0, i as int),
        decreases n - i,
    {
        out.push(text.get_char(i));
        i = i + 1;
        assert(out@ =~= text@.subrange(0, i as int));
    }
    assert(out@ =~= text@);
    out
}

pub fn scan_digits(s: &Vec<char>, i: usize) -> (r: usize)
    requires
        i <= s.len(),
    ensures
        r == digits_end(s@, i as int),
        i <= r <= s.len(),
{
    let mut j: usize = i;
    while j < s.len() && is_digit(s[j])
        invariant
            i <= j <= s.len(),
            digits_end(s@, j as int) == digits_end(s@, i as int),
        decreases s.len() - j,
    {
        j = j + 1;
    }
    j
}

pub fn is_special_float(s: &Vec<char>, a: usize) -> (r: bool)
    requires
        a <= s.len(),
    ensures
        r == special_float(s@, a as int),
{
    let n = s.len() - a;
    if n == 3 {
        (is_letter(s[a], 'i', 'I') && is_letter(s[a + 1], 'n', 'N') && is_letter(s[a + 2], 'f', 'F'))
            || (is_letter(s[a], 'n', 'N') && is_letter(s[a + 1], 'a', 'A') && is_letter(
            s[a + 2],
            'n',
            'N',
        ))
    } else if n == 8 {
        is_letter(s[a], 'i', 'I') && is_letter(s[a + 1], 'n', 'N') && is_letter(s[a + 2], 'f', 'F')
            && is_letter(s[a + 3], 'i', 'I') && is_letter(s[a + 4], 'n', 'N') && is_letter(
            s[a + 5],
            'i',
            'I',
        ) && is_letter(s[a + 6], 't', 'T') && is_letter(s[a + 7], 'y', 'Y')
    } else {
        false
    }
}

/// Whether a text has the syntax of a floating-point literal.
pub fn is_float_text(text: &str) -> (r: bool)
    ensures
        r == float_syntax(text@),
{
    let s = chars_of(text);
    let n = s.len();
    let a: usize = if n > 0 && (s[0] == '+' || s[0] == '-') {
        1
    } else {
        0
    };
    if is_special_float(&s, a) {
        return true;
    }
    let b = scan_digits(&s, a);
    let has_point = b < n && s[b] == '.';
    let c = if has_point {
        scan_digits(&s, b + 1)
    } else {
        b
    };
    let fraction: usize = if has_point {
        c - b - 1
    } else {
        0
    };
    if (b - a) + fraction == 0 {
        return false;
    }
    if c < n && is_letter(s[c], 'e', 'E') {
        let d: usize = if c + 1 < n && (s[c + 1] == '+' || s[c + 1] == '-') {
            c + 2
        } else {
            c + 1
        };
        let e = scan_digits(&s, d);
        e == n && n > d
    } else {
        c == n
    }
}

} // verus!
