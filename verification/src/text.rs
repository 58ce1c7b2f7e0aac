//! Small string helpers shared by the projector and the emitter.

use vstd::prelude::*;
use vstd::string::*;
use convert_case::{Case, Casing};

verus! {

/// `std`'s equality on string slices: true exactly when both hold the same characters.
#[verifier::external_body]
pub(crate) fn str_eq(a: &str, b: &str) -> (same: bool)
    ensures
        same == (a@ == b@),
{
    a == b
}

/// Whether `prefix` opens `s`.
pub open spec fn has_prefix(s: Seq<char>, prefix: Seq<char>) -> bool {
    prefix.len() <= s.len() && s.subrange(0, prefix.len() as int) == prefix
}

/// `str::starts_with` for a string pattern: true exactly when the pattern is a prefix.
#[verifier::external_body]
pub(crate) fn str_starts_with(s: &str, prefix: &str) -> (found: bool)
    ensures
        found == has_prefix(s@, prefix@),
{
    s.starts_with(prefix)
}

/// `s` with `"\n * "` in place of every line feed, as a doc comment continues its lines.
pub open spec fn indent_newlines(s: Seq<char>) -> Seq<char>
    decreases s.len(),
{
    if s.len() == 0 {
        s
    } else if s[0] == '\n' {
        seq!['\n', ' ', '*', ' '] + indent_newlines(s.subrange(1, s.len() as int))
    } else {
        seq![s[0]] + indent_newlines(s.subrange(1, s.len() as int))
    }
}

/// `str::contains` for the line feed character.
#[verifier::external_body]
pub(crate) fn str_contains_newline(s: &str) -> (found: bool)
    ensures
        found == s@.contains('\n'),
{
    s.contains('\n')
}

/// `str::replace` of `'\n'` by `"\n * "`: every line feed is replaced, nothing else changes.
#[verifier::external_body]
pub(crate) fn str_indent_newlines(s: &str) -> (out: String)
    ensures
        out@ == indent_newlines(s@),
{
    s.replace('\n', "\n * ")
}

/// What `convert_case` makes of a string in Pascal case: the words it finds, each
/// capitalised, joined without a delimiter.
pub uninterp spec fn pascal_case(s: Seq<char>) -> Seq<char>;

/// `convert_case`'s `to_case(Case::Pascal)`. The result depends on the characters of
/// `s` alone; the contract gives it its name and claims nothing else of it.
#[verifier::external_body]
pub(crate) fn to_pascal_case(s: &str) -> (out: String)
    ensures
        out@ == pascal_case(s@),
{
    s.to_case(Case::Pascal)
}

/// The character of one decimal digit.
pub open spec fn digit_char(digit: int) -> char {
    if digit == 0 {
        '0'
    } else if digit == 1 {
        '1'
    } else if digit == 2 {
        '2'
    } else if digit == 3 {
        '3'
    } else if digit == 4 {
        '4'
    } else if digit == 5 {
        '5'
    } else if digit == 6 {
        '6'
    } else if digit == 7 {
        '7'
    } else if digit == 8 {
        '8'
    } else {
        '9'
    }
}

/// The decimal digits of a natural number, without leading zeros.
pub open spec fn decimal_digits(n: nat) -> Seq<char>
    decreases n,
{
    if n < 10 {
        seq![digit_char(n as int)]
    } else {
        decimal_digits(n / 10) + seq![digit_char((n % 10) as int)]
    }
}

/// An integer in decimal, with a minus sign where it is negative.
pub open spec fn decimal(i: int) -> Seq<char> {
    if i < 0 {
        seq!['-'] + decimal_digits((-i) as nat)
    } else {
        decimal_digits(i as nat)
    }
}

fn digit_str(digit: u64) -> (s: &'static str)
    requires
        digit < 10,
    ensures
        s@ == seq![digit_char(digit as int)],
{
    proof {
        reveal_strlit("0");
        reveal_strlit("1");
        reveal_strlit("2");
        reveal_strlit("3");
        reveal_strlit("4");
        reveal_strlit("5");
        reveal_strlit("6");
        reveal_strlit("7");
        reveal_strlit("8");
        reveal_strlit("9");
    }
    if digit == 0 {
        "0"
    } else if digit == 1 {
        "1"
    } else if digit == 2 {
        "2"
    } else if digit == 3 {
        "3"
    } else if digit == 4 {
        "4"
    } else if digit == 5 {
        "5"
    } else if digit == 6 {
        "6"
    } else if digit == 7 {
        "7"
    } else if digit == 8 {
        "8"
    } else {
        "9"
    }
}

fn write_digits(n: u64, out: &mut String)
    ensures
        final(out)@ == old(out)@ + decimal_digits(n as nat),
    decreases n,
{
    if n >= 10 {
        write_digits(n / 10, out);
        out.append(digit_str(n % 10));
    } else {
        out.append(digit_str(n));
    }
}

/// Writes an integer in decimal.
pub fn to_decimal(i: i64) -> (out: String)
    ensures
        out@ == decimal(i as int),
{
    if i < 0 {
        let magnitude: u64 = if i == i64::MIN {
            9223372036854775808u64
        } else {
            (-i) as u64
        };
        let mut out = String::from_str("-");
        proof {
            reveal_strlit("-");
        }
        write_digits(magnitude, &mut out);
        out
    } else {
        let mut out = String::new();
        write_digits(i as u64, &mut out);
        out
    }
}

/// The JSON string literal for `s`, quotes and escapes included, as `serde_json` writes it.
pub uninterp spec fn json_string(s: Seq<char>) -> Seq<char>;

/// `serde_json::to_string` on a string slice. It writes the literal into memory, which
/// cannot fail, so the result is always the literal; the contract gives it its name.
#[verifier::external_body]
pub(crate) fn to_json_string(s: &str) -> (out: String)
    ensures
        out@ == json_string(s@),
{
    match serde_json::to_string(s) {
        Ok(literal) => literal,
        Err(_) => String::new(),
    }
}

} // verus!
