//! Text handling shared by the calculator: case folding, trimming and the
//! reading of whole numbers from form fields.

use vstd::prelude::*;

verus! {

/// The ASCII lower-case form of `c`: `A` to `Z` become `a` to `z`, every
/// other character stays as it is.
pub open spec fn ascii_lower(c: char) -> char {
    if 'A' <= c && c <= 'Z' {
        ((c as u8) + 32) as char
    } else {
        c
    }
}

/// `s` with every character replaced by its ASCII lower-case form.
pub open spec fn ascii_lowercase(s: Seq<char>) -> Seq<char> {
    s.map_values(|c: char| ascii_lower(c))
}

/// Whether `a` and `b` are the same text once ASCII case is ignored.
pub open spec fn same_ignoring_ascii_case(a: Seq<char>, b: Seq<char>) -> bool {
    ascii_lowercase(a) == ascii_lowercase(b)
}

/// The Unicode lower-case form of a text, as `str::to_lowercase` computes it.
pub uninterp spec fn unicode_lowercase(s: Seq<char>) -> Seq<char>;

/// Whether `c` has the Unicode property `White_Space`.
pub open spec fn is_white_space(c: char) -> bool {
    let n = c as u32;
    ||| 0x09 <= n <= 0x0D
    ||| n == 0x20
    ||| n == 0x85
    ||| n == 0xA0
    ||| n == 0x1680
    ||| 0x2000 <= n <= 0x200A
    ||| n == 0x2028
    ||| n == 0x2029
    ||| n == 0x202F
    ||| n == 0x205F
    ||| n == 0x3000
}

/// `s` without its leading white space.
pub open spec fn trimmed_start(s: Seq<char>) -> Seq<char>
    decreases s.len(),
{
    if s.len() > 0 && is_white_space(s.first()) {
        trimmed_start(s.drop_first())
    } else {
        s
    }
}

/// `s` without its trailing white space.
pub open spec fn trimmed_end(s: Seq<char>) -> Seq<char>
    decreases s.len(),
{
    if s.len() > 0 && is_white_space(s.last()) {
        trimmed_end(s.drop_last())
    } else {
        s
    }
}

/// `s` without leading and trailing white space.
pub open spec fn trimmed(s: Seq<char>) -> Seq<char> {
    trimmed_end(trimmed_start(s))
}

/// Whether `c` is one of the decimal digits `0` to `9`.
pub open spec fn is_decimal_digit(c: char) -> bool {
    '0' <= c && c <= '9'
}

/// The number that a sequence of decimal digits denotes; 0 for the empty
/// sequence.
pub open spec fn decimal_value(digits: Seq<char>) -> int
    decreases digits.len(),
{
    if digits.len() == 0 {
        0
    } else {
        decimal_value(digits.drop_last()) * 10 + (digits.last() as u32 - '0' as u32)
    }
}

/// Whether `s` is a non-empty run of decimal digits.
pub open spec fn is_decimal_number(s: Seq<char>) -> bool {
    s.len() > 0 && forall|i: int| 0 <= i < s.len() ==> is_decimal_digit(#[trigger] s[i])
}

/// The integer that `s` denotes in decimal notation: an optional `+` or `-`,
/// then at least one digit and nothing else. `None` where `s` has another
/// shape or the number does not fit in an `i32`.
pub open spec fn parsed_i32(s: Seq<char>) -> Option<i32> {
    let negative = s.len() > 0 && s.first() == '-';
    let signed = s.len() > 0 && (s.first() == '-' || s.first() == '+');
    let digits = if signed { s.drop_first() } else { s };
    let value = if negative { -decimal_value(digits) } else { decimal_value(digits) };
    if is_decimal_number(digits) && i32::MIN <= value <= i32::MAX {
        Some(value as i32)
    } else {
        None
    }
}

/// The count that a form field holds: the whole number written in it, white
/// space around it ignored; zero where the field holds no such number or a
/// negative one.
pub open spec fn field_count(s: Seq<char>) -> u32 {
    match parsed_i32(trimmed(s)) {
        Some(v) => if v >= 0 { v as u32 } else { 0 },
        None => 0,
    }
}

/// `str::to_lowercase`: the result is the Unicode lower-case form of the
/// text, which is a function of the text alone.
pub assume_specification[ str::to_lowercase ](s: &str) -> (lowered: String)
    ensures
        lowered@ == unicode_lowercase(s@),
;

/// `str::to_ascii_lowercase`: a copy of the text in which the ASCII letters
/// `A` to `Z` are replaced by `a` to `z` and nothing else changes.
pub assume_specification[ str::to_ascii_lowercase ](s: &str) -> (lowered: String)
    ensures
        lowered@ == ascii_lowercase(s@),
;

/// `str::eq_ignore_ascii_case`: true exactly when the two texts have the same
/// ASCII lower-case form.
pub assume_specification[ str::eq_ignore_ascii_case ](a: &str, b: &str) -> (same: bool)
    ensures
        same == same_ignoring_ascii_case(a@, b@),
;

/// `str::trim`: the text without the white space at its two ends, white
/// space being the characters with the Unicode property `White_Space`.
pub assume_specification<'a>[ str::trim ](s: &'a str) -> (inner: &'a str)
    ensures
        inner@ == trimmed(s@),
;

/// `str::parse::<i32>`: succeeds exactly on an optional sign followed by
/// decimal digits whose value fits in an `i32`, and then gives that value.
#[verifier::external_body]
fn parse_i32(s: &str) -> (parsed: Option<i32>)
    ensures
        parsed == parsed_i32(s@),
{
    s.parse::<i32>().ok()
}

/// Whether two texts hold the same characters.
pub fn same_text(a: &str, b: &str) -> (same: bool)
    ensures
        same == (a@ == b@),
{
    a.to_owned() == b.to_owned()
}

/// Reads the count held by a form field.
pub fn read_count(field: &str) -> (count: u32)
    ensures
        count == field_count(field@),
{
    match parse_i32(field.trim()) {
        Some(v) => if v >= 0 { v as u32 } else { 0 },
        None => 0,
    }
}

} // verus!
