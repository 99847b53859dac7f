//! The standard library's text and path functions that the crate calls and
//! that the verifier has no specification for.
//!
//! Nothing in this file is proved. Each function makes one call into the
//! standard library, and its contract, where it has one, states what the
//! library's documentation says of that call.
use vstd::prelude::*;

verus! {

/// The character that stands for the digit `d`.
pub open spec fn digit_char(d: nat) -> char {
    if d == 0 {
        '0'
    } else if d == 1 {
        '1'
    } else if d == 2 {
        '2'
    } else if d == 3 {
        '3'
    } else if d == 4 {
        '4'
    } else if d == 5 {
        '5'
    } else if d == 6 {
        '6'
    } else if d == 7 {
        '7'
    } else if d == 8 {
        '8'
    } else {
        '9'
    }
}

/// The digit that `c` stands for; 0 where it stands for none.
pub open spec fn digit_of(c: char) -> nat {
    if c == '1' {
        1
    } else if c == '2' {
        2
    } else if c == '3' {
        3
    } else if c == '4' {
        4
    } else if c == '5' {
        5
    } else if c == '6' {
        6
    } else if c == '7' {
        7
    } else if c == '8' {
        8
    } else if c == '9' {
        9
    } else {
        0
    }
}

/// Whether `c` is one of the ten decimal digits.
pub open spec fn is_digit(c: char) -> bool {
    c == digit_char(digit_of(c))
}

/// Whether `text` is made of decimal digits only.
pub open spec fn all_digits(text: Seq<char>) -> bool {
    forall|i: int| 0 <= i < text.len() ==> is_digit(#[trigger] text[i])
}

/// The number that the digits of `text` write in base ten.
pub open spec fn decimal_value(text: Seq<char>) -> nat
    decreases text.len(),
{
    if text.len() == 0 {
        0
    } else {
        decimal_value(text.drop_last()) * 10 + digit_of(text.last())
    }
}

/// The number that `text` writes, if `text` is an optional `+` and then one
/// decimal digit or more, and the number fits in 32 bits.
pub open spec fn parsed_u32(text: Seq<char>) -> Option<u32> {
    let digits = if text.len() > 0 && text[0] == '+' {
        text.drop_first()
    } else {
        text
    };
    if digits.len() > 0 && all_digits(digits) && decimal_value(digits) <= u32::MAX {
        Some(decimal_value(digits) as u32)
    } else {
        None
    }
}

/// `n` written in base ten, without leading zeros.
pub open spec fn decimal_text(n: nat) -> Seq<char>
    decreases n,
{
    if n < 10 {
        seq![digit_char(n)]
    } else {
        decimal_text(n / 10).push(digit_char(n % 10))
    }
}

/// Whether `text` ends with `suffix`.
pub open spec fn ends_with(text: Seq<char>, suffix: Seq<char>) -> bool {
    suffix.len() <= text.len() && text.subrange(text.len() - suffix.len(), text.len() as int)
        == suffix
}

/// `text` without any of the copies of `suffix` that it ends with.
pub open spec fn without_suffixes(text: Seq<char>, suffix: Seq<char>) -> Seq<char>
    decreases text.len(),
{
    if suffix.len() > 0 && ends_with(text, suffix) {
        without_suffixes(text.take(text.len() - suffix.len()), suffix)
    } else {
        text
    }
}

/// Calls `str::parse::<u32>`.
///
/// The standard library takes an optional `+` followed by decimal digits
/// and nothing else, and fails on an empty number and on one above
/// `u32::MAX`.
#[verifier::external_body]
pub(crate) fn parse_u32(text: &str) -> (number: Option<u32>)
    ensures
        number == parsed_u32(text@),
{
    text.parse::<u32>().ok()
}

/// Calls `u64::to_string`, which writes a number in base ten without
/// leading zeros.
#[verifier::external_body]
pub(crate) fn decimal(number: u64) -> (text: String)
    ensures
        text@ == decimal_text(number as nat),
{
    number.to_string()
}

/// Calls `str::trim_end_matches` with a string as the pattern, which takes
/// away every copy of the pattern that the text ends with, one after the
/// other.
#[verifier::external_body]
pub(crate) fn trim_end_matches(text: &str, suffix: &str) -> (trimmed: String)
    requires
        suffix@.len() > 0,
    ensures
        trimmed@ == without_suffixes(text@, suffix@),
{
    text.trim_end_matches(suffix).to_owned()
}

/// Whether `path` is the root alone, or ends in the component `..`.
pub open spec fn names_no_file(path: Seq<char>) -> bool {
    path == "/"@ || path == ".."@ || ends_with(path, "/.."@)
}

/// Whether `part` stands in `text` as one run of characters.
pub open spec fn is_part_of(part: Seq<char>, text: Seq<char>) -> bool {
    exists|from: int|
        0 <= from <= text.len() - part.len() && #[trigger] text.subrange(
            from,
            from + part.len(),
        ) == part
}

/// Calls `std::path::Path::file_name`, the last component of a path if it
/// has one. The documentation says that there is none for the root and for
/// a path that terminates in `..`, and a component of a path is a piece of
/// it. Where a path falls into components is the platform's affair, so no
/// more is stated of the result.
#[verifier::external_body]
pub(crate) fn path_file_name(path: &str) -> (name: Option<String>)
    ensures
        names_no_file(path@) ==> name is None,
        name matches Some(name) ==> is_part_of(name@, path@),
{
    match std::path::Path::new(path).file_name() {
        Some(name) => Some(name.to_string_lossy().into_owned()),
        None => None,
    }
}

} // verus!
