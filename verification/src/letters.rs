//! Classification of single IBAN bytes into the three character sets used by
//! the IBAN registry (`n`, `a` and `c`), together with the value each
//! accepted byte contributes to the mod-97 checksum.
use vstd::prelude::*;

verus! {

/// Reason why a byte is refused by a character-set check.
#[derive(Debug, PartialEq, Eq, Clone, Copy, Structural)]
pub enum ValidationLetterError {
    NotPartOfRequiredSet,
}

/// The character sets of the IBAN registry notation.
#[derive(Debug, PartialEq, Eq, Clone, Copy, Structural)]
pub enum CharClass {
    /// `n`: digits `0`..`9`.
    Numeric,
    /// `a`: uppercase letters `A`..`Z`.
    Alphabetic,
    /// `c`: digits and letters of either case.
    Alphanumeric,
}

/// `b` is an ASCII digit.
pub open spec fn is_digit(b: u8) -> bool {
    0x30 <= b <= 0x39
}

/// `b` is an ASCII uppercase letter.
pub open spec fn is_upper(b: u8) -> bool {
    0x41 <= b <= 0x5a
}

/// `b` is an ASCII lowercase letter.
pub open spec fn is_lower(b: u8) -> bool {
    0x61 <= b <= 0x7a
}

/// The value of `b` in the checksum when it belongs to `class`: a digit is
/// worth itself, a letter is worth 10 (`A` or `a`) to 35 (`Z` or `z`).
/// `None` when `b` is not in the set.
pub open spec fn class_value_spec(class: CharClass, b: u8) -> Option<int> {
    match class {
        CharClass::Numeric => if is_digit(b) { Some(b - 0x30) } else { None },
        CharClass::Alphabetic => if is_upper(b) { Some(b - 0x37) } else { None },
        CharClass::Alphanumeric => {
            if is_digit(b) {
                Some(b - 0x30)
            } else if is_upper(b) {
                Some(b - 0x37)
            } else if is_lower(b) {
                Some(b - 0x57)
            } else {
                None
            }
        },
    }
}

/// `r` is the result a check of `class` gives for the byte `b`.
pub open spec fn letter_result(class: CharClass, b: u8, r: Result<usize, ValidationLetterError>) -> bool {
    match class_value_spec(class, b) {
        Some(v) => r == Ok::<usize, ValidationLetterError>(v as usize),
        None => r == Err::<usize, ValidationLetterError>(ValidationLetterError::NotPartOfRequiredSet),
    }
}

/// Every accepted byte is ASCII and worth less than 36.
pub proof fn lemma_class_value_bounds(class: CharClass, b: u8)
    ensures
        class_value_spec(class, b) matches Some(v) ==> 0 <= v < 36 && b < 0x80 && b != 0x20,
{
}

/// Check the character (byte) is a digit and return the value of that digit.
pub fn simple_contains_n(c: u8) -> (res: Result<usize, ValidationLetterError>)
    ensures
        letter_result(CharClass::Numeric, c, res),
{
    if 0x30 <= c && c <= 0x39 {
        Ok((c - 48) as usize)
    } else {
        Err(ValidationLetterError::NotPartOfRequiredSet)
    }
}

/// Check the character is an uppercase `A`..`Z` and return a value between 10 and 35.
pub fn simple_contains_a(c: u8) -> (res: Result<usize, ValidationLetterError>)
    ensures
        letter_result(CharClass::Alphabetic, c, res),
{
    if 0x41 <= c && c <= 0x5a {
        Ok((c - 55) as usize)
    } else {
        Err(ValidationLetterError::NotPartOfRequiredSet)
    }
}

/// Check the character is alphanumeric and return its value: 0 to 9 for a
/// digit, 10 to 35 for a letter of either case.
pub fn simple_contains_c(c: u8) -> (res: Result<usize, ValidationLetterError>)
    ensures
        letter_result(CharClass::Alphanumeric, c, res),
{
    if 0x30 <= c && c <= 0x39 {
        Ok((c - 48) as usize)
    } else if 0x41 <= c && c <= 0x5a {
        Ok((c - 55) as usize)
    } else if 0x61 <= c && c <= 0x7a {
        Ok((c - 87) as usize)
    } else {
        Err(ValidationLetterError::NotPartOfRequiredSet)
    }
}

/// Apply the check of `class` to `c`.
pub fn check_class(class: CharClass, c: u8) -> (res: Result<usize, ValidationLetterError>)
    ensures
        letter_result(class, c, res),
{
    match class {
        CharClass::Numeric => simple_contains_n(c),
        CharClass::Alphabetic => simple_contains_a(c),
        CharClass::Alphanumeric => simple_contains_c(c),
    }
}

} // verus!
