//! Character classes that decide which rule maps a single code point.

use vstd::prelude::*;

verus! {

/// The code points that carry the Unicode `White_Space` property: the 25
/// that `PropList.txt` of the Unicode Character Database lists.
pub open spec fn white_space(c: char) -> bool {
    let u = c as u32;
    ||| 0x09 <= u <= 0x0d
    ||| u == 0x20
    ||| u == 0x85
    ||| u == 0xa0
    ||| u == 0x1680
    ||| 0x2000 <= u <= 0x200a
    ||| u == 0x2028
    ||| u == 0x2029
    ||| u == 0x202f
    ||| u == 0x205f
    ||| u == 0x3000
}

/// Trusted: `std`'s `char::is_whitespace` answers whether the character has
/// the `White_Space` property of the Unicode Character Database. The
/// contract spells that property out, code point by code point, as the list
/// in [`white_space`].
pub assume_specification[ char::is_whitespace ](c: char) -> (r: bool)
    ensures
        r == white_space(c),
;

/// Whether a character beyond ASCII belongs to one of the Unicode general
/// categories for numbers (`Nd`, `Nl`, `No`), as `std`'s `char::is_numeric`
/// reports it.
pub uninterp spec fn numeric_beyond_ascii(c: char) -> bool;

/// One of the ten ASCII decimal digits.
pub open spec fn is_ascii_digit(c: char) -> bool {
    '0' <= c <= '9'
}

/// A character of a Unicode general category for numbers. Within ASCII these
/// are the ten decimal digits; beyond it the Unicode tables decide.
pub open spec fn numeric(c: char) -> bool {
    if c as u32 <= 0x7f {
        is_ascii_digit(c)
    } else {
        numeric_beyond_ascii(c)
    }
}

/// Trusted: `std`'s `char::is_numeric` is true of the characters in the
/// general categories `Nd`, `Nl` and `No`. The contract states that within
/// ASCII these are exactly `'0'` to `'9'`, and gives the answer for every
/// other character a name.
pub assume_specification[ char::is_numeric ](c: char) -> (r: bool)
    ensures
        r == (if c as u32 <= 0x7f {
            is_ascii_digit(c)
        } else {
            numeric_beyond_ascii(c)
        }),
;

/// An ASCII letter, upper or lower case.
pub open spec fn is_ascii_letter(c: char) -> bool {
    is_ascii_lower(c) || is_ascii_upper(c)
}

/// One of `'a'` to `'z'`.
pub open spec fn is_ascii_lower(c: char) -> bool {
    'a' <= c <= 'z'
}

/// One of `'A'` to `'Z'`.
pub open spec fn is_ascii_upper(c: char) -> bool {
    'A' <= c <= 'Z'
}

/// The lower-case form of an ASCII letter; any other character is itself.
pub open spec fn ascii_lower(c: char) -> char {
    if is_ascii_upper(c) {
        ((c as u8) + 32) as char
    } else {
        c
    }
}

/// The upper-case form of an ASCII letter; any other character is itself.
pub open spec fn ascii_upper(c: char) -> char {
    if is_ascii_lower(c) {
        ((c as u8) - 32) as char
    } else {
        c
    }
}

/// Tells whether `c` is an ASCII letter.
pub fn ascii_letter(c: char) -> (r: bool)
    ensures
        r == is_ascii_letter(c),
{
    (c >= 'a' && c <= 'z') || (c >= 'A' && c <= 'Z')
}

/// Lowers an ASCII letter and leaves every other character as it is.
pub fn to_ascii_lower(c: char) -> (r: char)
    ensures
        r == ascii_lower(c),
{
    if c >= 'A' && c <= 'Z' {
        let b: u8 = c as u8;
        (b + 32) as char
    } else {
        c
    }
}

} // verus!
