//! The fixed tokens: the two punctuation marks, the ten digits and the
//! letters in their two colours.

use vstd::prelude::*;
use crate::chars::{ascii_lower, is_ascii_lower, to_ascii_lower};

verus! {

/// The token of a special punctuation mark; `None` for any other character.
pub open spec fn special_token(c: char) -> Option<Seq<char>> {
    if c == '!' {
        Some(":alphabet-yellow-exclamation:"@)
    } else if c == '?' {
        Some(":alphabet-yellow-question:"@)
    } else {
        None
    }
}

/// The token of an ASCII decimal digit; `None` for any other character.
pub open spec fn digit_token(c: char) -> Option<Seq<char>> {
    if c == '1' {
        Some(":one:"@)
    } else if c == '2' {
        Some(":two:"@)
    } else if c == '3' {
        Some(":three:"@)
    } else if c == '4' {
        Some(":four:"@)
    } else if c == '5' {
        Some(":five:"@)
    } else if c == '6' {
        Some(":six:"@)
    } else if c == '7' {
        Some(":seven:"@)
    } else if c == '8' {
        Some(":eight:"@)
    } else if c == '9' {
        Some(":nine:"@)
    } else if c == '0' {
        Some(":zero:"@)
    } else {
        None
    }
}

/// What a letter's token begins with: lower case is yellow, upper case white.
pub open spec fn letter_prefix(c: char) -> Seq<char> {
    if is_ascii_lower(c) {
        ":alphabet-yellow-"@
    } else {
        ":alphabet-white-"@
    }
}

/// The token of an ASCII letter: the colour of its case, then the letter in
/// lower case, then a colon.
pub open spec fn letter_token(c: char) -> Seq<char> {
    letter_prefix(c) + seq![ascii_lower(c), ':']
}

/// Looks a character up among the special punctuation marks.
pub fn special_character(c: char) -> (token: Option<&'static str>)
    ensures
        token.deep_view() == special_token(c),
{
    match c {
        '!' => Some(":alphabet-yellow-exclamation:"),
        '?' => Some(":alphabet-yellow-question:"),
        _ => None,
    }
}

/// Looks a character up among the digits.
pub fn number(c: char) -> (token: Option<&'static str>)
    ensures
        token.deep_view() == digit_token(c),
{
    match c {
        '1' => Some(":one:"),
        '2' => Some(":two:"),
        '3' => Some(":three:"),
        '4' => Some(":four:"),
        '5' => Some(":five:"),
        '6' => Some(":six:"),
        '7' => Some(":seven:"),
        '8' => Some(":eight:"),
        '9' => Some(":nine:"),
        '0' => Some(":zero:"),
        _ => None,
    }
}

/// Builds the token of a letter from its colour and its lower-case form.
pub fn letter(c: char) -> (token: String)
    ensures
        token@ == letter_token(c),
{
    let font = if c >= 'a' && c <= 'z' {
        ":alphabet-yellow-"
    } else {
        ":alphabet-white-"
    };
    let mut token = font.to_string();
    token.push(to_ascii_lower(c));
    token.push(':');
    token
}

} // verus!
