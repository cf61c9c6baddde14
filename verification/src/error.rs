//! Why a text cannot be rewritten.

use vstd::prelude::*;
use vstd::string::StringExecFns;

verus! {

/// The two ways in which a character can be left without a token.
#[derive(Debug, Clone, Copy, PartialEq, Eq)]
pub enum ParseError {
    /// A whitespace character was met, and no token to put in its place
    /// was given.
    MissingSpace,
    /// The character is numeric and is not one of the ten digits that have
    /// a token.
    UnmappedNumeric(char),
}

impl ParseError {
    /// The words that describe the error.
    pub open spec fn message_text(self) -> Seq<char> {
        match self {
            ParseError::MissingSpace => "Args space is not set!"@,
            ParseError::UnmappedNumeric(c) => "Character "@ + seq![c] + " not found in NUMBERS"@,
        }
    }

    /// Describes the error in words.
    pub fn message(&self) -> (text: String)
        ensures
            text@ == self.message_text(),
    {
        match self {
            ParseError::MissingSpace => "Args space is not set!".to_string(),
            ParseError::UnmappedNumeric(c) => {
                let mut text = "Character ".to_string();
                text.push(*c);
                text.append(" not found in NUMBERS");
                text
            },
        }
    }
}

} // verus!
