//! What one run is given: the words to rewrite and the token that stands
//! for whitespace.

use vstd::prelude::*;

verus! {

/// The token that stands for whitespace where the caller names no other.
pub const DEFAULT_SPACE: &'static str = ":white_small_square:";

/// The words to be rewritten and the whitespace token.
#[derive(Debug)]
pub struct Args {
    /// Words to be parsed; they are joined with single spaces.
    pub words: Vec<String>,
    /// Emote to use as a whitespace character.
    pub space: String,
}

impl Args {
    /// Takes the words and the whitespace token, or the default token where
    /// none is given.
    pub fn new(words: Vec<String>, space: Option<String>) -> (args: Args)
        ensures
            args.words == words,
            args.space@ == match space {
                Some(token) => token@,
                None => DEFAULT_SPACE@,
            },
    {
        let space = match space {
            Some(token) => token,
            None => DEFAULT_SPACE.to_string(),
        };
        Args { words, space }
    }
}

} // verus!
