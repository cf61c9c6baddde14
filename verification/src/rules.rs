//! The rules that give each user-perceived character its token, stated over
//! sequences of characters.

use vstd::prelude::*;
use crate::chars::{is_ascii_letter, numeric, white_space};
use crate::error::ParseError;
use crate::text::join_spaced;
use crate::tokens::{digit_token, letter_token, special_token};

verus! {

/// A character that no rule rewrites: no whitespace, no special punctuation
/// mark, no ASCII letter and no numeric character.
pub open spec fn is_plain(c: char) -> bool {
    &&& !white_space(c)
    &&& special_token(c) is None
    &&& !is_ascii_letter(c)
    &&& !numeric(c)
}

/// A text that holds plain characters only.
pub open spec fn is_plain_text(text: Seq<char>) -> bool {
    forall|k: int| 0 <= k < text.len() ==> is_plain(#[trigger] text[k])
}

/// The token of a single code point, by the first rule that applies:
/// whitespace becomes the whitespace token, and is an error where there is
/// none; a special punctuation mark has its fixed token; an ASCII letter has
/// its coloured token; a numeric character has the token of its digit, and is
/// an error where it is no digit; any other character stands for itself.
pub open spec fn char_outcome(c: char, space: Option<Seq<char>>) -> Result<Seq<char>, ParseError> {
    if white_space(c) {
        match space {
            Some(token) => Ok(token),
            None => Err(ParseError::MissingSpace),
        }
    } else if special_token(c) is Some {
        Ok(special_token(c)->0)
    } else if is_ascii_letter(c) {
        Ok(letter_token(c))
    } else if numeric(c) {
        match digit_token(c) {
            Some(token) => Ok(token),
            None => Err(ParseError::UnmappedNumeric(c)),
        }
    } else {
        Ok(seq![c])
    }
}

/// A text in which every character, taken alone, has a token.
pub open spec fn each_char_has_token(text: Seq<char>, space: Option<Seq<char>>) -> bool {
    forall|k: int| 0 <= k < text.len() ==> char_outcome(#[trigger] text[k], space) is Ok
}

/// The token of a grapheme cluster. A cluster of one code point has the
/// token of that code point; any other cluster is its own token.
pub open spec fn grapheme_outcome(cluster: Seq<char>, space: Option<Seq<char>>) -> Result<
    Seq<char>,
    ParseError,
> {
    if cluster.len() == 1 {
        char_outcome(cluster[0], space)
    } else {
        Ok(cluster)
    }
}

/// The tokens of the clusters, one for each and in their order, or the error
/// of the first cluster that has no token.
pub open spec fn cluster_tokens(clusters: Seq<Seq<char>>, space: Option<Seq<char>>) -> Result<
    Seq<Seq<char>>,
    ParseError,
>
    decreases clusters.len(),
{
    if clusters.len() == 0 {
        Ok(Seq::empty())
    } else {
        match cluster_tokens(clusters.drop_last(), space) {
            Err(error) => Err(error),
            Ok(tokens) => match grapheme_outcome(clusters.last(), space) {
                Err(error) => Err(error),
                Ok(token) => Ok(tokens.push(token)),
            },
        }
    }
}

/// The line that the clusters become: their tokens joined with single
/// spaces, or the error of the first cluster that has no token.
pub open spec fn text_outcome(clusters: Seq<Seq<char>>, space: Option<Seq<char>>) -> Result<
    Seq<char>,
    ParseError,
> {
    match cluster_tokens(clusters, space) {
        Ok(tokens) => Ok(join_spaced(tokens)),
        Err(error) => Err(error),
    }
}

/// The cluster at `i` is the first of the list that has no token.
pub open spec fn first_fault_at(clusters: Seq<Seq<char>>, space: Option<Seq<char>>, i: int) -> bool {
    &&& 0 <= i < clusters.len()
    &&& grapheme_outcome(clusters[i], space) is Err
    &&& forall|j: int| 0 <= j < i ==> grapheme_outcome(#[trigger] clusters[j], space) is Ok
}

} // verus!
