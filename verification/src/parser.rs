//! Rewriting a cluster, a list of clusters, a text and the words of a run.

use vstd::prelude::*;
use vstd::string::StrSliceExecFns;
use crate::chars::ascii_letter;
use crate::cli_args::Args;
use crate::error::ParseError;
use crate::laws::{
    error_among_first_stays, given_space_is_never_missing, plain_text_keeps_its_clusters,
    text_of_mapped_chars_has_a_line,
};
use crate::rules::{
    cluster_tokens, each_char_has_token, grapheme_outcome, is_plain_text, text_outcome,
};
use crate::segment::{grapheme_clusters, split_graphemes};
use crate::text::{join_spaced, join_with_space};
use crate::tokens::{letter, number, special_character};

verus! {

/// The whitespace token that the arguments carry, if there are any.
pub open spec fn space_token(args: Option<&Args>) -> Option<Seq<char>> {
    match args {
        Some(given) => Some(given.space@),
        None => None,
    }
}

/// What a result holds, with the line taken as its characters.
pub open spec fn outcome_view(result: Result<String, ParseError>) -> Result<Seq<char>, ParseError> {
    match result {
        Ok(line) => Ok(line@),
        Err(error) => Err(error),
    }
}

/// Maps one grapheme cluster to its token.
///
/// A cluster of several code points is returned as it is. A single code
/// point is whitespace, a special punctuation mark, an ASCII letter, a
/// numeric character or something else, in this order of precedence.
/// Whitespace without a whitespace token and a numeric character without a
/// token of its own are errors.
pub fn parse_grapheme(gr: &str, args: Option<&Args>) -> (result: Result<String, ParseError>)
    requires
        gr@.len() > 0,
    ensures
        outcome_view(result) == grapheme_outcome(gr@, space_token(args)),
{
    if gr.unicode_len() > 1 {
        return Ok(gr.to_string());
    }
    let c = gr.get_char(0);

    if c.is_whitespace() {
        return match args {
            Some(given) => Ok(given.space.clone()),
            None => Err(ParseError::MissingSpace),
        };
    }
    match special_character(c) {
        Some(token) => return Ok(token.to_string()),
        None => (),
    }

    if ascii_letter(c) {
        return Ok(letter(c));
    }
    if c.is_numeric() {
        return match number(c) {
            Some(token) => Ok(token.to_string()),
            None => Err(ParseError::UnmappedNumeric(c)),
        };
    }
    // other cases - simply return the same value

    assert(gr@ =~= seq![c]);
    Ok(gr.to_string())
}

/// Maps each cluster of the list to its token and joins the tokens with
/// single spaces. The first cluster without a token ends the work with its
/// error.
pub fn parse_clusters(clusters: &Vec<&str>, args: Option<&Args>) -> (result: Result<
    String,
    ParseError,
>)
    requires
        forall|i: int| 0 <= i < clusters.len() ==> (#[trigger] clusters[i])@.len() > 0,
    ensures
        outcome_view(result) == text_outcome(clusters.deep_view(), space_token(args)),
{
    let mut parsed_chars: Vec<String> = Vec::new();
    let mut i: usize = 0;
    assert(parsed_chars.deep_view() =~= Seq::<Seq<char>>::empty());
    while i < clusters.len()
        invariant
            i <= clusters.len(),
            forall|j: int| 0 <= j < clusters.len() ==> (#[trigger] clusters[j])@.len() > 0,
            cluster_tokens(clusters.deep_view().take(i as int), space_token(args)) == Ok::<
                Seq<Seq<char>>,
                ParseError,
            >(parsed_chars.deep_view()),
        decreases clusters.len() - i,
    {
        let ghost seen = clusters.deep_view().take(i as int);
        let ghost next = clusters.deep_view().take(i + 1);
        let ghost tokens = parsed_chars.deep_view();
        assert(next.drop_last() =~= seen);
        match parse_grapheme(clusters[i], args) {
            Ok(token) => {
                parsed_chars.push(token);
                assert(parsed_chars.deep_view() =~= tokens.push(token@));
            },
            Err(error) => {
                proof {
                    error_among_first_stays(clusters.deep_view(), space_token(args), i + 1);
                }
                return Err(error);
            },
        }
        i += 1;
    }
    assert(clusters.deep_view().take(clusters.len() as int) =~= clusters.deep_view());
    Ok(join_with_space(&parsed_chars))
}

/// Cuts the text into its extended grapheme clusters, maps each to its token
/// and joins the tokens with single spaces. The first cluster without a
/// token ends the work with its error.
///
/// Whatever the clusters are, a text in which every character has a token is
/// rewritten without error, and a text of plain characters only comes back
/// as its clusters with single spaces between them.
pub fn parse_text(text: &str, args: Option<&Args>) -> (result: Result<String, ParseError>)
    ensures
        outcome_view(result) == text_outcome(grapheme_clusters(text@, true), space_token(args)),
        each_char_has_token(text@, space_token(args)) ==> result is Ok,
        is_plain_text(text@) ==> outcome_view(result) == Ok::<Seq<char>, ParseError>(
            join_spaced(grapheme_clusters(text@, true)),
        ),
{
    let clusters = split_graphemes(text, true);
    proof {
        if each_char_has_token(text@, space_token(args)) {
            text_of_mapped_chars_has_a_line(text@, clusters.deep_view(), space_token(args));
        }
        if is_plain_text(text@) {
            plain_text_keeps_its_clusters(text@, clusters.deep_view(), space_token(args));
        }
    }
    parse_clusters(&clusters, args)
}

/// Joins the words with single spaces and rewrites the text they form, with
/// the whitespace token of the arguments in the place of each whitespace
/// character. The only error is a numeric character that has no token, and
/// there is none where every character of the words has a token.
pub fn run(cli_args: Args) -> (result: Result<String, ParseError>)
    ensures
        outcome_view(result) == text_outcome(
            grapheme_clusters(join_spaced(cli_args.words.deep_view()), true),
            Some(cli_args.space@),
        ),
        result != Err::<String, ParseError>(ParseError::MissingSpace),
        each_char_has_token(join_spaced(cli_args.words.deep_view()), Some(cli_args.space@))
            ==> result is Ok,
{
    let full_text = join_with_space(&cli_args.words);
    proof {
        given_space_is_never_missing(grapheme_clusters(full_text@, true), cli_args.space@);
    }
    parse_text(full_text.as_str(), Some(&cli_args))
}

} // verus!
