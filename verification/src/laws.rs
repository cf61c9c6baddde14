//! What holds of the rules for every character, cluster and text.

use vstd::prelude::*;
use crate::chars::{ascii_lower, ascii_upper, is_ascii_digit, is_ascii_letter, white_space};
use crate::error::ParseError;
use crate::rules::{
    cluster_tokens, each_char_has_token, first_fault_at, grapheme_outcome, is_plain,
    is_plain_text, text_outcome,
};
use crate::text::join_spaced;
use crate::tokens::digit_token;

verus! {

/// A plain character is returned unchanged, whatever the whitespace token.
pub proof fn plain_character_is_unchanged(c: char, space: Option<Seq<char>>)
    requires
        is_plain(c),
    ensures
        grapheme_outcome(seq![c], space) == Ok::<Seq<char>, ParseError>(seq![c]),
{
}

/// For every ASCII letter, the token of its lower-case form starts with
/// `:alphabet-yellow-` and the token of its upper-case form starts with
/// `:alphabet-white-`; both end with the lower-case letter and a colon, and
/// hold nothing else.
pub proof fn letter_token_tells_case(c: char, space: Option<Seq<char>>)
    requires
        is_ascii_letter(c),
    ensures
        ({
            let lower = ascii_lower(c);
            let upper = ascii_upper(c);
            let of_lower = grapheme_outcome(seq![lower], space);
            let of_upper = grapheme_outcome(seq![upper], space);
            &&& of_lower == Ok::<Seq<char>, ParseError>(
                ":alphabet-yellow-"@ + seq![lower, ':'],
            )
            &&& of_upper == Ok::<Seq<char>, ParseError>(":alphabet-white-"@ + seq![lower, ':'])
            &&& ":alphabet-yellow-"@.is_prefix_of(of_lower->Ok_0)
            &&& ":alphabet-white-"@.is_prefix_of(of_upper->Ok_0)
            &&& seq![lower, ':'].is_suffix_of(of_lower->Ok_0)
            &&& seq![lower, ':'].is_suffix_of(of_upper->Ok_0)
        }),
{
}

/// Each of the ten ASCII digits has a token, and that token is what the
/// digit is rewritten to, whatever the whitespace token.
pub proof fn digit_has_its_token(d: char, space: Option<Seq<char>>)
    requires
        is_ascii_digit(d),
    ensures
        digit_token(d) is Some,
        grapheme_outcome(seq![d], space) == Ok::<Seq<char>, ParseError>(digit_token(d)->0),
{
}

/// The exclamation mark and the question mark have their yellow tokens,
/// whatever the whitespace token.
pub proof fn special_marks_are_yellow(space: Option<Seq<char>>)
    ensures
        grapheme_outcome(seq!['!'], space) == Ok::<Seq<char>, ParseError>(
            ":alphabet-yellow-exclamation:"@,
        ),
        grapheme_outcome(seq!['?'], space) == Ok::<Seq<char>, ParseError>(
            ":alphabet-yellow-question:"@,
        ),
{
}

/// A whitespace character becomes the whitespace token that is given, and
/// is an error where none is given.
pub proof fn whitespace_becomes_given_token(c: char, token: Seq<char>)
    requires
        white_space(c),
    ensures
        grapheme_outcome(seq![c], Some(token)) == Ok::<Seq<char>, ParseError>(token),
        grapheme_outcome(seq![c], None) == Err::<Seq<char>, ParseError>(
            ParseError::MissingSpace,
        ),
{
}

/// A cluster of more than one code point is returned unchanged.
pub proof fn long_cluster_is_unchanged(cluster: Seq<char>, space: Option<Seq<char>>)
    requires
        cluster.len() > 1,
    ensures
        grapheme_outcome(cluster, space) == Ok::<Seq<char>, ParseError>(cluster),
{
}

/// The clusters have tokens exactly when each cluster has one. There is
/// then one token for each cluster, in the order of the clusters: no
/// cluster is split and no two are merged.
pub proof fn one_token_per_cluster(clusters: Seq<Seq<char>>, space: Option<Seq<char>>)
    ensures
        cluster_tokens(clusters, space) is Ok <==> forall|i: int|
            0 <= i < clusters.len() ==> grapheme_outcome(#[trigger] clusters[i], space) is Ok,
        cluster_tokens(clusters, space) is Ok ==> ({
            let tokens = cluster_tokens(clusters, space)->Ok_0;
            &&& tokens.len() == clusters.len()
            &&& forall|i: int|
                0 <= i < clusters.len() ==> grapheme_outcome(#[trigger] clusters[i], space)
                    == Ok::<Seq<char>, ParseError>(tokens[i])
        }),
    decreases clusters.len(),
{
    if clusters.len() > 0 {
        let rest = clusters.drop_last();
        one_token_per_cluster(rest, space);
        if cluster_tokens(clusters, space) is Ok {
            let tokens = cluster_tokens(clusters, space)->Ok_0;
            assert forall|i: int| 0 <= i < clusters.len() implies grapheme_outcome(
                #[trigger] clusters[i],
                space,
            ) == Ok::<Seq<char>, ParseError>(tokens[i]) by {
                if i < rest.len() {
                    assert(rest[i] == clusters[i]);
                }
            }
        }
    }
}

/// Where some cluster has no token, the error is that of the first such
/// cluster.
pub proof fn first_fault_decides(clusters: Seq<Seq<char>>, space: Option<Seq<char>>, i: int)
    requires
        first_fault_at(clusters, space, i),
    ensures
        cluster_tokens(clusters, space) == Err::<Seq<Seq<char>>, ParseError>(
            grapheme_outcome(clusters[i], space)->Err_0,
        ),
    decreases clusters.len(),
{
    let rest = clusters.drop_last();
    if i == clusters.len() - 1 {
        one_token_per_cluster(rest, space);
    } else {
        first_fault_decides(rest, space, i);
    }
}

/// An error among the first `k` clusters is the error of the whole list.
pub proof fn error_among_first_stays(clusters: Seq<Seq<char>>, space: Option<Seq<char>>, k: int)
    requires
        0 <= k <= clusters.len(),
        cluster_tokens(clusters.take(k), space) is Err,
    ensures
        cluster_tokens(clusters, space) == cluster_tokens(clusters.take(k), space),
    decreases clusters.len(),
{
    if k == clusters.len() {
        assert(clusters.take(k) =~= clusters);
    } else {
        assert(clusters.drop_last().take(k) =~= clusters.take(k));
        error_among_first_stays(clusters.drop_last(), space, k);
    }
}

/// With a whitespace token given, a missing whitespace token is never the
/// error: the only error left is a numeric character without a token.
pub proof fn given_space_is_never_missing(clusters: Seq<Seq<char>>, token: Seq<char>)
    ensures
        cluster_tokens(clusters, Some(token)) != Err::<Seq<Seq<char>>, ParseError>(
            ParseError::MissingSpace,
        ),
    decreases clusters.len(),
{
    if clusters.len() > 0 {
        given_space_is_never_missing(clusters.drop_last(), token);
    }
}

/// Every character of every cluster is a character of the clusters laid
/// end to end.
pub proof fn flat_text_holds_each_char(clusters: Seq<Seq<char>>, i: int, j: int)
    requires
        0 <= i < clusters.len(),
        0 <= j < clusters[i].len(),
    ensures
        clusters.flatten().contains(clusters[i][j]),
    decreases clusters.len(),
{
    let rest = clusters.drop_first();
    if i == 0 {
        assert(clusters.flatten()[j] == clusters[0][j]);
    } else {
        flat_text_holds_each_char(rest, i - 1, j);
        let k = choose|k: int| 0 <= k < rest.flatten().len() && rest.flatten()[k] == clusters[i][j];
        assert(clusters.flatten()[clusters.first().len() + k] == clusters[i][j]);
    }
}

/// Clusters that are each their own token keep their places: the tokens of
/// the list are the list.
pub proof fn unchanged_clusters_are_their_tokens(
    clusters: Seq<Seq<char>>,
    space: Option<Seq<char>>,
)
    requires
        forall|i: int|
            0 <= i < clusters.len() ==> grapheme_outcome(#[trigger] clusters[i], space) == Ok::<
                Seq<char>,
                ParseError,
            >(clusters[i]),
    ensures
        cluster_tokens(clusters, space) == Ok::<Seq<Seq<char>>, ParseError>(clusters),
    decreases clusters.len(),
{
    if clusters.len() == 0 {
        assert(clusters =~= Seq::<Seq<char>>::empty());
    } else {
        let rest = clusters.drop_last();
        unchanged_clusters_are_their_tokens(rest, space);
        assert(rest.push(clusters.last()) =~= clusters);
    }
}

/// A text of plain characters only is rewritten to its own clusters with
/// single spaces between them, however the text is cut into clusters.
pub proof fn plain_text_keeps_its_clusters(
    text: Seq<char>,
    clusters: Seq<Seq<char>>,
    space: Option<Seq<char>>,
)
    requires
        clusters.flatten() == text,
        is_plain_text(text),
    ensures
        text_outcome(clusters, space) == Ok::<Seq<char>, ParseError>(join_spaced(clusters)),
{
    assert forall|i: int| 0 <= i < clusters.len() implies grapheme_outcome(
        #[trigger] clusters[i],
        space,
    ) == Ok::<Seq<char>, ParseError>(clusters[i]) by {
        if clusters[i].len() == 1 {
            flat_text_holds_each_char(clusters, i, 0);
            assert(clusters[i] =~= seq![clusters[i][0]]);
        }
    }
    unchanged_clusters_are_their_tokens(clusters, space);
}

/// A text in which every character, taken alone, has a token is rewritten
/// without error, however the text is cut into clusters.
pub proof fn text_of_mapped_chars_has_a_line(
    text: Seq<char>,
    clusters: Seq<Seq<char>>,
    space: Option<Seq<char>>,
)
    requires
        clusters.flatten() == text,
        each_char_has_token(text, space),
    ensures
        text_outcome(clusters, space) is Ok,
{
    assert forall|i: int| 0 <= i < clusters.len() implies grapheme_outcome(
        #[trigger] clusters[i],
        space,
    ) is Ok by {
        if clusters[i].len() == 1 {
            flat_text_holds_each_char(clusters, i, 0);
        }
    }
    one_token_per_cluster(clusters, space);
}

} // verus!
