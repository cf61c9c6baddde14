//! Cutting a text into user-perceived characters.

use vstd::prelude::*;
use unicode_segmentation::UnicodeSegmentation;

verus! {

/// The grapheme clusters of a text in their order, as the rules of Unicode
/// text segmentation cut them: the extended clusters where `extended` is
/// set, the legacy clusters where it is not.
pub uninterp spec fn grapheme_clusters(text: Seq<char>, extended: bool) -> Seq<Seq<char>>;

/// Trusted: hands the text to `UnicodeSegmentation::graphemes` of the crate
/// `unicode-segmentation` and collects the slices that its iterator yields.
/// The contract gives that list a name and states two things of it that the
/// iterator shows: it yields the slice from its cursor to the next boundary
/// behind the cursor until the cursor is at the end, so no cluster is empty,
/// and the clusters laid end to end are the text.
#[verifier::external_body]
pub(crate) fn split_graphemes(text: &str, extended: bool) -> (clusters: Vec<&str>)
    ensures
        clusters.deep_view() == grapheme_clusters(text@, extended),
        forall|i: int| 0 <= i < clusters.len() ==> (#[trigger] clusters[i])@.len() > 0,
        clusters.deep_view().flatten() == text@,
{
    text.graphemes(extended).collect()
}

} // verus!
