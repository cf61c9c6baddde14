//! Joining pieces of text with single spaces.

use vstd::prelude::*;
use vstd::string::StringExecFns;

verus! {

/// Trusted: `std`'s `String::push` appends the given character to the end of
/// the string.
pub assume_specification[ String::push ](s: &mut String, c: char)
    ensures
        final(s)@ == old(s)@.push(c),
;

/// The parts in their order with one space between each two neighbours.
/// No parts give the empty text; a single part gives itself.
pub open spec fn join_spaced(parts: Seq<Seq<char>>) -> Seq<char>
    decreases parts.len(),
{
    if parts.len() == 0 {
        Seq::empty()
    } else if parts.len() == 1 {
        parts[0]
    } else {
        join_spaced(parts.drop_last()) + seq![' '] + parts.last()
    }
}

/// Joins the parts with single spaces.
pub fn join_with_space(parts: &Vec<String>) -> (joined: String)
    ensures
        joined@ == join_spaced(parts.deep_view()),
{
    let mut joined = String::new();
    let mut i: usize = 0;
    while i < parts.len()
        invariant
            i <= parts.len(),
            joined@ == join_spaced(parts.deep_view().take(i as int)),
        decreases parts.len() - i,
    {
        if i > 0 {
            joined.push(' ');
        }
        joined.append(parts[i].as_str());
        proof {
            let before = parts.deep_view().take(i as int);
            let after = parts.deep_view().take(i + 1);
            assert(after.drop_last() =~= before);
        }
        i += 1;
    }
    assert(parts.deep_view().take(parts.len() as int) =~= parts.deep_view());
    joined
}

} // verus!
