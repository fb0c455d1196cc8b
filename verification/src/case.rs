//! Case folding of identifiers.

use vstd::prelude::*;

verus! {

/// The snake-case form of a text: its words in lower case, joined by
/// underscores. Words end at characters that are neither letters nor digits,
/// before a capital that follows a small letter, and before the last capital
/// of a run of capitals that a small letter follows.
pub uninterp spec fn snake_case(text: Seq<char>) -> Seq<char>;

/// Calls `heck::ToSnakeCase::to_snake_case` on a string slice.
///
/// The result depends on the text alone; the contract gives it the name
/// [`snake_case`] and claims nothing more of it.
#[verifier::external_body]
pub(crate) fn to_snake_case(text: &str) -> (folded: String)
    ensures
        folded@ == snake_case(text@),
{
    heck::ToSnakeCase::to_snake_case(text)
}

} // verus!
