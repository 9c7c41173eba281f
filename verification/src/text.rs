//! Helpers on text.

use vstd::prelude::*;

verus! {

/// Compares two string slices.
///
/// Trusted: calls `str`'s `==` of the standard library, which holds exactly
/// when both slices spell the same characters.
#[verifier::external_body]
pub(crate) fn str_eq(a: &str, b: &str) -> (r: bool)
    ensures
        r == (a@ == b@),
{
    a == b
}

/// The text that the standard library's `Debug` formatting gives for a list of
/// strings with the given contents.
pub uninterp spec fn debug_list_text(items: Seq<Seq<char>>) -> Seq<char>;

/// Formats a list of strings for diagnostics.
///
/// Trusted: calls `format!` of the standard library with the `{:?}`
/// placeholder. The text depends on the contents of the strings alone.
#[verifier::external_body]
pub(crate) fn debug_list(items: &Vec<String>) -> (r: String)
    ensures
        r@ == debug_list_text(items.deep_view()),
{
    format!("{:?}", items)
}

} // verus!
