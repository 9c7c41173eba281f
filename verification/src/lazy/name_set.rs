//! Sets of column names.

use ahash::RandomState;
use std::collections::HashSet;
use vstd::prelude::*;

verus! {

/// Makes the hasher `ahash::RandomState` known as a type of which nothing is
/// claimed.
#[verifier::external_type_specification]
#[verifier::external_body]
pub struct ExRandomState(ahash::RandomState);

/// The names that a set holds, as sequences of characters.
pub uninterp spec fn name_set_contents(set: HashSet<&String, RandomState>) -> Set<Seq<char>>;

/// Creates an empty set of names.
///
/// Trusted: calls `HashSet::default` of the standard library with the hasher
/// `ahash::RandomState`; the new set holds nothing.
#[verifier::external_body]
pub(crate) fn name_set_new<'a>() -> (r: HashSet<&'a String, RandomState>)
    ensures
        name_set_contents(r) == Set::<Seq<char>>::empty(),
{
    HashSet::default()
}

/// Adds a name to the set.
///
/// Trusted: calls `HashSet::insert`; afterwards the set holds the name
/// besides what it held before. Strings are hashed and compared by their
/// characters.
#[verifier::external_body]
pub(crate) fn name_set_insert<'a>(set: &mut HashSet<&'a String, RandomState>, name: &'a String)
    ensures
        name_set_contents(*final(set)) == name_set_contents(*old(set)).insert(name@),
{
    set.insert(name);
}

/// Whether the set holds the name.
///
/// Trusted: calls `HashSet::contains`, which finds a string exactly when the
/// set holds one with the same characters.
#[verifier::external_body]
pub(crate) fn name_set_contains(set: &HashSet<&String, RandomState>, name: &String) -> (r: bool)
    ensures
        r == name_set_contents(*set).contains(name@),
{
    set.contains(name)
}

} // verus!
