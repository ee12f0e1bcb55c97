//! Substring and suffix tests on text, stated over sequences of characters.

use vstd::prelude::*;

verus! {

/// `needle` occurs in `hay` starting at position `i`.
pub open spec fn occurs_at(hay: Seq<char>, needle: Seq<char>, i: int) -> bool {
    &&& 0 <= i
    &&& i + needle.len() <= hay.len()
    &&& hay.subrange(i, i + needle.len()) == needle
}

/// `needle` occurs somewhere in `hay`. The empty text occurs in every text.
pub open spec fn contains_text(hay: Seq<char>, needle: Seq<char>) -> bool {
    exists|i: int| occurs_at(hay, needle, i)
}

/// `hay` ends with `suffix`. Every text ends with the empty text.
pub open spec fn ends_with_text(hay: Seq<char>, suffix: Seq<char>) -> bool {
    occurs_at(hay, suffix, hay.len() - suffix.len())
}

/// Calls `str::contains` of the standard library with a string pattern.
/// Trusted: the result is `true` exactly when the pattern's characters occur
/// as a contiguous run in `hay`, as the documentation of `contains` says.
#[verifier::external_body]
pub(crate) fn str_contains(hay: &str, needle: &str) -> (found: bool)
    ensures
        found == contains_text(hay@, needle@),
{
    hay.contains(needle)
}

/// Calls `str::ends_with` of the standard library with a string pattern.
/// Trusted: the result is `true` exactly when the pattern's characters are
/// the last characters of `hay`, as the documentation of `ends_with` says.
#[verifier::external_body]
pub(crate) fn str_ends_with(hay: &str, suffix: &str) -> (found: bool)
    ensures
        found == ends_with_text(hay@, suffix@),
{
    hay.ends_with(suffix)
}

/// Compares two string slices with `==` of the standard library. Trusted:
/// the result is `true` exactly when the two hold the same characters.
#[verifier::external_body]
pub(crate) fn str_equals(left: &str, right: &str) -> (same: bool)
    ensures
        same == (left@ == right@),
{
    left == right
}

} // verus!
