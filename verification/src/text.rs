//! Text predicates over character sequences, and the standard string
//! operations that decide them at run time.

use vstd::prelude::*;

verus! {

/// `needle` stands in `hay` at character offset `at`.
pub open spec fn occurs_at(hay: Seq<char>, needle: Seq<char>, at: int) -> bool {
    &&& 0 <= at
    &&& at + needle.len() <= hay.len()
    &&& hay.subrange(at, at + needle.len()) == needle
}

/// `needle` stands somewhere in `hay` as a contiguous run of characters.
pub open spec fn has_substring(hay: Seq<char>, needle: Seq<char>) -> bool {
    exists|at: int| occurs_at(hay, needle, at)
}

/// `hay` begins with `prefix`.
pub open spec fn has_prefix(hay: Seq<char>, prefix: Seq<char>) -> bool {
    occurs_at(hay, prefix, 0)
}

/// Trusted: `str`'s `==`. Two string slices compare equal exactly when they
/// hold the same characters in the same order.
#[verifier::external_body]
pub(crate) fn str_eq(a: &str, b: &str) -> (same: bool)
    ensures
        same == (a@ == b@),
{
    a == b
}

/// Trusted: `str::contains` with a string pattern. It answers whether the
/// pattern matches a contiguous part of the haystack; the empty pattern
/// matches every haystack.
#[verifier::external_body]
pub(crate) fn str_contains(hay: &str, needle: &str) -> (found: bool)
    ensures
        found == has_substring(hay@, needle@),
{
    hay.contains(needle)
}

/// Trusted: `str::starts_with` with a string pattern. It answers whether the
/// pattern matches the beginning of the haystack.
#[verifier::external_body]
pub(crate) fn str_starts_with(hay: &str, prefix: &str) -> (found: bool)
    ensures
        found == has_prefix(hay@, prefix@),
{
    hay.starts_with(prefix)
}

} // verus!
