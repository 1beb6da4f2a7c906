//! String comparison for the schema's sentinel and token tests.

use vstd::prelude::*;

verus! {

/// Equality of two string slices.
///
/// Trusted: this calls `str`'s `PartialEq::eq` from the standard library,
/// which compares the two slices byte for byte. Two valid UTF-8 strings have
/// the same bytes exactly when they are the same sequence of characters, and
/// that is all the contract claims.
#[verifier::external_body]
pub(crate) fn str_eq(a: &str, b: &str) -> (same: bool)
    ensures
        same == (a@ == b@),
{
    a == b
}

} // verus!
