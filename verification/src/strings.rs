use vstd::prelude::*;

verus! {

/// Compares two string slices for equality of their characters.
///
/// Trusted: calls `<str as PartialEq>::eq`, which std documents as comparing
/// the two strings character by character; the contract claims exactly that.
#[verifier::external_body]
pub(crate) fn str_eq(a: &str, b: &str) -> (equal: bool)
    ensures
        equal == (a@ == b@),
    no_unwind
{
    a == b
}

} // verus!
