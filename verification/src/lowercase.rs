//! Comparing texts without regard to case.

use vstd::prelude::*;

verus! {

/// The text in lower case, as `str::to_lowercase` gives it.
pub uninterp spec fn lowered(s: Seq<char>) -> Seq<char>;

/// The text in lower case. What `str::to_lowercase` gives depends on the text alone: it maps
/// the characters by the Unicode property `Lowercase`, in no locale.
#[verifier::external_body]
pub(crate) fn to_lower(s: &str) -> (r: String)
    ensures
        r@ == lowered(s@),
{
    s.to_lowercase()
}

} // verus!
