//! Lowercase normalization of identity strings.

use vstd::prelude::*;

verus! {

/// The lowercase form of a character sequence, as Unicode case mapping
/// defines it.  The mapping is a fixed function of the characters alone;
/// its full definition is not spelled out here.
pub uninterp spec fn lower_of(s: Seq<char>) -> Seq<char>;

/// Relies on `str::to_lowercase`: the result is the Unicode lowercase
/// mapping of the input, a function of the input characters alone.
#[verifier::external_body]
pub(crate) fn lowercase(s: &str) -> (r: String)
    ensures
        r@ == lower_of(s@),
{
    s.to_lowercase()
}

} // verus!
