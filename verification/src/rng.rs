//! The one tie to the random number generator.
use vstd::prelude::*;

verus! {

/// Relies on rand::random_range: a value drawn from `lo..=hi` lies in that
/// range, and the call panics only on an empty range, which the precondition
/// rules out. Nothing more is assumed: the draw may differ between two calls
/// on the same arguments.
#[verifier::external_body]
pub(crate) fn random_coord(lo: u16, hi: u16) -> (r: u16)
    requires
        lo <= hi,
    ensures
        lo <= r <= hi,
{
    rand::random_range(lo..=hi)
}

} // verus!
