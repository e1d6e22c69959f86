//! Random choices, made by the `fastrand` crate.
use vstd::prelude::*;

verus! {

/// Calls `fastrand::usize` with the range `0..len`. The choice depends on a generator's
/// state, so all that is stated is that it lies in the range; the call panics on an empty
/// range, which the precondition rules out.
#[verifier::external_body]
pub(crate) fn random_index(len: usize) -> (r: usize)
    requires
        len > 0,
    ensures
        r < len,
{
    fastrand::usize(0..len)
}

} // verus!
