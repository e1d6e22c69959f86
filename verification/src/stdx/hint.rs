//! Branch hints. They return their argument unchanged.
use vstd::prelude::*;

verus! {

/// Marks a condition as likely to hold; returns it unchanged.
#[inline(always)]
pub fn likely(b: bool) -> (r: bool)
    ensures
        r == b,
{
    b
}

/// Marks a condition as unlikely to hold; returns it unchanged.
#[inline(always)]
pub fn unlikely(b: bool) -> (r: bool)
    ensures
        r == b,
{
    b
}

} // verus!
