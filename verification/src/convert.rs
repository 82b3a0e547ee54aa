//! Integer conversions.

use vstd::prelude::*;

verus! {

/// Widens a `u8` to a `u32` with `cast::u32`, which for a `u8` argument is a
/// promotion: every `u8` value has a `u32` of the same number, and that is
/// what it returns.
#[verifier::external_body]
pub(crate) fn widen(x: u8) -> (r: u32)
    ensures
        r == x,
{
    cast::u32(x)
}

} // verus!
