//! Saturating 128-bit arithmetic.
//!
//! Every monetary or gas computation in the engine saturates on overflow:
//! the result clamps to `u128::MAX` instead of wrapping or aborting. The
//! standard library already gives `saturating_add` and `saturating_sub`
//! usable in specifications; this module adds the multiplication.

use vstd::prelude::*;

verus! {

/// Saturating product: `a * b`, clamped to `u128::MAX` on overflow.
pub open spec fn sat_mul(a: u128, b: u128) -> u128 {
    if a * b > u128::MAX {
        u128::MAX
    } else {
        (a * b) as u128
    }
}

/// Multiplies with saturation: the result clamps to `u128::MAX` instead
/// of wrapping when the product does not fit.
pub fn saturating_mul(a: u128, b: u128) -> (r: u128)
    ensures
        r == sat_mul(a, b),
{
    match a.checked_mul(b) {
        Some(p) => p,
        None => u128::MAX,
    }
}

} // verus!
