//! The tally engine's weight conversion.
//!
//! A vote weight is a balance reported by the weight oracle, narrowed to the
//! engine's 8-bit weight representation. The narrowing keeps only the low
//! 8 bits, so it silently wraps for balances of 256 and above: a documented
//! correctness risk of the weighting scheme, preserved here as an explicit
//! conversion rather than an implicit cast.

use vstd::prelude::*;

use crate::types::Balance;

verus! {

/// The 8-bit weight of an oracle balance: its value modulo 256.
pub open spec fn spec_weight(balance: Balance) -> u8 {
    (balance % 256) as u8
}

/// Narrows an oracle balance to the 8-bit weight used for comparison.
///
/// Balances of 256 and above wrap: only the low 8 bits count.
pub fn weight_of_balance(balance: Balance) -> (w: u8)
    ensures
        w == spec_weight(balance),
{
    (balance % 256) as u8
}

} // verus!
