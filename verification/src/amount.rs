//! Fixed-point transfer amounts.
//!
//! An amount is a whole number of coins plus a sub-unit remainder, held
//! exactly as integers. Conversion to the ledger's smallest indivisible
//! unit is an exact integer scale multiplication; no floating-point value
//! is ever involved.

use vstd::prelude::*;

verus! {

/// Number of indivisible sub-units in one whole coin.
pub const SUBUNITS_PER_COIN: u64 = 1_000_000_000;

/// A non-negative fixed-point quantity of coins.
///
/// Well-formed values keep `subunits < SUBUNITS_PER_COIN` and a total
/// sub-unit value that fits in `u64`; the constructor establishes both.
pub struct Amount {
    whole: u64,
    subunits: u32,
}

impl Amount {
    /// Total value in sub-units, as a mathematical integer.
    pub closed spec fn total_subunits(self) -> int {
        self.whole * (SUBUNITS_PER_COIN as int) + self.subunits
    }

    /// Well-formedness: the remainder is a proper remainder and the total
    /// fits in a machine word.
    pub closed spec fn wf(self) -> bool {
        self.subunits < SUBUNITS_PER_COIN && self.total_subunits() <= u64::MAX
    }

    /// Builds an amount of `whole` coins plus `subunits` sub-units.
    ///
    /// Returns `Some` exactly when the pair denotes a representable
    /// quantity: the remainder is below the scale factor and the total
    /// sub-unit value fits in `u64`.
    pub fn new(whole: u64, subunits: u32) -> (r: Option<Amount>)
        ensures
            r is Some <==> (subunits < SUBUNITS_PER_COIN
                && whole * (SUBUNITS_PER_COIN as int) + subunits <= u64::MAX),
            r matches Some(a) ==> a.wf()
                && a.total_subunits() == whole * (SUBUNITS_PER_COIN as int) + subunits,
    {
        proof {
            assert((whole as int) * (SUBUNITS_PER_COIN as int) + (subunits as int)
                <= u128::MAX) by (nonlinear_arith)
                requires
                    whole <= u64::MAX,
                    subunits <= u32::MAX;
        }
        let total: u128 = (whole as u128) * (SUBUNITS_PER_COIN as u128) + (subunits as u128);
        if (subunits as u64) < SUBUNITS_PER_COIN && total <= u64::MAX as u128 {
            Some(Amount { whole, subunits })
        } else {
            None
        }
    }

    /// Exact conversion to the ledger's smallest unit.
    pub fn to_subunits(&self) -> (r: u64)
        requires
            self.wf(),
        ensures
            r == self.total_subunits(),
    {
        self.whole * SUBUNITS_PER_COIN + self.subunits as u64
    }
}

} // verus!
