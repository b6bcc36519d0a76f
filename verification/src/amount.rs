//! Exact money amounts with four fractional digits.

use vstd::prelude::*;

verus! {

/// The number of fractional digits an [`Amount`] carries.
pub const SCALE: u32 = 4;

/// A signed amount of money, counted in ten-thousandths of a unit.
///
/// The view of an amount is that count: `1.5` is `15000`. Sums and
/// differences of counts are exact, so no operation rounds.
#[derive(Debug, Clone, Copy, PartialEq, Eq, Structural)]
pub struct Amount {
    pub units: i128,
}

impl View for Amount {
    type V = int;

    open spec fn view(&self) -> int {
        self.units as int
    }
}

impl Amount {
    /// The amount zero.
    pub fn zero() -> (r: Amount)
        ensures
            r@ == 0,
    {
        Amount { units: 0 }
    }

    /// The amount of `units` ten-thousandths.
    pub fn from_units(units: i128) -> (r: Amount)
        ensures
            r@ == units,
    {
        Amount { units }
    }

    /// Whether the amount is greater than zero.
    pub fn is_positive(&self) -> (r: bool)
        ensures
            r == (self@ > 0),
    {
        self.units > 0
    }

    /// The exact sum, or `None` where it leaves the range of the type.
    pub fn checked_add(self, other: Amount) -> (r: Option<Amount>)
        ensures
            r == (if i128::MIN <= self@ + other@ <= i128::MAX {
                Some(Amount { units: (self@ + other@) as i128 })
            } else {
                None
            }),
    {
        match self.units.checked_add(other.units) {
            Some(units) => Some(Amount { units }),
            None => None,
        }
    }

    /// The exact difference, or `None` where it leaves the range of the type.
    pub fn checked_sub(self, other: Amount) -> (r: Option<Amount>)
        ensures
            r == (if i128::MIN <= self@ - other@ <= i128::MAX {
                Some(Amount { units: (self@ - other@) as i128 })
            } else {
                None
            }),
    {
        match self.units.checked_sub(other.units) {
            Some(units) => Some(Amount { units }),
            None => None,
        }
    }
}

} // verus!
