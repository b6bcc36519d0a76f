//! The order of amounts: that of their counts.

use vstd::prelude::*;
use vstd::std_specs::cmp::PartialOrdSpecImpl;
use std::cmp::Ordering;
use crate::amount::Amount;

verus! {

impl PartialOrd for Amount {
    /// Amounts compare as their counts do, so any two are comparable.
    fn partial_cmp(&self, other: &Amount) -> (r: Option<Ordering>) {
        if self.units < other.units {
            Some(Ordering::Less)
        } else if self.units > other.units {
            Some(Ordering::Greater)
        } else {
            Some(Ordering::Equal)
        }
    }
}

impl PartialOrdSpecImpl for Amount {
    open spec fn obeys_partial_cmp_spec() -> bool {
        true
    }

    open spec fn partial_cmp_spec(&self, other: &Amount) -> Option<Ordering> {
        if self@ < other@ {
            Some(Ordering::Less)
        } else if self@ > other@ {
            Some(Ordering::Greater)
        } else {
            Some(Ordering::Equal)
        }
    }
}

} // verus!
