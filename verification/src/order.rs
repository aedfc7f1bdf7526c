//! The order of trits: `Negative < Neutral < Positive`, the order of their values.

use crate::ternary::Ternary;
use core::cmp::Ordering;
use vstd::prelude::*;
use vstd::std_specs::cmp::PartialOrdSpecImpl;

verus! {

/// The comparison of two integers.
pub open spec fn compare_ints(a: int, b: int) -> Ordering {
    if a < b {
        Ordering::Less
    } else if a == b {
        Ordering::Equal
    } else {
        Ordering::Greater
    }
}

impl PartialOrdSpecImpl for Ternary {
    open spec fn obeys_partial_cmp_spec() -> bool {
        true
    }

    open spec fn partial_cmp_spec(&self, other: &Ternary) -> Option<Ordering> {
        Some(compare_ints(self.value(), other.value()))
    }
}

impl PartialOrd for Ternary {
    fn partial_cmp(&self, other: &Ternary) -> (r: Option<Ordering>) {
        let a = self.to_i8();
        let b = other.to_i8();
        if a < b {
            Some(Ordering::Less)
        } else if a == b {
            Some(Ordering::Equal)
        } else {
            Some(Ordering::Greater)
        }
    }
}

} // verus!
