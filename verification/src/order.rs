//! The order of the signals, which is the order of their numbers.

use crate::signal::Signal;
use std::cmp::Ordering;
use vstd::prelude::*;
use vstd::std_specs::cmp::{PartialOrdSpec, PartialOrdSpecImpl};

verus! {

impl PartialOrd for Signal {
    /// Compares two signals by their numbers.
    fn partial_cmp(&self, other: &Signal) -> (r: Option<Ordering>) {
        let a = self.to_i32();
        let b = other.to_i32();
        if a < b {
            Some(Ordering::Less)
        } else if a > b {
            Some(Ordering::Greater)
        } else {
            Some(Ordering::Equal)
        }
    }
}

impl PartialOrdSpecImpl for Signal {
    open spec fn obeys_partial_cmp_spec() -> bool {
        true
    }

    /// One signal comes before another where its number is the smaller one.
    open spec fn partial_cmp_spec(&self, other: &Signal) -> Option<Ordering> {
        if self.code() < other.code() {
            Some(Ordering::Less)
        } else if self.code() > other.code() {
            Some(Ordering::Greater)
        } else {
            Some(Ordering::Equal)
        }
    }
}

/// Of two signals one comes before the other, or they are the same signal:
/// the order of the signals is total, as that of their numbers is.
pub proof fn lemma_order_is_total(a: Signal, b: Signal)
    ensures
        PartialOrdSpec::partial_cmp_spec(&a, &b) == Some(Ordering::Less) <==> a.code() < b.code(),
        PartialOrdSpec::partial_cmp_spec(&a, &b) == Some(Ordering::Greater) <==> b.code() < a.code(),
        PartialOrdSpec::partial_cmp_spec(&a, &b) == Some(Ordering::Equal) <==> a == b,
{
}

} // verus!
