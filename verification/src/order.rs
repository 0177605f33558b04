//! The order of sizes: the order of their magnitudes.
use crate::size::Size;
use core::cmp::Ordering;
use vstd::prelude::*;
use vstd::std_specs::cmp::PartialOrdSpec;

verus! {

impl vstd::std_specs::cmp::PartialOrdSpecImpl for Size {
    open spec fn obeys_partial_cmp_spec() -> bool {
        true
    }

    /// Sizes compare as their magnitudes do, so any two of them are comparable.
    open spec fn partial_cmp_spec(&self, other: &Size) -> Option<Ordering> {
        if self@ < other@ {
            Some(Ordering::Less)
        } else if self@ > other@ {
            Some(Ordering::Greater)
        } else {
            Some(Ordering::Equal)
        }
    }
}

impl PartialOrd for Size {
    /// Compares two sizes by magnitude. The result is never `None`.
    fn partial_cmp(&self, other: &Size) -> (r: Option<Ordering>)
        ensures
            r == Some(Ordering::Less) <==> self@ < other@,
            r == Some(Ordering::Equal) <==> self@ == other@,
            r == Some(Ordering::Greater) <==> self@ > other@,
    {
        let a: u64 = self.as_byte();
        let b: u64 = other.as_byte();
        if a < b {
            Some(Ordering::Less)
        } else if a > b {
            Some(Ordering::Greater)
        } else {
            Some(Ordering::Equal)
        }
    }
}

impl Size {
    /// The order agrees with equality and is total: two sizes compare as equal
    /// exactly when they are equal, one is less exactly when the other is
    /// greater, and any two sizes are comparable.
    pub proof fn lemma_order_agrees_with_equality(a: Size, b: Size)
        ensures
            a.partial_cmp_spec(&b) == Some(Ordering::Equal) <==> a == b,
            a.partial_cmp_spec(&b) == Some(Ordering::Less) <==> b.partial_cmp_spec(&a) == Some(
                Ordering::Greater,
            ),
            a.partial_cmp_spec(&b) is Some,
    {
        Size::lemma_equal_by_magnitude(a, b);
    }
}

} // verus!
