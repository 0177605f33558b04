//! Addition and subtraction of sizes. Both saturate: a sum stops at the largest
//! magnitude that 64 bits hold, a difference stops at zero.
use crate::size::Size;
use core::ops::{Add, AddAssign, Sub, SubAssign};
use vstd::prelude::*;
use vstd::std_specs::ops::{AddSpec, SubSpec};

verus! {

impl vstd::std_specs::ops::AddSpecImpl for Size {
    open spec fn obeys_add_spec() -> bool {
        true
    }

    open spec fn add_req(self, rhs: Size) -> bool {
        true
    }

    /// The sum of two sizes: the sum of the magnitudes, or `u64::MAX` where that
    /// sum does not fit in 64 bits.
    open spec fn add_spec(self, rhs: Size) -> Size {
        Size::from_byte(self@.saturating_add(rhs@))
    }
}

impl Add for Size {
    type Output = Size;

    /// Adds two sizes. A sum past `u64::MAX` bytes gives `u64::MAX` bytes.
    fn add(self, rhs: Size) -> (r: Size)
        ensures
            self@ + rhs@ <= u64::MAX ==> r@ == self@ + rhs@,
            self@ + rhs@ > u64::MAX ==> r@ == u64::MAX,
    {
        Size::from_byte(self.as_byte().saturating_add(rhs.as_byte()))
    }
}

impl AddAssign for Size {
    /// Adds `rhs` to `self` in place, with the result that `+` gives.
    fn add_assign(&mut self, rhs: Size)
        ensures
            *final(self) == old(self).add_spec(rhs),
            old(self)@ + rhs@ <= u64::MAX ==> final(self)@ == old(self)@ + rhs@,
            old(self)@ + rhs@ > u64::MAX ==> final(self)@ == u64::MAX,
    {
        *self = *self + rhs;
    }
}

impl vstd::std_specs::ops::SubSpecImpl for Size {
    open spec fn obeys_sub_spec() -> bool {
        true
    }

    open spec fn sub_req(self, rhs: Size) -> bool {
        true
    }

    /// The difference of two sizes: the difference of the magnitudes, or zero
    /// where `rhs` is the larger.
    open spec fn sub_spec(self, rhs: Size) -> Size {
        Size::from_byte(self@.saturating_sub(rhs@))
    }
}

impl Sub for Size {
    type Output = Size;

    /// Subtracts `rhs` from `self`. Where `rhs` is not smaller, the result is zero.
    fn sub(self, rhs: Size) -> (r: Size)
        ensures
            self@ > rhs@ ==> r@ == self@ - rhs@,
            self@ <= rhs@ ==> r@ == 0,
    {
        Size::from_byte(
            if self.as_byte() > rhs.as_byte() {
                self.as_byte() - rhs.as_byte()
            } else {
                0
            },
        )
    }
}

impl SubAssign for Size {
    /// Subtracts `rhs` from `self` in place, with the result that `-` gives.
    fn sub_assign(&mut self, rhs: Size)
        ensures
            *final(self) == old(self).sub_spec(rhs),
            old(self)@ > rhs@ ==> final(self)@ == old(self)@ - rhs@,
            old(self)@ <= rhs@ ==> final(self)@ == 0,
    {
        *self = *self - rhs;
    }
}

impl Size {
    /// The sum of two sizes built from byte counts holds the sum of the counts, as
    /// long as that sum fits in 64 bits, and `u64::MAX` bytes where it does not.
    pub proof fn lemma_add_from_byte(a: u64, b: u64)
        ensures
            a + b <= u64::MAX ==> Size::from_byte(a).add_spec(Size::from_byte(b)).as_byte() == a + b,
            a + b > u64::MAX ==> Size::from_byte(a).add_spec(Size::from_byte(b)).as_byte() == u64::MAX,
    {
        Size::lemma_from_byte_as_byte(a);
        Size::lemma_from_byte_as_byte(b);
        Size::lemma_from_byte_as_byte(a.saturating_add(b));
    }

    /// The difference of two sizes built from byte counts holds the saturating
    /// difference of the counts: `a - b` where `a` is the larger, else zero.
    pub proof fn lemma_sub_from_byte(a: u64, b: u64)
        ensures
            Size::from_byte(a).sub_spec(Size::from_byte(b)).as_byte() == a.saturating_sub(b),
            a > b ==> Size::from_byte(a).sub_spec(Size::from_byte(b)).as_byte() == a - b,
            a <= b ==> Size::from_byte(a).sub_spec(Size::from_byte(b)).as_byte() == 0,
    {
        Size::lemma_from_byte_as_byte(a);
        Size::lemma_from_byte_as_byte(b);
        Size::lemma_from_byte_as_byte(a.saturating_sub(b));
    }
}

} // verus!
