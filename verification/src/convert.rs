//! Conversion of plain integers to sizes.
//!
//! Every unsigned integer type that fits in the 64-bit magnitude without loss
//! converts to the size of that many bytes.
use crate::size::Size;
use vstd::prelude::*;

verus! {

impl vstd::std_specs::convert::FromSpecImpl<u64> for Size {
    open spec fn obeys_from_spec() -> bool {
        true
    }

    open spec fn from_spec(value: u64) -> Size {
        Size::from_byte(value)
    }
}

impl From<u64> for Size {
    /// The size of `value` bytes.
    fn from(value: u64) -> (r: Size)
        ensures
            r@ == value,
    {
        Size::from_byte(value)
    }
}

impl vstd::std_specs::convert::FromSpecImpl<u32> for Size {
    open spec fn obeys_from_spec() -> bool {
        true
    }

    open spec fn from_spec(value: u32) -> Size {
        Size::from_byte(value as u64)
    }
}

impl From<u32> for Size {
    /// The size of `value` bytes.
    fn from(value: u32) -> (r: Size)
        ensures
            r@ == value,
    {
        Size::from_byte(value as u64)
    }
}

impl vstd::std_specs::convert::FromSpecImpl<u16> for Size {
    open spec fn obeys_from_spec() -> bool {
        true
    }

    open spec fn from_spec(value: u16) -> Size {
        Size::from_byte(value as u64)
    }
}

impl From<u16> for Size {
    /// The size of `value` bytes.
    fn from(value: u16) -> (r: Size)
        ensures
            r@ == value,
    {
        Size::from_byte(value as u64)
    }
}

impl vstd::std_specs::convert::FromSpecImpl<u8> for Size {
    open spec fn obeys_from_spec() -> bool {
        true
    }

    open spec fn from_spec(value: u8) -> Size {
        Size::from_byte(value as u64)
    }
}

impl From<u8> for Size {
    /// The size of `value` bytes.
    fn from(value: u8) -> (r: Size)
        ensures
            r@ == value,
    {
        Size::from_byte(value as u64)
    }
}

} // verus!
