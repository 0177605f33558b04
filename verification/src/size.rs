//! The `Size` type: a byte count, its unit ladder, constructors, accessors and setters.
use vstd::prelude::*;

verus! {

/// Bytes in a kilobyte, the first rung of the unit ladder.
///
/// The ladder is binary and strict: every rung holds 1024 of the rung below it, and the
/// constructors and the accessors of a unit use the same rung. It has five rungs and no
/// terabyte, so a petabyte here is 1024 gigabytes.
pub const KB: u64 = 1024;

/// Bytes in a megabyte: 1024 kilobytes.
pub const MB: u64 = 1_048_576;

/// Bytes in a gigabyte: 1024 megabytes.
pub const GB: u64 = 1_073_741_824;

/// Bytes in a petabyte: 1024 gigabytes.
pub const PB: u64 = 1_099_511_627_776;

/// Bytes in an exabyte: 1024 petabytes.
pub const EB: u64 = 1_125_899_906_842_624;

/// A quantity of bytes.
///
/// The magnitude is the only thing stored; every unit reading is derived from it.
/// In contracts a size is seen through its view, the magnitude in bytes.
#[derive(Debug, Copy, Clone, PartialEq, Eq, Hash, Structural)]
pub struct Size {
    _byte: u64,
}

impl View for Size {
    type V = u64;

    /// The magnitude, in bytes.
    closed spec fn view(&self) -> u64 {
        self._byte
    }
}

impl Size {
    /// The size of `value` bytes, for use in contracts and proofs.
    pub closed spec fn spec_from_byte(value: u64) -> Size {
        Size { _byte: value }
    }

    /// The size of `value` bytes.
    #[verifier::when_used_as_spec(spec_from_byte)]
    pub fn from_byte(value: u64) -> (r: Self)
        ensures
            r@ == value,
        returns
            Self::spec_from_byte(value),
    {
        Self { _byte: value }
    }

    /// The size of `value` kilobytes. The byte count has to fit in 64 bits.
    #[verifier::allow_in_spec]
    pub fn from_kb(value: u64) -> (r: Self)
        requires
            value * KB <= u64::MAX,
        ensures
            r@ == value * KB,
        returns
            Self::from_byte((value * KB) as u64),
    {
        Self { _byte: value * KB }
    }

    /// The size of `value` megabytes. The byte count has to fit in 64 bits.
    #[verifier::allow_in_spec]
    pub fn from_mb(value: u64) -> (r: Self)
        requires
            value * MB <= u64::MAX,
        ensures
            r@ == value * MB,
        returns
            Self::from_byte((value * MB) as u64),
    {
        Self { _byte: value * MB }
    }

    /// The size of `value` gigabytes. The byte count has to fit in 64 bits.
    #[verifier::allow_in_spec]
    pub fn from_gb(value: u64) -> (r: Self)
        requires
            value * GB <= u64::MAX,
        ensures
            r@ == value * GB,
        returns
            Self::from_byte((value * GB) as u64),
    {
        Self { _byte: value * GB }
    }

    /// The size of `value` petabytes. The byte count has to fit in 64 bits.
    #[verifier::allow_in_spec]
    pub fn from_pb(value: u64) -> (r: Self)
        requires
            value * PB <= u64::MAX,
        ensures
            r@ == value * PB,
        returns
            Self::from_byte((value * PB) as u64),
    {
        Self { _byte: value * PB }
    }

    /// The size of `value` exabytes. The byte count has to fit in 64 bits.
    #[verifier::allow_in_spec]
    pub fn from_eb(value: u64) -> (r: Self)
        requires
            value * EB <= u64::MAX,
        ensures
            r@ == value * EB,
        returns
            Self::from_byte((value * EB) as u64),
    {
        Self { _byte: value * EB }
    }

    /// The exact magnitude, in bytes.
    #[verifier::allow_in_spec]
    pub fn as_byte(&self) -> u64
        returns
            self@,
    {
        self._byte
    }

    /// Whole kilobytes in the size; a remainder is dropped.
    #[verifier::allow_in_spec]
    pub fn as_kb(&self) -> u64
        returns
            self@ / KB,
    {
        self.as_byte() / 1024
    }

    /// Whole megabytes in the size; a remainder is dropped.
    #[verifier::allow_in_spec]
    pub fn as_mb(&self) -> (r: u64)
        ensures
            r == self.as_kb() / 1024,
        returns
            self@ / MB,
    {
        self.as_kb() / 1024
    }

    /// Whole gigabytes in the size; a remainder is dropped.
    #[verifier::allow_in_spec]
    pub fn as_gb(&self) -> (r: u64)
        ensures
            r == self.as_mb() / 1024,
        returns
            self@ / GB,
    {
        self.as_mb() / 1024
    }

    /// Whole petabytes in the size; a remainder is dropped.
    #[verifier::allow_in_spec]
    pub fn as_pb(&self) -> (r: u64)
        ensures
            r == self.as_gb() / 1024,
        returns
            self@ / PB,
    {
        self.as_gb() / 1024
    }

    /// Whole exabytes in the size; a remainder is dropped.
    #[verifier::allow_in_spec]
    pub fn as_eb(&self) -> (r: u64)
        ensures
            r == self.as_pb() / 1024,
        returns
            self@ / EB,
    {
        self.as_pb() / 1024
    }

    /// Overwrites the magnitude with `value` bytes.
    pub fn set_byte(&mut self, value: u64)
        ensures
            final(self)@ == value,
    {
        self._byte = value;
    }

    /// Sets the magnitude to zero.
    pub fn bzero(&mut self)
        ensures
            final(self)@ == 0,
    {
        self._byte = 0;
    }
}

impl Default for Size {
    /// The empty size.
    fn default() -> (r: Size)
        ensures
            r@ == 0,
    {
        Size { _byte: 0 }
    }
}

/// Every unit holds 1024 of the unit below it.
pub proof fn lemma_unit_ladder()
    ensures
        KB == 1024,
        MB == 1024 * KB,
        GB == 1024 * MB,
        PB == 1024 * GB,
        EB == 1024 * PB,
{
}

impl Size {
    /// Two sizes are equal exactly when their magnitudes are equal.
    pub proof fn lemma_equal_by_magnitude(a: Size, b: Size)
        ensures
            a == b <==> a@ == b@,
    {
    }

    /// A size built from a byte count reports that byte count.
    pub proof fn lemma_from_byte_as_byte(value: u64)
        ensures
            Size::from_byte(value).as_byte() == value,
    {
    }

    /// A size is carried as its byte count, one unsigned 64-bit integer: building
    /// a size from the byte count of `s` gives `s` back.
    pub proof fn lemma_as_byte_from_byte(s: Size)
        ensures
            Size::from_byte(s.as_byte()) == s,
    {
    }

    /// A size built from kilobytes reads back as that many kilobytes, and holds
    /// 1024 bytes for each.
    pub proof fn lemma_from_kb_as_kb(value: u64)
        requires
            value * KB <= u64::MAX,
        ensures
            Size::from_kb(value).as_kb() == value,
            Size::from_kb(value).as_byte() == value * 1024,
    {
    }

    /// A size built from megabytes reads back as that many megabytes, and holds
    /// 1024 kilobytes for each.
    pub proof fn lemma_from_mb_as_mb(value: u64)
        requires
            value * MB <= u64::MAX,
        ensures
            Size::from_mb(value).as_mb() == value,
            Size::from_mb(value).as_kb() == value * 1024,
            Size::from_mb(value).as_byte() == value * 1024 * 1024,
    {
    }

    /// A size built from gigabytes reads back as that many gigabytes, and holds
    /// 1024 megabytes for each.
    pub proof fn lemma_from_gb_as_gb(value: u64)
        requires
            value * GB <= u64::MAX,
        ensures
            Size::from_gb(value).as_gb() == value,
            Size::from_gb(value).as_mb() == value * 1024,
            Size::from_gb(value).as_byte() == value * 1024 * 1024 * 1024,
    {
    }

    /// A size built from petabytes reads back as that many petabytes, and holds
    /// 1024 gigabytes for each.
    pub proof fn lemma_from_pb_as_pb(value: u64)
        requires
            value * PB <= u64::MAX,
        ensures
            Size::from_pb(value).as_pb() == value,
            Size::from_pb(value).as_gb() == value * 1024,
            Size::from_pb(value).as_byte() == value * 1024 * 1024 * 1024 * 1024,
    {
    }

    /// A size built from exabytes reads back as that many exabytes, and holds
    /// 1024 petabytes for each.
    pub proof fn lemma_from_eb_as_eb(value: u64)
        requires
            value * EB <= u64::MAX,
        ensures
            Size::from_eb(value).as_eb() == value,
            Size::from_eb(value).as_pb() == value * 1024,
            Size::from_eb(value).as_byte() == value * 1024 * 1024 * 1024 * 1024 * 1024,
    {
    }
}

} // verus!
