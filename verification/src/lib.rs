//! A byte quantity with unit conversions and saturating arithmetic.
//!
//! [`Size`] wraps one unsigned 64-bit magnitude, a count of bytes. It is built from
//! bytes, kilobytes, megabytes, gigabytes, petabytes or exabytes, read back in any
//! of those units, added and subtracted with saturation, compared by magnitude, and
//! carried between programs as its plain byte count.
pub mod arith;
pub mod convert;
pub mod order;
pub mod size;

pub use size::{Size, EB, GB, KB, MB, PB};
