//! A 16-bit unsigned integer whose addition saturates at the maximum
//! value instead of overflowing.

use vstd::prelude::*;

verus! {

/// A `u16` with saturating addition.
#[derive(Clone, Copy, Debug, PartialEq, Eq, Structural)]
pub struct SaturatingU16(pub u16);

impl From<u16> for SaturatingU16 {
    /// Wraps the value unchanged.
    fn from(value: u16) -> (r: Self) {
        SaturatingU16(value)
    }
}

impl vstd::std_specs::convert::FromSpecImpl<u16> for SaturatingU16 {
    open spec fn obeys_from_spec() -> bool {
        true
    }

    open spec fn from_spec(v: u16) -> Self {
        SaturatingU16(v)
    }
}

impl From<u8> for SaturatingU16 {
    /// Widens the value unchanged.
    fn from(value: u8) -> (r: Self) {
        SaturatingU16(value as u16)
    }
}

impl vstd::std_specs::convert::FromSpecImpl<u8> for SaturatingU16 {
    open spec fn obeys_from_spec() -> bool {
        true
    }

    open spec fn from_spec(v: u8) -> Self {
        SaturatingU16(v as u16)
    }
}

impl SaturatingU16 {
    /// The sum, saturating at `u16::MAX`.
    pub fn add(self, rhs: SaturatingU16) -> (r: SaturatingU16)
        ensures
            self.0 + rhs.0 <= u16::MAX ==> r.0 == self.0 + rhs.0,
            self.0 + rhs.0 > u16::MAX ==> r.0 == u16::MAX,
    {
        SaturatingU16(self.0.saturating_add(rhs.0))
    }

    /// The plain value.
    pub fn value(self) -> (v: u16)
        ensures
            v == self.0,
    {
        self.0
    }
}

} // verus!
