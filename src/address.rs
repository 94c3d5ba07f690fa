//! 20-byte account and token addresses.
use vstd::prelude::*;

verus! {

/// A 160-bit address: its four most significant bytes in `hi`, the sixteen
/// others in `lo`, both read big-endian.
#[derive(Clone, Copy, Debug, PartialEq, Eq, Structural)]
pub struct Address {
    pub hi: u32,
    pub lo: u128,
}

impl Address {
    /// The zero address, which names no token.
    pub open spec fn spec_zero() -> Self {
        Address { hi: 0, lo: 0 }
    }

    pub fn new(hi: u32, lo: u128) -> (r: Self)
        ensures
            r.hi == hi,
            r.lo == lo,
    {
        Address { hi, lo }
    }

    pub fn zero() -> (r: Self)
        ensures
            r == Self::spec_zero(),
    {
        Address { hi: 0, lo: 0 }
    }

    pub fn is_zero(&self) -> (r: bool)
        ensures
            r == (*self == Self::spec_zero()),
    {
        self.hi == 0 && self.lo == 0
    }
}

} // verus!
