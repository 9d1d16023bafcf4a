//! Account addresses and 32-byte identifiers as plain words.

use vstd::prelude::*;

verus! {

/// A 160-bit account address: `hi` holds the first four bytes, `mid` the next
/// eight and `lo` the last eight, each big-endian.
#[derive(Clone, Copy, Debug, PartialEq, Eq, Structural, Hash)]
pub struct Address {
    pub hi: u32,
    pub mid: u64,
    pub lo: u64,
}

impl Address {
    /// The null address.
    pub open spec fn null() -> Address {
        Address { hi: 0, mid: 0, lo: 0 }
    }

    /// The null address.
    pub fn zero() -> (r: Address)
        ensures
            r == Address::null(),
    {
        Address { hi: 0, mid: 0, lo: 0 }
    }

    /// Whether this is the null address.
    pub fn is_zero(&self) -> (r: bool)
        ensures
            r == (*self == Address::null()),
    {
        self.hi == 0 && self.mid == 0 && self.lo == 0
    }
}

/// A 32-byte word, such as the hash that names a market ("ETH/USD"):
/// `w0` holds the first eight bytes, big-endian, and so on.
#[derive(Clone, Copy, Debug, PartialEq, Eq, Structural, Hash)]
pub struct Bytes32 {
    pub w0: u64,
    pub w1: u64,
    pub w2: u64,
    pub w3: u64,
}

} // verus!
