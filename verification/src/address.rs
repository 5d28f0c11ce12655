//! Device bus address.

use vstd::prelude::*;

verus! {

/// Bus address of a BMP180 device.
///
/// The manufacturer's default address is `0x77`; any other address can be
/// carried by [`Address::Other`].
#[derive(Clone, Copy, Debug, PartialEq, Eq, Structural)]
pub enum Address {
    /// The default address, `0x77`.
    Default,
    /// A caller-chosen address.
    Other(u8),
}

impl Address {
    /// The address byte this value stands for.
    pub open spec fn spec_value(self) -> u8 {
        match self {
            Address::Default => 0x77,
            Address::Other(addr) => addr,
        }
    }

    /// The address byte put on the bus for this address.
    pub fn value(&self) -> (r: u8)
        ensures
            r == self.spec_value(),
    {
        match self {
            Address::Default => 0x77,
            Address::Other(addr) => *addr,
        }
    }

    /// The address that stands for the given byte: `0x77` maps to
    /// [`Address::Default`], every other byte to [`Address::Other`].
    pub fn from_value(addr: u8) -> (r: Self)
        ensures
            r.spec_value() == addr,
            r == if addr == 0x77 {
                Address::Default
            } else {
                Address::Other(addr)
            },
    {
        if addr == 0x77 {
            Address::Default
        } else {
            Address::Other(addr)
        }
    }
}

impl Default for Address {
    /// The default address is `0x77`.
    fn default() -> (r: Self)
        ensures
            r == Address::Default,
    {
        Address::Default
    }
}

} // verus!
