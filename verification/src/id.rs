//! Device identity.

use vstd::prelude::*;

verus! {

/// Valid BMP180 device identity.
///
/// The sensor reports a single identity byte from a fixed register; the one
/// valid value is the manufacturer's constant `0x55`.
#[derive(Clone, Copy, Debug, PartialEq, Eq, Structural)]
pub enum Id {
    /// The valid identity, `0x55`.
    Valid,
}

impl Id {
    /// The byte a valid identity reads as.
    pub fn value(&self) -> (r: u8)
        ensures
            r == 0x55,
    {
        0x55
    }

    /// Whether `id` is the valid identity byte: true exactly when `id`
    /// equals `0x55`.
    pub fn is_valid(id: u8) -> (r: bool)
        ensures
            r == (id == 0x55),
    {
        id == 0x55
    }
}

} // verus!
