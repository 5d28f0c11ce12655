//! Error taxonomy of the driver.

use vstd::prelude::*;

verus! {

/// Error of a BMP180 operation.
#[derive(Debug, Clone, PartialEq, Eq)]
pub enum BMP180Error<E> {
    /// The bus transport failed; the transport's own error is forwarded
    /// verbatim, never retried.
    I2C(E),
    /// The identity byte read during initialization was not the valid
    /// constant; carries the observed byte. Only initialization can
    /// produce it.
    InvalidId(u8),
    /// A compensation division would divide by zero, or an intermediate
    /// left its fixed-width integer domain. Only update and read
    /// operations can produce it; it is surfaced rather than clamped.
    Arithmetic,
}

} // verus!
