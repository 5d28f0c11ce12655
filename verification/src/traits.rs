//! Capability traits the caller supplies: bus transport and delay.
//!
//! The driver owns one value of each for the device's lifetime. A blocking
//! or a suspending transport can stand behind the same interface; the
//! driver only dictates which bytes go on the wire.

use vstd::prelude::*;

verus! {

/// A two-wire bus transport.
///
/// The driver never interprets a transport failure: the error value is
/// forwarded verbatim to the caller.
pub trait Bus {
    /// The transport's own error type.
    type BusError;

    /// Write the register-select byte `reg` and the byte `value` to the
    /// device at `addr`, as one transaction.
    fn write(&mut self, addr: u8, reg: u8, value: u8) -> (r: Result<(), Self::BusError>);

    /// Write the register-select byte `reg` to the device at `addr`, then
    /// read `len` bytes from it, as one transaction.
    ///
    /// On success the transport hands back exactly the `len` bytes read.
    fn write_read(&mut self, addr: u8, reg: u8, len: usize) -> (r: Result<
        Vec<u8>,
        Self::BusError,
    >)
        ensures
            r matches Ok(v) ==> v@.len() == len,
    ;
}

/// A millisecond sleep provider.
pub trait Delay {
    /// Sleep for at least `ms` milliseconds.
    fn delay_ms(&mut self, ms: u32);
}

} // verus!
