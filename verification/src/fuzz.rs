//! Fuzzing utilities: a transport and a delay that need no hardware.
//!
//! [`FuzzI2C`] answers an identity read with the valid identity byte and
//! every other read from a fixed data buffer, so a device driven by it
//! always passes initialization and then sees arbitrary bytes.

use vstd::prelude::*;

use crate::register::Register;
use crate::traits::{Bus, Delay};

verus! {

/// Fuzzing delay: does nothing.
pub struct FuzzDelay;

impl Delay for FuzzDelay {
    fn delay_ms(&mut self, _ms: u32) {
    }
}

/// Fuzzing transport.
///
/// Responds with the valid identity to an identity read; every other read
/// is served from the data buffer, padded with zeroes past its end.
pub struct FuzzI2C {
    /// Data to respond with.
    pub data: Vec<u8>,
    /// Whether the last register select was for the chip-ID register.
    pub is_id_write: bool,
}

impl FuzzI2C {
    /// Create a new fuzzing transport over the given data.
    pub fn new(data: Vec<u8>) -> (r: Self)
        ensures
            r.data == data,
            !r.is_id_write,
    {
        FuzzI2C { data, is_id_write: false }
    }
}

impl Bus for FuzzI2C {
    type BusError = ();

    fn write(&mut self, _addr: u8, reg: u8, _value: u8) -> (r: Result<(), ()>) {
        self.is_id_write = reg == Register::ChipId.value();
        Ok(())
    }

    fn write_read(&mut self, _addr: u8, reg: u8, len: usize) -> (r: Result<Vec<u8>, ()>)
        ensures
            r matches Ok(v) ==> v@.len() == len,
    {
        let id_read = reg == Register::ChipId.value();
        self.is_id_write = id_read;
        let mut out: Vec<u8> = Vec::new();
        let mut i: usize = 0;
        while i < len
            invariant
                i <= len,
                out@.len() == i,
            decreases len - i,
        {
            let b: u8 = if id_read {
                if i == 0 {
                    0x55
                } else {
                    0
                }
            } else {
                if i < self.data.len() {
                    self.data[i]
                } else {
                    0
                }
            };
            out.push(b);
            i = i + 1;
        }
        Ok(out)
    }
}

} // verus!
