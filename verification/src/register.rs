//! Register map of the sensor: the fixed part of the wire contract.

use vstd::prelude::*;

verus! {

/// Registers and command codes of the BMP180.
#[derive(Clone, Copy, Debug, PartialEq, Eq, Structural)]
pub enum Register {
    /// Chip-ID register, `0xD0`.
    ChipId,
    /// First calibration register, `0xAA`; the calibration block is 22 bytes.
    CalibrationAc1,
    /// Control register, `0xF4`.
    Control,
    /// Temperature/pressure data register, `0xF6`.
    TempPressureData,
    /// Temperature-read command, `0x2E`.
    ReadTempCmd,
    /// Pressure-read command base, `0x34`; the oversampling setting is
    /// encoded in its upper bits.
    ReadPressureCmd,
}

impl Register {
    /// The byte of this register or command.
    pub open spec fn spec_value(self) -> u8 {
        match self {
            Register::ChipId => 0xD0,
            Register::CalibrationAc1 => 0xAA,
            Register::Control => 0xF4,
            Register::TempPressureData => 0xF6,
            Register::ReadTempCmd => 0x2E,
            Register::ReadPressureCmd => 0x34,
        }
    }

    /// The byte written on the bus for this register or command.
    pub fn value(&self) -> (r: u8)
        ensures
            r == self.spec_value(),
    {
        match self {
            Register::ChipId => 0xD0,
            Register::CalibrationAc1 => 0xAA,
            Register::Control => 0xF4,
            Register::TempPressureData => 0xF6,
            Register::ReadTempCmd => 0x2E,
            Register::ReadPressureCmd => 0x34,
        }
    }
}

} // verus!
