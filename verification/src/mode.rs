//! Operating mode (oversampling setting) of the sensor.

use vstd::prelude::*;

verus! {

/// Operating mode.
///
/// The mode trades conversion latency for pressure measurement precision.
/// Its ordinal (0 to 3) is the oversampling setting: it is encoded into the
/// pressure-read command and used to align the raw pressure code.
#[derive(Clone, Copy, Debug, PartialEq, Eq, Structural)]
pub enum Mode {
    /// Ultra low power mode (oversampling 0).
    UltraLowPower,
    /// Standard mode (oversampling 1).
    Standard,
    /// High resolution mode (oversampling 2).
    HighResolution,
    /// Ultra high resolution mode (oversampling 3).
    UltraHighResolution,
}

impl Mode {
    /// Oversampling ordinal of the mode: 0, 1, 2 or 3.
    pub open spec fn ordinal(self) -> int {
        match self {
            Mode::UltraLowPower => 0,
            Mode::Standard => 1,
            Mode::HighResolution => 2,
            Mode::UltraHighResolution => 3,
        }
    }

    /// Oversampling setting as a byte, equal to the mode's ordinal.
    pub fn oversampling(&self) -> (r: u8)
        ensures
            r == self.ordinal(),
    {
        match self {
            Mode::UltraLowPower => 0,
            Mode::Standard => 1,
            Mode::HighResolution => 2,
            Mode::UltraHighResolution => 3,
        }
    }

    /// Conversion wait time in milliseconds for a pressure read in this mode:
    /// 5, 8, 14 or 26, determined by the mode alone.
    pub fn delay_ms(&self) -> (r: u32)
        ensures
            r == match *self {
                Mode::UltraLowPower => 5int,
                Mode::Standard => 8int,
                Mode::HighResolution => 14int,
                Mode::UltraHighResolution => 26int,
            },
    {
        match self {
            Mode::UltraLowPower => 5,
            Mode::Standard => 8,
            Mode::HighResolution => 14,
            Mode::UltraHighResolution => 26,
        }
    }
}

impl Default for Mode {
    /// The default mode is [`Mode::Standard`].
    fn default() -> (r: Self)
        ensures
            r == Mode::Standard,
    {
        Mode::Standard
    }
}

} // verus!
