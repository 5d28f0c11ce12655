//! Device lifecycle and register protocol.
//!
//! An [`UninitBMP180`] holds address, mode, transport and delay. Initializing
//! it checks the device identity and reads the calibration block, consuming
//! the uninitialized value and producing an operational [`BMP180`]: no
//! partially initialized state is observable, and a read before calibration
//! is structurally impossible.

use vstd::prelude::*;

use crate::address::Address;
use crate::calibration::{be_i16, be_i16_of, Calibration};
use crate::compensation::{
    b5_defined, compute_b5, compute_pressure, compute_temperature, is_compensated_pressure,
    is_compensated_reading, is_compensated_temperature, pressure_defined, spec_b5,
};
use crate::error::BMP180Error;
use crate::id::Id;
use crate::mode::Mode;
use crate::register::Register;
use crate::traits::{Bus, Delay};

verus! {

/// The divisor aligning a raw pressure read to its oversampling setting:
/// 2 to the power of 8 minus the mode ordinal.
pub open spec fn raw_pressure_shift(m: int) -> int
    recommends
        0 <= m <= 3,
{
    if m == 0 {
        256
    } else if m == 1 {
        128
    } else if m == 2 {
        64
    } else {
        32
    }
}

/// The raw temperature code encoded by the two data-register bytes: a
/// big-endian signed 16-bit value.
pub open spec fn spec_raw_temperature(b0: u8, b1: u8) -> int {
    be_i16(b0, b1)
}

/// The raw pressure code encoded by the three data-register bytes: a
/// big-endian 24-bit value, right-aligned for the oversampling ordinal `m`.
pub open spec fn spec_raw_pressure(b0: u8, b1: u8, b2: u8, m: int) -> int
    recommends
        0 <= m <= 3,
{
    (b0 * 0x10000 + b1 * 0x100 + b2) / raw_pressure_shift(m)
}

/// Decode the two data-register bytes of a temperature read.
pub fn decode_raw_temperature(b0: u8, b1: u8) -> (r: i16)
    ensures
        r == spec_raw_temperature(b0, b1),
{
    be_i16_of(b0, b1)
}

/// Decode the three data-register bytes of a pressure read in the given
/// mode.
pub fn decode_raw_pressure(b0: u8, b1: u8, b2: u8, mode: Mode) -> (r: i32)
    ensures
        r == spec_raw_pressure(b0, b1, b2, mode.ordinal()),
        0 <= r < 0x100_0000,
{
    let raw: u32 = (b0 as u32) * 0x10000 + (b1 as u32) * 0x100 + (b2 as u32);
    let aligned = match mode {
        Mode::UltraLowPower => raw / 256,
        Mode::Standard => raw / 128,
        Mode::HighResolution => raw / 64,
        Mode::UltraHighResolution => raw / 32,
    };
    aligned as i32
}

/// Builder for an uninitialized BMP180 device, for using default values.
pub struct UninitBMP180Builder<B, D> {
    /// The device being built.
    pub inner: UninitBMP180<B, D>,
}

/// Uninitialized BMP180 device: address, mode, transport and delay, before
/// the identity check and calibration read.
pub struct UninitBMP180<B, D> {
    /// Device bus address.
    pub addr: Address,
    /// Device operating mode.
    pub mode: Mode,
    /// Device bus transport.
    pub i2c: B,
    /// Delay provider.
    pub delay: D,
}

/// Operational BMP180 device: identity checked, calibration read, holding
/// the last computed temperature and pressure.
pub struct BMP180<B, D> {
    /// Device bus address.
    pub addr: Address,
    /// Device operating mode.
    pub mode: Mode,
    /// Calibration coefficients, immutable once read.
    pub calibration: Calibration,
    /// Last computed temperature, in tenths of a degree Celsius; zero
    /// before the first update.
    pub temperature: i32,
    /// Last computed pressure, in Pa; zero before the first update.
    pub pressure: i32,
    /// Device bus transport.
    pub i2c: B,
    /// Delay provider.
    pub delay: D,
}

impl<B: Bus, D: Delay> UninitBMP180Builder<B, D> {
    /// Create a new builder with the default address and mode.
    pub fn new(i2c: B, delay: D) -> (r: Self)
        ensures
            r.inner.addr == Address::Default,
            r.inner.mode == Mode::Standard,
            r.inner.i2c == i2c,
            r.inner.delay == delay,
    {
        UninitBMP180Builder {
            inner: UninitBMP180 { addr: Address::Default, mode: Mode::Standard, i2c, delay },
        }
    }

    /// Set the device address.
    pub fn addr(self, addr: Address) -> (r: Self)
        ensures
            r.inner.addr == addr,
            r.inner.mode == self.inner.mode,
            r.inner.i2c == self.inner.i2c,
            r.inner.delay == self.inner.delay,
    {
        UninitBMP180Builder {
            inner: UninitBMP180 {
                addr,
                mode: self.inner.mode,
                i2c: self.inner.i2c,
                delay: self.inner.delay,
            },
        }
    }

    /// Set the device mode.
    pub fn mode(self, mode: Mode) -> (r: Self)
        ensures
            r.inner.addr == self.inner.addr,
            r.inner.mode == mode,
            r.inner.i2c == self.inner.i2c,
            r.inner.delay == self.inner.delay,
    {
        UninitBMP180Builder {
            inner: UninitBMP180 {
                addr: self.inner.addr,
                mode,
                i2c: self.inner.i2c,
                delay: self.inner.delay,
            },
        }
    }

    /// Build the uninitialized device.
    pub fn build(self) -> (r: UninitBMP180<B, D>)
        ensures
            r == self.inner,
    {
        self.inner
    }
}

impl<B: Bus, D: Delay> UninitBMP180<B, D> {
    /// Create a new uninitialized device.
    pub fn new(addr: Address, mode: Mode, i2c: B, delay: D) -> (r: Self)
        ensures
            r.addr == addr,
            r.mode == mode,
            r.i2c == i2c,
            r.delay == delay,
    {
        UninitBMP180 { addr, mode, i2c, delay }
    }

    /// Create a new builder.
    pub fn builder(i2c: B, delay: D) -> (r: UninitBMP180Builder<B, D>)
        ensures
            r.inner.addr == Address::Default,
            r.inner.mode == Mode::Standard,
            r.inner.i2c == i2c,
            r.inner.delay == delay,
    {
        UninitBMP180Builder::new(i2c, delay)
    }

    /// Split the uninitialized device into its parts.
    pub fn into_parts(self) -> (r: (Address, Mode, B, D))
        ensures
            r == (self.addr, self.mode, self.i2c, self.delay),
    {
        (self.addr, self.mode, self.i2c, self.delay)
    }

    /// Device bus address as a byte.
    pub fn addr_u8(&self) -> (r: u8)
        ensures
            r == self.addr.spec_value(),
    {
        self.addr.value()
    }

    /// Whether `id` is the valid device identity byte.
    pub fn validate_id(id: u8) -> (r: bool)
        ensures
            r == (id == 0x55),
    {
        Id::is_valid(id)
    }

    /// Read the device identity byte.
    ///
    /// Only the first byte is meaningful, but the read buffer of the
    /// transaction is sized for two.
    fn read_id(&mut self) -> (r: Result<u8, B::BusError>)
        ensures
            final(self).addr == old(self).addr,
            final(self).mode == old(self).mode,
    {
        let addr = self.addr.value();
        match self.i2c.write_read(addr, Register::ChipId.value(), 2) {
            Ok(v) => Ok(v[0]),
            Err(e) => Err(e),
        }
    }

    /// Read and parse the 22-byte calibration block.
    fn read_calibration(&mut self) -> (r: Result<Calibration, B::BusError>)
        ensures
            final(self).addr == old(self).addr,
            final(self).mode == old(self).mode,
    {
        let addr = self.addr.value();
        let v = match self.i2c.write_read(addr, Register::CalibrationAc1.value(), 22) {
            Ok(v) => v,
            Err(e) => {
                return Err(e);
            },
        };
        let block: [u8; 22] = [
            v[0],
            v[1],
            v[2],
            v[3],
            v[4],
            v[5],
            v[6],
            v[7],
            v[8],
            v[9],
            v[10],
            v[11],
            v[12],
            v[13],
            v[14],
            v[15],
            v[16],
            v[17],
            v[18],
            v[19],
            v[20],
            v[21],
        ];
        Ok(Calibration::from_slice(&block))
    }

    /// Initialize the device: check its identity, read its calibration,
    /// and produce the operational device.
    ///
    /// Consumes the uninitialized value whether it succeeds or fails; a
    /// caller that wants to retry reconstructs from configuration. An
    /// identity byte other than the valid constant fails with
    /// [`BMP180Error::InvalidId`] carrying the observed byte, before any
    /// calibration read. Transport failures are forwarded immediately.
    /// No arithmetic is performed, so no arithmetic error is possible here.
    pub fn initialize(self) -> (r: Result<BMP180<B, D>, BMP180Error<B::BusError>>)
        ensures
            r matches Ok(dev) ==> {
                &&& dev.addr == self.addr
                &&& dev.mode == self.mode
                &&& dev.temperature == 0
                &&& dev.pressure == 0
            },
            r matches Err(e) ==> !(e is Arithmetic),
            r matches Err(e) ==> (e matches BMP180Error::InvalidId(b) ==> b != 0x55),
    {
        let mut dev = self;
        let id = match dev.read_id() {
            Ok(id) => id,
            Err(e) => {
                return Err(BMP180Error::I2C(e));
            },
        };
        if !Self::validate_id(id) {
            return Err(BMP180Error::InvalidId(id));
        }
        let calibration = match dev.read_calibration() {
            Ok(c) => c,
            Err(e) => {
                return Err(BMP180Error::I2C(e));
            },
        };
        Ok(
            BMP180 {
                addr: dev.addr,
                mode: dev.mode,
                calibration,
                temperature: 0,
                pressure: 0,
                i2c: dev.i2c,
                delay: dev.delay,
            },
        )
    }
}

impl<B: Bus, D: Delay> BMP180<B, D> {
    /// Device bus address.
    pub fn addr(&self) -> (r: Address)
        ensures
            r == self.addr,
    {
        self.addr
    }

    /// Device bus address as a byte.
    pub fn addr_u8(&self) -> (r: u8)
        ensures
            r == self.addr.spec_value(),
    {
        self.addr.value()
    }

    /// Device operating mode.
    pub fn mode(&self) -> (r: Mode)
        ensures
            r == self.mode,
    {
        self.mode
    }

    /// Device calibration data.
    pub fn calibration(&self) -> (r: &Calibration)
        ensures
            r == self.calibration,
    {
        &self.calibration
    }

    /// Last computed temperature, in tenths of a degree Celsius.
    pub fn temperature(&self) -> (r: i32)
        ensures
            r == self.temperature,
    {
        self.temperature
    }

    /// Last computed pressure, in Pa.
    pub fn pressure(&self) -> (r: i32)
        ensures
            r == self.pressure,
    {
        self.pressure
    }

    /// Compute the B5 intermediate from a raw temperature code, under this
    /// device's calibration.
    pub fn compute_b5(&self, raw_temperature: i16) -> (r: Option<i32>)
        ensures
            r is Some <==> b5_defined(self.calibration, raw_temperature as int),
            r matches Some(b5) ==> b5 == spec_b5(self.calibration, raw_temperature as int),
    {
        compute_b5(&self.calibration, raw_temperature)
    }

    /// Read the raw temperature code: issue the temperature conversion
    /// command, wait the fixed 5 ms, and read the 2-byte result.
    fn read_raw_temperature(&mut self) -> (r: Result<i16, BMP180Error<B::BusError>>)
        ensures
            final(self).addr == old(self).addr,
            final(self).mode == old(self).mode,
            final(self).calibration == old(self).calibration,
            final(self).temperature == old(self).temperature,
            final(self).pressure == old(self).pressure,
            r matches Err(e) ==> e is I2C,
    {
        let addr = self.addr.value();
        match self.i2c.write(addr, Register::Control.value(), Register::ReadTempCmd.value()) {
            Ok(u) => u,
            Err(e) => {
                return Err(BMP180Error::I2C(e));
            },
        }
        self.delay.delay_ms(5);
        let v = match self.i2c.write_read(addr, Register::TempPressureData.value(), 2) {
            Ok(v) => v,
            Err(e) => {
                return Err(BMP180Error::I2C(e));
            },
        };
        Ok(decode_raw_temperature(v[0], v[1]))
    }

    /// Read the raw pressure code: issue the pressure conversion command
    /// with the oversampling setting encoded in its upper bits, wait the
    /// mode's conversion time, read the 3-byte result and align it.
    fn read_raw_pressure(&mut self) -> (r: Result<i32, BMP180Error<B::BusError>>)
        ensures
            final(self).addr == old(self).addr,
            final(self).mode == old(self).mode,
            final(self).calibration == old(self).calibration,
            final(self).temperature == old(self).temperature,
            final(self).pressure == old(self).pressure,
            r matches Err(e) ==> e is I2C,
            r matches Ok(up) ==> 0 <= up < 0x100_0000,
    {
        let addr = self.addr.value();
        let command = Register::ReadPressureCmd.value() + self.mode.oversampling() * 64;
        match self.i2c.write(addr, Register::Control.value(), command) {
            Ok(u) => u,
            Err(e) => {
                return Err(BMP180Error::I2C(e));
            },
        }
        let wait = self.mode.delay_ms();
        self.delay.delay_ms(wait);
        let v = match self.i2c.write_read(addr, Register::TempPressureData.value(), 3) {
            Ok(v) => v,
            Err(e) => {
                return Err(BMP180Error::I2C(e));
            },
        };
        Ok(decode_raw_pressure(v[0], v[1], v[2], self.mode))
    }

    /// Read a raw temperature and update the stored temperature from it.
    ///
    /// On failure nothing stored changes: a transport error is forwarded,
    /// and an arithmetic failure of the compensation is reported as
    /// [`BMP180Error::Arithmetic`].
    pub fn update_temperature(&mut self) -> (r: Result<(), BMP180Error<B::BusError>>)
        ensures
            final(self).addr == old(self).addr,
            final(self).mode == old(self).mode,
            final(self).calibration == old(self).calibration,
            final(self).pressure == old(self).pressure,
            r matches Ok(u) ==> is_compensated_temperature(
                old(self).calibration,
                final(self).temperature as int,
            ),
            r matches Err(e) ==> final(self).temperature == old(self).temperature,
            r matches Err(e) ==> !(e is InvalidId),
    {
        let raw_temperature = match self.read_raw_temperature() {
            Ok(v) => v,
            Err(e) => {
                return Err(e);
            },
        };
        match compute_temperature(&self.calibration, raw_temperature) {
            Some(t) => {
                self.temperature = t;
                proof {
                    assert(is_compensated_temperature(self.calibration, t as int)) by {
                        assert(b5_defined(self.calibration, raw_temperature as int));
                    }
                }
                Ok(())
            },
            None => Err(BMP180Error::Arithmetic),
        }
    }

    /// Read a raw temperature (the compensation needs its B5) and a raw
    /// pressure, and update the stored pressure from them.
    ///
    /// On failure nothing stored changes; the stored temperature never
    /// changes here.
    pub fn update_pressure(&mut self) -> (r: Result<(), BMP180Error<B::BusError>>)
        ensures
            final(self).addr == old(self).addr,
            final(self).mode == old(self).mode,
            final(self).calibration == old(self).calibration,
            final(self).temperature == old(self).temperature,
            r matches Ok(u) ==> is_compensated_pressure(
                old(self).calibration,
                old(self).mode.ordinal(),
                final(self).pressure as int,
            ),
            r matches Err(e) ==> final(self).pressure == old(self).pressure,
            r matches Err(e) ==> !(e is InvalidId),
    {
        let raw_temperature = match self.read_raw_temperature() {
            Ok(v) => v,
            Err(e) => {
                return Err(e);
            },
        };
        let raw_pressure = match self.read_raw_pressure() {
            Ok(v) => v,
            Err(e) => {
                return Err(e);
            },
        };
        match compute_pressure(&self.calibration, self.mode, raw_temperature, raw_pressure) {
            Some(p) => {
                self.pressure = p;
                proof {
                    assert(is_compensated_pressure(self.calibration, self.mode.ordinal(), p as int))
                        by {
                        assert(pressure_defined(
                            self.calibration,
                            self.mode.ordinal(),
                            raw_temperature as int,
                            raw_pressure as int,
                        ));
                    }
                }
                Ok(())
            },
            None => Err(BMP180Error::Arithmetic),
        }
    }

    /// Read one raw temperature and one raw pressure, and update both
    /// stored readings from the shared B5 — the preferred combined
    /// operation, saving the extra temperature read of calling the two
    /// single-purpose updates.
    ///
    /// On failure nothing stored changes: both readings are written only
    /// after both computations succeed.
    pub fn update(&mut self) -> (r: Result<(), BMP180Error<B::BusError>>)
        ensures
            final(self).addr == old(self).addr,
            final(self).mode == old(self).mode,
            final(self).calibration == old(self).calibration,
            r matches Ok(u) ==> is_compensated_reading(
                old(self).calibration,
                old(self).mode.ordinal(),
                final(self).temperature as int,
                final(self).pressure as int,
            ),
            r matches Err(e) ==> final(self).temperature == old(self).temperature
                && final(self).pressure == old(self).pressure,
            r matches Err(e) ==> !(e is InvalidId),
    {
        let raw_temperature = match self.read_raw_temperature() {
            Ok(v) => v,
            Err(e) => {
                return Err(e);
            },
        };
        let raw_pressure = match self.read_raw_pressure() {
            Ok(v) => v,
            Err(e) => {
                return Err(e);
            },
        };
        let t = match compute_temperature(&self.calibration, raw_temperature) {
            Some(t) => t,
            None => {
                return Err(BMP180Error::Arithmetic);
            },
        };
        let p = match compute_pressure(&self.calibration, self.mode, raw_temperature, raw_pressure)
            {
            Some(p) => p,
            None => {
                return Err(BMP180Error::Arithmetic);
            },
        };
        self.temperature = t;
        self.pressure = p;
        proof {
            assert(is_compensated_reading(
                self.calibration,
                self.mode.ordinal(),
                t as int,
                p as int,
            )) by {
                assert(pressure_defined(
                    self.calibration,
                    self.mode.ordinal(),
                    raw_temperature as int,
                    raw_pressure as int,
                ));
            }
        }
        Ok(())
    }

    /// Split the operational device into its parts.
    ///
    /// An escape hatch for advanced callers, intended for releasing the
    /// transport temporarily; the caller accepts the responsibility of
    /// preserving the parts — above all the calibration — unaltered when
    /// recomposing with [`BMP180::from_parts`].
    pub fn into_parts(self) -> (r: (Address, Mode, Calibration, i32, i32, B, D))
        ensures
            r == (
                self.addr,
                self.mode,
                self.calibration,
                self.temperature,
                self.pressure,
                self.i2c,
                self.delay,
            ),
    {
        (self.addr, self.mode, self.calibration, self.temperature, self.pressure, self.i2c, self.delay)
    }

    /// Recompose an operational device from its parts, the counterpart of
    /// [`BMP180::into_parts`].
    pub fn from_parts(
        addr: Address,
        mode: Mode,
        calibration: Calibration,
        temperature: i32,
        pressure: i32,
        i2c: B,
        delay: D,
    ) -> (r: Self)
        ensures
            r.addr == addr,
            r.mode == mode,
            r.calibration == calibration,
            r.temperature == temperature,
            r.pressure == pressure,
            r.i2c == i2c,
            r.delay == delay,
    {
        BMP180 { addr, mode, calibration, temperature, pressure, i2c, delay }
    }
}

} // verus!
