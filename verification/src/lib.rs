//! Driver core for the BMP180 digital pressure/temperature sensor.
//!
//! The crate models the sensor's lifecycle (uninitialized, identity-checked,
//! calibrated, operational), the register sequences of the datasheet, and the
//! fixed-point compensation algorithm that turns raw ADC codes into
//! temperature (tenths of a degree Celsius) and pressure (Pa).
//!
//! Bus transport and delay are capabilities supplied by the caller through
//! the [`traits::Bus`] and [`traits::Delay`] traits.

pub mod address;
pub mod calibration;
pub mod compensation;
pub mod device;
pub mod error;
pub mod fuzz;
pub mod id;
pub mod mode;
pub mod register;
pub mod traits;

pub use crate::address::Address;
pub use crate::calibration::Calibration;
pub use crate::device::{UninitBMP180, UninitBMP180Builder, BMP180};
pub use crate::error::BMP180Error;
pub use crate::id::Id;
pub use crate::mode::Mode;
pub use crate::register::Register;
pub use crate::traits::{Bus, Delay};
