//! Bus address, register map and command bytes of the sensor.

use vstd::prelude::*;

verus! {

/// Bus address of the sensor, without the read/write bit.
pub const BMP_180_ADDRESS: u8 = 0x77;

/// Output register: extra least significant byte.
pub const ADDR_OUT_XLSB: u8 = 0xF8;

/// Output register: least significant byte.
pub const ADDR_OUT_LSB: u8 = 0xF7;

/// Output register: most significant byte.
pub const ADDR_OUT_MSB: u8 = 0xF6;

/// Measurement control register.
pub const ADDR_CTRL_MEAS: u8 = 0xF4;

/// Soft reset register: writing [`SOFT_RESET`] runs the power-on sequence.
pub const ADDR_SOFT_RESET: u8 = 0xE0;

/// Chip identification register.
pub const ADDR_ID: u8 = 0xD0;

/// First register of the calibration block: eleven words of sixteen bits.
pub const ADDR_CALIB0: u8 = 0xAA;

/// Number of bytes in the calibration block.
pub const CALIBRATION_LEN: usize = 22;

/// Control register value that starts a temperature measurement.
pub const MEASURE_TEMPERATURE: u8 = 0x2E;

/// Control register value that starts a pressure measurement at the lowest
/// oversampling setting; the setting's ordinal goes into the top two bits.
pub const MEASURE_PRESSURE: u8 = 0x34;

/// Value that triggers a soft reset when written to [`ADDR_SOFT_RESET`].
pub const SOFT_RESET: u8 = 0xB6;

/// Conversion time of a temperature measurement, in microseconds.
pub const TEMPERATURE_DELAY_US: u32 = 4500;

/// Pause between two measurement cycles, in milliseconds.
pub const REPORT_INTERVAL_MS: u32 = 5000;

} // verus!
