//! The register map of the MPU-60x0 and the address at which the sensor
//! answers on the two-wire bus.

use vstd::prelude::*;

verus! {

/// Seven-bit bus address of the sensor. The identity register holds the
/// same value.
pub const MPU60X0_ADDRESS: u8 = 0x68;

/// Identity register.
pub const WHO_AM_I: u8 = 0x75;

/// Sample-rate divider.
pub const SMPLRT_DIV: u8 = 0x19;

/// Selects the channels that feed the burst buffer.
pub const FIFO_EN: u8 = 0x23;

/// Control of the sensor's own bus master.
pub const I2C_MST_CTRL: u8 = 0x24;

/// Power management 1: reset, sleep, clock source.
pub const PWR_MGMT_1: u8 = 0x6b;

/// Power management 2: standby of the single axes.
pub const PWR_MGMT_2: u8 = 0x6c;

/// High byte of the number of bytes queued in the burst buffer.
pub const FIFO_COUNT_H: u8 = 0x72;

/// Low byte of the number of bytes queued in the burst buffer.
pub const FIFO_COUNT_L: u8 = 0x73;

/// Data port of the burst buffer: every read takes the oldest byte out.
pub const FIFO_DATA: u8 = 0x74;

/// User control: enables and resets the burst buffer.
pub const USER_CTRL: u8 = 0x6a;

/// Low-pass filter configuration.
pub const CONFIG: u8 = 0x1a;

/// Gyroscope full-scale range.
pub const GYRO_CONFIG: u8 = 0x1b;

/// Accelerometer full-scale range.
pub const ACCEL_CONFIG: u8 = 0x1c;

} // verus!
