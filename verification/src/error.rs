//! The driver's error type.

use vstd::prelude::*;

verus! {

/// What went wrong.
#[derive(Debug, Clone, Copy, PartialEq, Eq)]
pub enum ErrorKind {
    /// An error made by the caller through [`Mpu60x0Error::new`].
    CustomError,
    /// A transfer on the bus failed. The transport's own error is not kept.
    I2cError,
    /// The identity register did not hold the sensor's identity.
    DeviceNotFound,
    /// A byte that the driver cannot make sense of.
    InvalidData(u8),
    /// The burst buffer held fewer bytes than one sample has; the count
    /// that was read comes with it.
    NotEnoughData(u16),
}

/// An error kind together with a fixed text.
#[derive(Debug, Clone, Copy, PartialEq, Eq)]
pub struct Mpu60x0Error {
    pub kind: ErrorKind,
    pub message: &'static str,
}

impl Mpu60x0Error {
    /// A custom error with the given text.
    pub fn new(message: &'static str) -> (res: Self)
        ensures
            res.kind == ErrorKind::CustomError,
            res.message == message,
    {
        Mpu60x0Error { kind: ErrorKind::CustomError, message }
    }

    pub open spec fn spec_device_not_found() -> Self {
        Mpu60x0Error { kind: ErrorKind::DeviceNotFound, message: "Device not found" }
    }

    /// The identity check failed.
    #[verifier::when_used_as_spec(spec_device_not_found)]
    pub fn device_not_found() -> (res: Self)
        ensures
            res == Self::spec_device_not_found(),
    {
        Mpu60x0Error { kind: ErrorKind::DeviceNotFound, message: "Device not found" }
    }

    pub open spec fn spec_i2c_error() -> Self {
        Mpu60x0Error { kind: ErrorKind::I2cError, message: "I2C error" }
    }

    /// A transfer on the bus failed.
    #[verifier::when_used_as_spec(spec_i2c_error)]
    pub fn i2c_error() -> (res: Self)
        ensures
            res == Self::spec_i2c_error(),
    {
        Mpu60x0Error { kind: ErrorKind::I2cError, message: "I2C error" }
    }

    pub open spec fn spec_invalid_data(data: u8) -> Self {
        Mpu60x0Error { kind: ErrorKind::InvalidData(data), message: "Invalid data" }
    }

    /// The byte `data` is not one the driver can use.
    #[verifier::when_used_as_spec(spec_invalid_data)]
    pub fn invalid_data(data: u8) -> (res: Self)
        ensures
            res == Self::spec_invalid_data(data),
    {
        Mpu60x0Error { kind: ErrorKind::InvalidData(data), message: "Invalid data" }
    }

    pub open spec fn spec_not_enough_data(count: u16) -> Self {
        Mpu60x0Error { kind: ErrorKind::NotEnoughData(count), message: "Not enough data" }
    }

    /// The burst buffer held only `count` bytes.
    #[verifier::when_used_as_spec(spec_not_enough_data)]
    pub fn not_enough_data(count: u16) -> (res: Self)
        ensures
            res == Self::spec_not_enough_data(count),
    {
        Mpu60x0Error { kind: ErrorKind::NotEnoughData(count), message: "Not enough data" }
    }
}

} // verus!
