//! One sample of the sensor, and how it is read out of twelve bytes of
//! the burst buffer.

use vstd::prelude::*;

verus! {

/// Number of bytes that one sample takes in the burst buffer: six axes of
/// two bytes each.
pub const SAMPLE_BYTES: u16 = 12;

/// A reading of the accelerometer and one of the gyroscope, taken together.
#[derive(Debug, Clone, Copy, PartialEq, Eq)]
pub struct FifoData {
    pub gyro_data: GyroData,
    pub accel_data: AccelData,
}

/// Rate of turn about the three axes, as the sensor counts it.
#[derive(Debug, Clone, Copy, PartialEq, Eq)]
pub struct GyroData {
    pub x: i16,
    pub y: i16,
    pub z: i16,
}

/// Acceleration along the three axes, as the sensor counts it.
#[derive(Debug, Clone, Copy, PartialEq, Eq)]
pub struct AccelData {
    pub x: i16,
    pub y: i16,
    pub z: i16,
}

/// The unsigned number that two bytes spell, high byte first.
pub open spec fn be_u16(high: u8, low: u8) -> int {
    high as int * 256 + low as int
}

/// The signed number that two bytes spell in two's complement, high byte
/// first.
pub open spec fn be_i16(high: u8, low: u8) -> int {
    if high < 128 {
        be_u16(high, low)
    } else {
        be_u16(high, low) - 65536
    }
}

/// The sample that twelve bytes of the burst buffer hold: the accelerometer
/// comes first, then the gyroscope, each as x, y, z.
pub open spec fn decode(bytes: Seq<u8>) -> FifoData
    recommends
        bytes.len() == SAMPLE_BYTES,
{
    FifoData {
        gyro_data: GyroData {
            x: be_i16(bytes[6], bytes[7]) as i16,
            y: be_i16(bytes[8], bytes[9]) as i16,
            z: be_i16(bytes[10], bytes[11]) as i16,
        },
        accel_data: AccelData {
            x: be_i16(bytes[0], bytes[1]) as i16,
            y: be_i16(bytes[2], bytes[3]) as i16,
            z: be_i16(bytes[4], bytes[5]) as i16,
        },
    }
}

/// Joins two bytes, high byte first, into an unsigned 16-bit number.
pub fn u16_from_be(high: u8, low: u8) -> (value: u16)
    ensures
        value == be_u16(high, low),
{
    let wide: u16 = high as u16;
    wide * 256 + low as u16
}

/// Joins two bytes, high byte first, into a signed 16-bit number.
pub fn i16_from_be(high: u8, low: u8) -> (value: i16)
    ensures
        value == be_i16(high, low),
{
    if high < 128 {
        let wide: i16 = high as i16;
        wide * 256 + low as i16
    } else {
        let wide: i16 = (high - 128) as i16;
        let above: i16 = wide * 256 + low as i16;
        above + i16::MIN
    }
}

impl FifoData {
    /// Reads one sample out of twelve bytes taken from the burst buffer.
    pub fn from_buffer(buffer: [u8; 12]) -> (sample: Self)
        ensures
            sample == decode(buffer@),
            sample.accel_data.x == be_i16(buffer[0], buffer[1]),
            sample.accel_data.y == be_i16(buffer[2], buffer[3]),
            sample.accel_data.z == be_i16(buffer[4], buffer[5]),
            sample.gyro_data.x == be_i16(buffer[6], buffer[7]),
            sample.gyro_data.y == be_i16(buffer[8], buffer[9]),
            sample.gyro_data.z == be_i16(buffer[10], buffer[11]),
    {
        FifoData {
            gyro_data: GyroData {
                x: i16_from_be(buffer[6], buffer[7]),
                y: i16_from_be(buffer[8], buffer[9]),
                z: i16_from_be(buffer[10], buffer[11]),
            },
            accel_data: AccelData {
                x: i16_from_be(buffer[0], buffer[1]),
                y: i16_from_be(buffer[2], buffer[3]),
                z: i16_from_be(buffer[4], buffer[5]),
            },
        }
    }
}

} // verus!
