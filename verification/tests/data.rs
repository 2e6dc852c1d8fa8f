use mpu60x0::data::{i16_from_be, u16_from_be, AccelData, FifoData, GyroData, SAMPLE_BYTES};

#[test]
fn from_buffer_reads_accelerometer_first_then_gyroscope() {
    let sample = FifoData::from_buffer([
        0x00, 0x10, 0x00, 0x20, 0x00, 0x30, 0xFF, 0xF0, 0x00, 0x05, 0x00, 0x0A,
    ]);
    assert_eq!(sample.accel_data, AccelData { x: 16, y: 32, z: 48 });
    assert_eq!(sample.gyro_data, GyroData { x: -16, y: 5, z: 10 });
}

#[test]
fn from_buffer_of_zeros_is_all_zero() {
    let sample = FifoData::from_buffer([0; 12]);
    assert_eq!(
        sample,
        FifoData {
            gyro_data: GyroData { x: 0, y: 0, z: 0 },
            accel_data: AccelData { x: 0, y: 0, z: 0 },
        }
    );
}

#[test]
fn from_buffer_keeps_each_axis_apart() {
    let sample = FifoData::from_buffer([
        0x01, 0x02, 0x03, 0x04, 0x05, 0x06, 0x07, 0x08, 0x09, 0x0A, 0x0B, 0x0C,
    ]);
    assert_eq!(sample.accel_data.x, 0x0102);
    assert_eq!(sample.accel_data.y, 0x0304);
    assert_eq!(sample.accel_data.z, 0x0506);
    assert_eq!(sample.gyro_data.x, 0x0708);
    assert_eq!(sample.gyro_data.y, 0x090A);
    assert_eq!(sample.gyro_data.z, 0x0B0C);
}

#[test]
fn from_buffer_reaches_both_ends_of_the_range() {
    let sample = FifoData::from_buffer([
        0x7F, 0xFF, 0x80, 0x00, 0xFF, 0xFF, 0x80, 0x01, 0x7F, 0x00, 0x00, 0xFF,
    ]);
    assert_eq!(sample.accel_data, AccelData { x: 32767, y: -32768, z: -1 });
    assert_eq!(sample.gyro_data, GyroData { x: -32767, y: 32512, z: 255 });
}

#[test]
fn from_buffer_agrees_with_the_standard_conversion() {
    let mut buffer = [0u8; 12];
    for round in 0..=255u8 {
        for (i, byte) in buffer.iter_mut().enumerate() {
            *byte = round.wrapping_mul(37).wrapping_add((i as u8).wrapping_mul(91));
        }
        let sample = FifoData::from_buffer(buffer);
        assert_eq!(sample.accel_data.x, i16::from_be_bytes([buffer[0], buffer[1]]));
        assert_eq!(sample.accel_data.y, i16::from_be_bytes([buffer[2], buffer[3]]));
        assert_eq!(sample.accel_data.z, i16::from_be_bytes([buffer[4], buffer[5]]));
        assert_eq!(sample.gyro_data.x, i16::from_be_bytes([buffer[6], buffer[7]]));
        assert_eq!(sample.gyro_data.y, i16::from_be_bytes([buffer[8], buffer[9]]));
        assert_eq!(sample.gyro_data.z, i16::from_be_bytes([buffer[10], buffer[11]]));
    }
}

#[test]
fn u16_from_be_puts_the_high_byte_first() {
    assert_eq!(u16_from_be(0x00, 0x00), 0);
    assert_eq!(u16_from_be(0x00, 0x0B), 11);
    assert_eq!(u16_from_be(0x01, 0x00), 256);
    assert_eq!(u16_from_be(0x12, 0x34), 0x1234);
    assert_eq!(u16_from_be(0xFF, 0xFF), 65535);
}

#[test]
fn u16_from_be_agrees_with_the_standard_conversion_everywhere() {
    for high in 0..=255u8 {
        for low in 0..=255u8 {
            assert_eq!(u16_from_be(high, low), u16::from_be_bytes([high, low]));
        }
    }
}

#[test]
fn i16_from_be_is_twos_complement() {
    assert_eq!(i16_from_be(0x00, 0x00), 0);
    assert_eq!(i16_from_be(0x00, 0x10), 16);
    assert_eq!(i16_from_be(0xFF, 0xF0), -16);
    assert_eq!(i16_from_be(0x7F, 0xFF), i16::MAX);
    assert_eq!(i16_from_be(0x80, 0x00), i16::MIN);
    assert_eq!(i16_from_be(0xFF, 0xFF), -1);
}

#[test]
fn i16_from_be_agrees_with_the_standard_conversion_everywhere() {
    for high in 0..=255u8 {
        for low in 0..=255u8 {
            assert_eq!(i16_from_be(high, low), i16::from_be_bytes([high, low]));
        }
    }
}

#[test]
fn one_sample_is_twelve_bytes() {
    assert_eq!(SAMPLE_BYTES, 12);
}
