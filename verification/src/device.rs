//! The handle to one sensor, typed by its lifecycle state.

use vstd::prelude::*;
use crate::bus::{BusEvent, Delay, Transport};
use crate::channel::Channel;
use crate::data::{u16_from_be, AccelData, FifoData, GyroData, SAMPLE_BYTES};
use crate::error::Mpu60x0Error;
use crate::protocol::{
    answers, bytes_read, check_fifo_count, check_identity, completes, count_script,
    enable_exchange, enable_outcome, enabled_and_untouched, enabled_since, enabling_is_fixed,
    enabling_run, fifo_exchange, fifo_outcome, gained, ping_outcome, queued, read_outcome,
    write_outcome, wrote, Command,
    ALL_AXES_ON, DEVICE_RESET, FIFO_ENABLE, FIFO_GYRO_ACCEL, FIFO_RESET, FULL_SCALE_DEFAULT,
    LOW_PASS_FILTER, RESET_SETTLE_MS, SAMPLE_RATE_DIVIDER, STEP_SETTLE_MS, WAKE_CLOCK_SELECT,
};
use crate::registers::{
    ACCEL_CONFIG, CONFIG, FIFO_COUNT_H, FIFO_COUNT_L, FIFO_DATA, FIFO_EN, GYRO_CONFIG,
    MPU60X0_ADDRESS, PWR_MGMT_1, PWR_MGMT_2, SMPLRT_DIV, USER_CTRL, WHO_AM_I,
};
use crate::sealed::Sealed;
use crate::state::{Disabled, Enabled};

verus! {

/// The handle to one sensor. It owns the bus for as long as it lives.
///
/// A sample can be read only through a handle in the state [`Enabled`],
/// and such a handle comes only out of [`Mpu60x0::enable`].
pub struct Mpu60x0<I2C, State: Sealed> {
    link: Channel<I2C, State>,
}

impl<I2C, State: Sealed> Mpu60x0<I2C, State> {
    /// Everything that was asked of the outside through this handle and
    /// through the handles it was made from, oldest first, with how each
    /// request ended.
    pub closed spec fn history(&self) -> Seq<BusEvent> {
        self.link.history()
    }
}

impl<I2C: Transport, State: Sealed> Mpu60x0<I2C, State> {
    /// Reads the register `address` of the sensor: one transfer, which
    /// writes the byte `address` and reads one byte back.
    fn read_address(&mut self, address: u8) -> (res: Result<u8, Mpu60x0Error>)
        ensures
            ({
                let run = gained(old(self).history(), final(self).history());
                &&& final(self).history() == old(self).history() + run
                &&& run.len() == 1
                &&& answers(run[0], Command::Read { register: address })
                &&& res == read_outcome(run[0])
            }),
            State::sampling() ==> enabled_and_untouched(old(self).history()),
            State::sampling() ==> enabled_and_untouched(final(self).history()),
    {
        let mut buffer: [u8; 1] = [0; 1];
        let frame: [u8; 1] = [address];
        let outcome = self.link.write_read(MPU60X0_ADDRESS, &frame, &mut buffer);
        proof {
            let run = gained(old(self).history(), self.history());
            assert(frame@ =~= seq![address]);
            assert(run =~= seq![self.history().last()]);
            assert(self.history() =~= old(self).history() + run);
        }
        match outcome {
            Ok(()) => Ok(buffer[0]),
            Err(_) => Err(Mpu60x0Error::i2c_error()),
        }
    }

    /// Checks that the device on the bus is the sensor: reads the identity
    /// register and compares what it holds with the sensor's identity.
    pub fn ping(&mut self) -> (res: Result<(), Mpu60x0Error>)
        ensures
            ({
                let run = gained(old(self).history(), final(self).history());
                &&& final(self).history() == old(self).history() + run
                &&& run.len() == 1
                &&& answers(run[0], Command::Read { register: WHO_AM_I })
                &&& res == ping_outcome(run[0])
            }),
            State::sampling() ==> enabled_and_untouched(old(self).history()),
            State::sampling() ==> enabled_and_untouched(final(self).history()),
    {
        let value = self.read_address(WHO_AM_I)?;
        check_identity(value)
    }
}

impl<I2C: Transport> Mpu60x0<I2C, Disabled> {
    /// A handle for the sensor on the bus `i2c`. Nothing is sent.
    pub fn new(i2c: I2C) -> (res: Self)
        ensures
            res.history() == Seq::<BusEvent>::empty(),
    {
        Mpu60x0 { link: Channel::new(i2c) }
    }

    /// Writes `value` to the register `address` of the sensor: one
    /// transfer, of the two bytes `address` and `value`.
    fn write_at_address(&mut self, address: u8, value: u8) -> (res: Result<(), Mpu60x0Error>)
        ensures
            final(self).history() == old(self).history().push(
                BusEvent::Write {
                    address: MPU60X0_ADDRESS,
                    bytes: seq![address, value],
                    ok: res is Ok,
                },
            ),
            res == write_outcome(final(self).history().last()),
    {
        let frame: [u8; 2] = [address, value];
        let outcome = self.link.write(MPU60X0_ADDRESS, &frame);
        assert(frame@ =~= seq![address, value]);
        match outcome {
            Ok(()) => Ok(()),
            Err(_) => Err(Mpu60x0Error::i2c_error()),
        }
    }

    /// Waits `ms` milliseconds.
    fn pause<D: Delay>(&mut self, delay: &mut D, ms: u32)
        ensures
            final(self).history() == old(self).history().push(BusEvent::Delay { ms }),
    {
        self.link.wait(delay, ms);
    }

    /// Checks the identity of the device and brings it into the sampling
    /// configuration, giving up at the first transfer that fails.
    fn bring_up<D: Delay>(&mut self, delay: &mut D) -> (res: Result<(), Mpu60x0Error>)
        ensures
            ({
                let run = gained(old(self).history(), final(self).history());
                &&& final(self).history() == old(self).history() + run
                &&& enable_exchange(run)
                &&& res == enable_outcome(run)
            }),
    {
        self.ping()?;

        self.write_at_address(PWR_MGMT_1, DEVICE_RESET)?;
        self.pause(delay, RESET_SETTLE_MS);

        self.write_at_address(PWR_MGMT_1, WAKE_CLOCK_SELECT)?;
        self.pause(delay, STEP_SETTLE_MS);

        self.write_at_address(PWR_MGMT_2, ALL_AXES_ON)?;
        self.pause(delay, STEP_SETTLE_MS);

        self.write_at_address(USER_CTRL, FIFO_RESET)?;
        self.pause(delay, STEP_SETTLE_MS);

        self.write_at_address(USER_CTRL, FIFO_ENABLE)?;
        self.pause(delay, STEP_SETTLE_MS);

        self.write_at_address(FIFO_EN, FIFO_GYRO_ACCEL)?;
        self.pause(delay, STEP_SETTLE_MS);

        self.write_at_address(SMPLRT_DIV, SAMPLE_RATE_DIVIDER)?;
        self.write_at_address(CONFIG, LOW_PASS_FILTER)?;
        self.write_at_address(GYRO_CONFIG, FULL_SCALE_DEFAULT)?;
        self.write_at_address(ACCEL_CONFIG, FULL_SCALE_DEFAULT)?;

        Ok(())
    }

    /// Brings the sensor up and, if that succeeds, hands out the handle
    /// in the state [`Enabled`]. The handle is used up either way.
    pub fn enable<D: Delay>(self, delay: &mut D) -> (res: Result<
        Mpu60x0<I2C, Enabled>,
        Mpu60x0Error,
    >)
        ensures
            match res {
                Ok(device) => {
                    &&& device.history() == self.history() + enabling_run()
                    &&& enabled_and_untouched(device.history())
                },
                Err(e) => e == Mpu60x0Error::i2c_error() || e == Mpu60x0Error::device_not_found(),
            },
    {
        let mut device = self;
        device.bring_up(delay)?;
        proof {
            let at = self.history().len() as int;
            enabling_is_fixed(gained(self.history(), device.history()));
            assert(device.history().subrange(at, at + 17) =~= enabling_run());
            assert(enabled_since(device.history(), at));
        }
        Ok(Mpu60x0 { link: device.link.enabled() })
    }
}

impl<I2C: Transport> Mpu60x0<I2C, Enabled> {
    /// Resets the sensor, which ends all sampling, and hands out the
    /// handle in the state [`Disabled`]. The handle is used up either way.
    pub fn disable(self) -> (res: Result<Mpu60x0<I2C, Disabled>, Mpu60x0Error>)
        ensures
            match res {
                Ok(device) => device.history() == self.history().push(wrote(0x6B, 0x80)),
                Err(e) => e == Mpu60x0Error::i2c_error(),
            },
    {
        let mut device = Mpu60x0 { link: self.link.disabled() };
        device.write_at_address(PWR_MGMT_1, DEVICE_RESET)?;
        Ok(device)
    }

    /// Takes the oldest sample out of the sensor's burst buffer: reads how
    /// many bytes are queued and, if they are enough for one sample, reads
    /// the data port once for each byte of it.
    pub fn read_fifo(&mut self) -> (res: Result<FifoData, Mpu60x0Error>)
        ensures
            ({
                let run = gained(old(self).history(), final(self).history());
                &&& final(self).history() == old(self).history() + run
                &&& fifo_exchange(run)
                &&& res == fifo_outcome(run)
            }),
            enabled_and_untouched(old(self).history()),
            enabled_and_untouched(final(self).history()),
    {
        let mut buffer: [u8; 12] = [0; 12];

        let fifo_h = self.read_address(FIFO_COUNT_H)?;
        let fifo_l = self.read_address(FIFO_COUNT_L)?;
        let count = u16_from_be(fifo_h, fifo_l);
        check_fifo_count(count)?;

        let ghost start = old(self).history();
        let ghost head = gained(start, self.history());
        let ghost tail = Seq::<BusEvent>::empty();
        assert(self.history() =~= start + head + tail);
        let mut i: usize = 0;
        while i < 12
            invariant
                0 <= i <= 12,
                start == old(self).history(),
                enabled_and_untouched(start),
                enabled_and_untouched(self.history()),
                self.history() == start + head + tail,
                completes(head, count_script()),
                queued(head) >= SAMPLE_BYTES,
                tail.len() == i,
                forall|j: int|
                    0 <= j < i ==> answers(
                        #[trigger] tail[j],
                        Command::Read { register: FIFO_DATA },
                    ),
                forall|j: int| 0 <= j < i ==> (#[trigger] tail[j]).succeeded(),
                forall|j: int| 0 <= j < i ==> (#[trigger] buffer[j]) == tail[j].byte(),
            decreases 12 - i,
        {
            let read = self.read_address(FIFO_DATA);
            proof {
                tail = tail.push(self.history().last());
                let run = gained(start, self.history());
                assert(self.history() =~= start + head + tail);
                assert(run =~= head + tail);
                assert(run.take(2) =~= head);
                assert(run.skip(2) =~= tail);
            }
            let byte = read?;
            buffer[i] = byte;
            i += 1;
        }
        proof {
            let run = gained(start, self.history());
            assert(run =~= head + tail);
            assert(run.take(2) =~= head);
            assert(run.skip(2) =~= tail);
            assert(bytes_read(tail) =~= buffer@);
        }

        Ok(FifoData::from_buffer(buffer))
    }

    /// Takes the oldest sample out of the burst buffer, as
    /// [`Mpu60x0::read_fifo`] does, and returns its gyroscope part.
    pub fn read_gyro(&mut self) -> (res: Result<GyroData, Mpu60x0Error>)
        ensures
            ({
                let run = gained(old(self).history(), final(self).history());
                &&& final(self).history() == old(self).history() + run
                &&& fifo_exchange(run)
                &&& res == match fifo_outcome(run) {
                    Ok(sample) => Ok::<GyroData, Mpu60x0Error>(sample.gyro_data),
                    Err(e) => Err(e),
                }
            }),
            enabled_and_untouched(old(self).history()),
            enabled_and_untouched(final(self).history()),
    {
        let fifo_data = self.read_fifo()?;
        Ok(fifo_data.gyro_data)
    }

    /// Takes the oldest sample out of the burst buffer, as
    /// [`Mpu60x0::read_fifo`] does, and returns its accelerometer part.
    pub fn read_accel(&mut self) -> (res: Result<AccelData, Mpu60x0Error>)
        ensures
            ({
                let run = gained(old(self).history(), final(self).history());
                &&& final(self).history() == old(self).history() + run
                &&& fifo_exchange(run)
                &&& res == match fifo_outcome(run) {
                    Ok(sample) => Ok::<AccelData, Mpu60x0Error>(sample.accel_data),
                    Err(e) => Err(e),
                }
            }),
            enabled_and_untouched(old(self).history()),
            enabled_and_untouched(final(self).history()),
    {
        let fifo_data = self.read_fifo()?;
        Ok(fifo_data.accel_data)
    }
}

} // verus!
