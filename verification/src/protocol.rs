//! The rules of the exchange with the sensor, stated over the record of
//! the bus: which commands make up each operation, in which order, when
//! an operation stops early, and what it returns.

use vstd::prelude::*;
use crate::bus::BusEvent;
use crate::data::{be_u16, decode, FifoData, SAMPLE_BYTES};
use crate::error::Mpu60x0Error;
use crate::registers::{
    ACCEL_CONFIG, CONFIG, FIFO_COUNT_H, FIFO_COUNT_L, FIFO_DATA, FIFO_EN, GYRO_CONFIG,
    MPU60X0_ADDRESS, PWR_MGMT_1, PWR_MGMT_2, SMPLRT_DIV, USER_CTRL, WHO_AM_I,
};

verus! {

/// Written to `PWR_MGMT_1`: resets the whole device.
pub const DEVICE_RESET: u8 = 0x80;

/// Written to `PWR_MGMT_1`: wakes the device and selects its clock source.
pub const WAKE_CLOCK_SELECT: u8 = 0x01;

/// Written to `PWR_MGMT_2`: no axis in standby.
pub const ALL_AXES_ON: u8 = 0x00;

/// Written to `USER_CTRL`: empties the burst buffer.
pub const FIFO_RESET: u8 = 0x04;

/// Written to `USER_CTRL`: switches the burst buffer on.
pub const FIFO_ENABLE: u8 = 0x40;

/// Written to `FIFO_EN`: the three gyroscope axes and the accelerometer
/// feed the burst buffer; the temperature does not.
pub const FIFO_GYRO_ACCEL: u8 = 0x78;

/// Written to `SMPLRT_DIV`.
pub const SAMPLE_RATE_DIVIDER: u8 = 0x31;

/// Written to `CONFIG`: low-pass filter setting 4.
pub const LOW_PASS_FILTER: u8 = 0x04;

/// Written to `GYRO_CONFIG` and `ACCEL_CONFIG`: the smallest full-scale
/// range.
pub const FULL_SCALE_DEFAULT: u8 = 0x00;

/// Wait after the device reset, in milliseconds.
pub const RESET_SETTLE_MS: u32 = 100;

/// Wait after each of the other steps that need one, in milliseconds.
pub const STEP_SETTLE_MS: u32 = 10;

/// One thing the driver asks of the outside.
pub enum Command {
    /// Write `value` to the register `register` of the sensor.
    Write { register: u8, value: u8 },
    /// Read one byte from the register `register` of the sensor.
    Read { register: u8 },
    /// Wait `ms` milliseconds.
    Wait { ms: u32 },
}

/// `event` is the record of `command`: the transfer went to the sensor's
/// address and carried the bytes that the command stands for.
pub open spec fn answers(event: BusEvent, command: Command) -> bool {
    match command {
        Command::Write { register, value } => match event {
            BusEvent::Write { address, bytes, .. } => address == MPU60X0_ADDRESS && bytes
                =~= seq![register, value],
            _ => false,
        },
        Command::Read { register } => match event {
            BusEvent::WriteRead { address, bytes, data, .. } => address == MPU60X0_ADDRESS
                && bytes =~= seq![register] && data.len() == 1,
            _ => false,
        },
        Command::Wait { ms } => event == (BusEvent::Delay { ms }),
    }
}

/// `run` is what the record gains when the commands of `script` are issued
/// one after another and the rest is given up at the first that fails.
pub open spec fn carries_out(run: Seq<BusEvent>, script: Seq<Command>) -> bool {
    &&& run.len() <= script.len()
    &&& forall|i: int| 0 <= i < run.len() ==> answers(#[trigger] run[i], script[i])
    &&& forall|i: int| 0 <= i < run.len() - 1 ==> (#[trigger] run[i]).succeeded()
    &&& run.len() < script.len() ==> run.len() > 0 && !run.last().succeeded()
}

/// `run` carries out all of `script` and no command failed.
pub open spec fn completes(run: Seq<BusEvent>, script: Seq<Command>) -> bool {
    &&& carries_out(run, script)
    &&& run.len() == script.len()
    &&& run.len() > 0 ==> run.last().succeeded()
}

/// A command that fails is the last of its run: nothing is issued after it.
pub proof fn failure_ends_the_run(run: Seq<BusEvent>, script: Seq<Command>, k: int)
    requires
        carries_out(run, script),
        0 <= k < run.len(),
        !run[k].succeeded(),
    ensures
        k == run.len() - 1,
        !completes(run, script),
{
}

/// Two records ask the same of the outside, whatever came of it.
pub open spec fn same_request(a: BusEvent, b: BusEvent) -> bool {
    match (a, b) {
        (
            BusEvent::Write { address: to_a, bytes: bytes_a, .. },
            BusEvent::Write { address: to_b, bytes: bytes_b, .. },
        ) => to_a == to_b && bytes_a =~= bytes_b,
        (
            BusEvent::WriteRead { address: to_a, bytes: bytes_a, data: data_a, .. },
            BusEvent::WriteRead { address: to_b, bytes: bytes_b, data: data_b, .. },
        ) => to_a == to_b && bytes_a =~= bytes_b && data_a.len() == data_b.len(),
        (BusEvent::Delay { ms: ms_a }, BusEvent::Delay { ms: ms_b }) => ms_a == ms_b,
        _ => false,
    }
}

/// The part of `after` that follows `before`; meant for a `before` that
/// `after` starts with.
pub open spec fn gained(before: Seq<BusEvent>, after: Seq<BusEvent>) -> Seq<BusEvent> {
    after.skip(before.len() as int)
}

/// What a write returns, given its record.
pub open spec fn write_outcome(event: BusEvent) -> Result<(), Mpu60x0Error> {
    if event.succeeded() {
        Ok(())
    } else {
        Err(Mpu60x0Error::i2c_error())
    }
}

/// What a read of one register returns, given its record.
pub open spec fn read_outcome(event: BusEvent) -> Result<u8, Mpu60x0Error> {
    if event.succeeded() {
        Ok(event.byte())
    } else {
        Err(Mpu60x0Error::i2c_error())
    }
}

/// The verdict on the byte found in the identity register.
pub open spec fn identity_verdict(value: u8) -> Result<(), Mpu60x0Error> {
    if value == MPU60X0_ADDRESS {
        Ok(())
    } else {
        Err(Mpu60x0Error::device_not_found())
    }
}

/// Accepts the byte found in the identity register if it is the sensor's.
pub fn check_identity(value: u8) -> (res: Result<(), Mpu60x0Error>)
    ensures
        res == identity_verdict(value),
        res is Ok <==> value == 0x68,
{
    if value != MPU60X0_ADDRESS {
        return Err(Mpu60x0Error::device_not_found());
    }
    Ok(())
}

/// What the identity check returns, given the record of its one read.
pub open spec fn ping_outcome(event: BusEvent) -> Result<(), Mpu60x0Error> {
    match read_outcome(event) {
        Ok(value) => identity_verdict(value),
        Err(e) => Err(e),
    }
}

/// The identity check passes if and only if the read succeeds and finds
/// 0x68. A read that fails gives the bus error; a read that finds another
/// byte gives `DeviceNotFound`.
pub proof fn ping_accepts_only_the_sensor(event: BusEvent)
    ensures
        ping_outcome(event) is Ok <==> event.succeeded() && event.byte() == 0x68,
        !event.succeeded() ==> ping_outcome(event) == Err::<(), Mpu60x0Error>(
            Mpu60x0Error::i2c_error(),
        ),
        event.succeeded() && event.byte() != 0x68 ==> ping_outcome(event) == Err::<
            (),
            Mpu60x0Error,
        >(Mpu60x0Error::device_not_found()),
{
}

/// The commands that follow the identity check when the sensor is brought
/// into its sampling configuration.
pub open spec fn bring_up_script() -> Seq<Command> {
    seq![
        Command::Write { register: PWR_MGMT_1, value: DEVICE_RESET },
        Command::Wait { ms: RESET_SETTLE_MS },
        Command::Write { register: PWR_MGMT_1, value: WAKE_CLOCK_SELECT },
        Command::Wait { ms: STEP_SETTLE_MS },
        Command::Write { register: PWR_MGMT_2, value: ALL_AXES_ON },
        Command::Wait { ms: STEP_SETTLE_MS },
        Command::Write { register: USER_CTRL, value: FIFO_RESET },
        Command::Wait { ms: STEP_SETTLE_MS },
        Command::Write { register: USER_CTRL, value: FIFO_ENABLE },
        Command::Wait { ms: STEP_SETTLE_MS },
        Command::Write { register: FIFO_EN, value: FIFO_GYRO_ACCEL },
        Command::Wait { ms: STEP_SETTLE_MS },
        Command::Write { register: SMPLRT_DIV, value: SAMPLE_RATE_DIVIDER },
        Command::Write { register: CONFIG, value: LOW_PASS_FILTER },
        Command::Write { register: GYRO_CONFIG, value: FULL_SCALE_DEFAULT },
        Command::Write { register: ACCEL_CONFIG, value: FULL_SCALE_DEFAULT },
    ]
}

/// `run` is what the record gains by an attempt to enable the sensor: the
/// identity check, and, if that passes, the bring-up up to its end or its
/// first failure.
pub open spec fn enable_exchange(run: Seq<BusEvent>) -> bool {
    &&& run.len() >= 1
    &&& answers(run[0], Command::Read { register: WHO_AM_I })
    &&& if ping_outcome(run[0]) is Ok {
        carries_out(run.skip(1), bring_up_script())
    } else {
        run.len() == 1
    }
}

/// What an attempt to enable the sensor returns, given what the record
/// gained by it.
pub open spec fn enable_outcome(run: Seq<BusEvent>) -> Result<(), Mpu60x0Error>
    recommends
        enable_exchange(run),
{
    match ping_outcome(run[0]) {
        Err(e) => Err(e),
        Ok(()) => if completes(run.skip(1), bring_up_script()) {
            Ok(())
        } else {
            Err(Mpu60x0Error::i2c_error())
        },
    }
}

/// The record of a successful write of `value` to the register `register`.
pub open spec fn wrote(register: u8, value: u8) -> BusEvent {
    BusEvent::Write { address: MPU60X0_ADDRESS, bytes: seq![register, value], ok: true }
}

/// The record of a successful read of the register `register` that found
/// `value` there.
pub open spec fn found(register: u8, value: u8) -> BusEvent {
    BusEvent::WriteRead {
        address: MPU60X0_ADDRESS,
        bytes: seq![register],
        data: seq![value],
        ok: true,
    }
}

/// The record of a wait of `ms` milliseconds.
pub open spec fn waited(ms: u32) -> BusEvent {
    BusEvent::Delay { ms }
}

/// What the record gains when the sensor is enabled and nothing fails:
/// the identity is read and found right, then the device is reset, woken,
/// its axes switched on, the burst buffer emptied, switched on and fed by
/// gyroscope and accelerometer, and the sampling configured.
pub open spec fn enabling_run() -> Seq<BusEvent> {
    seq![
        found(0x75, 0x68),
        wrote(0x6B, 0x80),
        waited(100),
        wrote(0x6B, 0x01),
        waited(10),
        wrote(0x6C, 0x00),
        waited(10),
        wrote(0x6A, 0x04),
        waited(10),
        wrote(0x6A, 0x40),
        waited(10),
        wrote(0x23, 0x78),
        waited(10),
        wrote(0x19, 0x31),
        wrote(0x1A, 0x04),
        wrote(0x1B, 0x00),
        wrote(0x1C, 0x00),
    ]
}

/// An attempt to enable the sensor succeeds only by the one run in which
/// every command of the sequence is issued, in order, and none fails.
pub proof fn enabling_is_fixed(run: Seq<BusEvent>)
    requires
        enable_exchange(run),
        enable_outcome(run) is Ok,
    ensures
        run == enabling_run(),
{
    let rest = run.skip(1);
    assert(run[0].succeeded() && run[0].byte() == 0x68);
    assert(run[0] == found(0x75, 0x68)) by {
        assert(run[0] is WriteRead);
        assert(run[0]->WriteRead_data =~= seq![0x68u8]);
    }
    assert forall|i: int| 0 <= i < 16 implies rest[i] == #[trigger] enabling_run()[i + 1] by {
        assert(answers(rest[i], bring_up_script()[i]));
        assert(rest[i].succeeded());
    }
    assert forall|i: int| 1 <= i < 17 implies run[i] == #[trigger] enabling_run()[i] by {
        assert(run[i] == rest[i - 1]);
        assert(rest[i - 1] == enabling_run()[i - 1 + 1]);
    }
    assert(run =~= enabling_run());
}

/// Every attempt to enable the sensor goes down the same list: whatever
/// it asks of the outside at its `i`-th step is what the successful run
/// asks there.
pub proof fn enable_keeps_the_order(run: Seq<BusEvent>, i: int)
    requires
        enable_exchange(run),
        0 <= i < run.len(),
    ensures
        run.len() <= enabling_run().len() == 17,
        same_request(run[i], enabling_run()[i]),
{
    if i >= 1 {
        let rest = run.skip(1);
        assert(ping_outcome(run[0]) is Ok);
        assert(run[i] == rest[i - 1]);
        assert(answers(rest[i - 1], bring_up_script()[i - 1]));
    }
}

/// An attempt to enable the sensor ends with the first transfer that
/// fails, and returns the bus error.
pub proof fn enable_stops_at_failure(run: Seq<BusEvent>, k: int)
    requires
        enable_exchange(run),
        0 <= k < run.len(),
        !run[k].succeeded(),
    ensures
        k == run.len() - 1,
        enable_outcome(run) == Err::<(), Mpu60x0Error>(Mpu60x0Error::i2c_error()),
{
    if k >= 1 {
        let rest = run.skip(1);
        assert(run[k] == rest[k - 1]);
        failure_ends_the_run(rest, bring_up_script(), k - 1);
    }
}

/// Enabling the sensor again, after it was disabled or after an attempt
/// that failed, asks of the outside what the first attempt asked, step by
/// step for as long as both go on; two attempts that succeed leave the
/// same record.
pub proof fn enable_repeats(first: Seq<BusEvent>, second: Seq<BusEvent>)
    requires
        enable_exchange(first),
        enable_exchange(second),
    ensures
        forall|i: int|
            0 <= i < first.len() && i < second.len() ==> same_request(
                #[trigger] first[i],
                second[i],
            ),
        enable_outcome(first) is Ok && enable_outcome(second) is Ok ==> first == second,
{
    assert forall|i: int| 0 <= i < first.len() && i < second.len() implies same_request(
        #[trigger] first[i],
        second[i],
    ) by {
        enable_keeps_the_order(first, i);
        enable_keeps_the_order(second, i);
    }
    if enable_outcome(first) is Ok && enable_outcome(second) is Ok {
        enabling_is_fixed(first);
        enabling_is_fixed(second);
    }
}

/// From position `at` on, `history` is a whole bring-up in which nothing
/// failed, followed by reads only.
pub open spec fn enabled_since(history: Seq<BusEvent>, at: int) -> bool {
    &&& 0 <= at
    &&& at + enabling_run().len() <= history.len()
    &&& history.subrange(at, at + enabling_run().len()) == enabling_run()
    &&& forall|i: int|
        at + enabling_run().len() <= i < history.len() ==> (#[trigger] history[i]) is WriteRead
}

/// The sensor was enabled, and nothing was written to it since: `history`
/// ends with a whole bring-up in which nothing failed, followed by reads
/// only.
pub open spec fn enabled_and_untouched(history: Seq<BusEvent>) -> bool {
    exists|at: int| #[trigger] enabled_since(history, at)
}

/// A read leaves an enabled sensor enabled.
pub proof fn reading_keeps_enabled(history: Seq<BusEvent>, event: BusEvent)
    requires
        enabled_and_untouched(history),
        event is WriteRead,
    ensures
        enabled_and_untouched(history.push(event)),
{
    let at = choose|at: int| #[trigger] enabled_since(history, at);
    let longer = history.push(event);
    assert(longer.subrange(at, at + enabling_run().len()) =~= history.subrange(
        at,
        at + enabling_run().len(),
    ));
    assert(enabled_since(longer, at));
}

/// The two reads that tell how many bytes the burst buffer holds.
pub open spec fn count_script() -> Seq<Command> {
    seq![Command::Read { register: FIFO_COUNT_H }, Command::Read { register: FIFO_COUNT_L }]
}

/// The reads that take one sample out of the burst buffer: one read of the
/// data port for each of its bytes.
pub open spec fn burst_script() -> Seq<Command> {
    Seq::new(SAMPLE_BYTES as nat, |i: int| Command::Read { register: FIFO_DATA })
}

/// The number of queued bytes that the first two reads of `run` found: the
/// first byte is the high one.
pub open spec fn queued(run: Seq<BusEvent>) -> int
    recommends
        run.len() >= 2,
{
    be_u16(run[0].byte(), run[1].byte())
}

/// The bytes that the reads of `run` brought in, in order.
pub open spec fn bytes_read(run: Seq<BusEvent>) -> Seq<u8> {
    Seq::new(run.len(), |i: int| run[i].byte())
}

/// The verdict on the number of bytes found in the burst buffer.
pub open spec fn count_verdict(count: u16) -> Result<(), Mpu60x0Error> {
    if count < SAMPLE_BYTES {
        Err(Mpu60x0Error::not_enough_data(count))
    } else {
        Ok(())
    }
}

/// Accepts the number of bytes found in the burst buffer if it is enough
/// for one sample.
pub fn check_fifo_count(count: u16) -> (res: Result<(), Mpu60x0Error>)
    ensures
        res == count_verdict(count),
        res is Ok <==> count >= 12,
{
    if count < SAMPLE_BYTES {
        return Err(Mpu60x0Error::not_enough_data(count));
    }
    Ok(())
}

/// `run` is what the record gains by an attempt to read one sample: the
/// two reads of the count, and, if they succeed and the count is enough,
/// the reads of the data port up to the last or to the first failure.
pub open spec fn fifo_exchange(run: Seq<BusEvent>) -> bool {
    if run.len() <= 2 {
        &&& carries_out(run, count_script())
        &&& completes(run, count_script()) ==> queued(run) < SAMPLE_BYTES
    } else {
        &&& completes(run.take(2), count_script())
        &&& queued(run) >= SAMPLE_BYTES
        &&& carries_out(run.skip(2), burst_script())
    }
}

/// What an attempt to read one sample returns, given what the record
/// gained by it.
pub open spec fn fifo_outcome(run: Seq<BusEvent>) -> Result<FifoData, Mpu60x0Error>
    recommends
        fifo_exchange(run),
{
    if run.len() <= 2 {
        if completes(run, count_script()) {
            Err(Mpu60x0Error::not_enough_data(queued(run) as u16))
        } else {
            Err(Mpu60x0Error::i2c_error())
        }
    } else if completes(run.skip(2), burst_script()) {
        Ok(decode(bytes_read(run.skip(2))))
    } else {
        Err(Mpu60x0Error::i2c_error())
    }
}

/// When fewer bytes are queued than one sample has, the attempt ends
/// with the two reads of the count: the data port is not read, and the
/// count that was found comes back in the error.
pub proof fn short_count_ends_the_read(run: Seq<BusEvent>)
    requires
        fifo_exchange(run),
        run.len() >= 2,
        run[0].succeeded(),
        run[1].succeeded(),
        queued(run) < 12,
    ensures
        run.len() == 2,
        forall|i: int|
            0 <= i < run.len() ==> !answers(#[trigger] run[i], Command::Read { register: 0x74 }),
        fifo_outcome(run) == Err::<FifoData, Mpu60x0Error>(
            Mpu60x0Error::not_enough_data(queued(run) as u16),
        ),
{
    if run.len() > 2 {
        assert(run.take(2)[0] == run[0]);
        assert(run.take(2)[1] == run[1]);
    }
    assert forall|i: int| 0 <= i < run.len() implies !answers(
        #[trigger] run[i],
        Command::Read { register: 0x74 },
    ) by {
        assert(answers(run[i], count_script()[i]));
        if answers(run[i], Command::Read { register: 0x74 }) {
            let bytes = run[i]->WriteRead_bytes;
            assert(bytes[0] == 0x74);
        }
    }
}

/// A sample comes back only from the one shape of run: the two reads of
/// the count, which find twelve bytes or more, and twelve reads of the
/// data port, none of which fails. The sample is what the twelve bytes
/// decode to, in the order in which they were read.
pub proof fn sample_needs_a_full_burst(run: Seq<BusEvent>)
    requires
        fifo_exchange(run),
        fifo_outcome(run) is Ok,
    ensures
        run.len() == 14,
        answers(run[0], Command::Read { register: 0x72 }),
        answers(run[1], Command::Read { register: 0x73 }),
        queued(run) >= 12,
        forall|i: int|
            2 <= i < 14 ==> answers(#[trigger] run[i], Command::Read { register: 0x74 }),
        forall|i: int| 0 <= i < 14 ==> (#[trigger] run[i]).succeeded(),
        fifo_outcome(run) == Ok::<FifoData, Mpu60x0Error>(decode(bytes_read(run.skip(2)))),
{
    let head = run.take(2);
    let tail = run.skip(2);
    assert(head[0] == run[0] && head[1] == run[1]);
    assert(answers(head[0], count_script()[0]));
    assert(answers(head[1], count_script()[1]));
    assert forall|i: int| 2 <= i < 14 implies answers(
        #[trigger] run[i],
        Command::Read { register: 0x74 },
    ) by {
        assert(run[i] == tail[i - 2]);
        assert(answers(tail[i - 2], burst_script()[i - 2]));
    }
    assert forall|i: int| 0 <= i < 14 implies (#[trigger] run[i]).succeeded() by {
        if i >= 2 {
            assert(run[i] == tail[i - 2]);
            if i < 13 {
                assert(tail[i - 2].succeeded());
            } else {
                assert(tail[i - 2] == tail.last());
            }
        } else {
            assert(head[0].succeeded());
            assert(head[1] == head.last());
        }
    }
}

/// An attempt to read one sample ends with the first transfer that fails,
/// and returns the bus error.
pub proof fn read_stops_at_failure(run: Seq<BusEvent>, k: int)
    requires
        fifo_exchange(run),
        0 <= k < run.len(),
        !run[k].succeeded(),
    ensures
        k == run.len() - 1,
        fifo_outcome(run) == Err::<FifoData, Mpu60x0Error>(Mpu60x0Error::i2c_error()),
{
    if run.len() <= 2 {
        failure_ends_the_run(run, count_script(), k);
    } else {
        let head = run.take(2);
        let tail = run.skip(2);
        if k < 2 {
            assert(head[k] == run[k]);
            assert(head[0].succeeded());
            assert(head[1] == head.last());
        } else {
            assert(tail[k - 2] == run[k]);
            failure_ends_the_run(tail, burst_script(), k - 2);
        }
    }
}

} // verus!
