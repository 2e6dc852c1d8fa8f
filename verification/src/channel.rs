//! The bus together with the record of what was asked of the outside
//! through it. Nothing else in the driver reaches the bus, and nothing
//! else can add to the record.

use core::marker::PhantomData;
use vstd::prelude::*;
use crate::bus::{BusEvent, Delay, Transport};
use crate::protocol::{enabled_and_untouched, reading_keeps_enabled};
use crate::sealed::Sealed;
use crate::state::{Disabled, Enabled};

verus! {

/// The record of one handle, typed by the handle's lifecycle state.
struct Record<State: Sealed> {
    events: Ghost<Seq<BusEvent>>,
    _state: PhantomData<State>,
}

impl<State: Sealed> Record<State> {
    /// In a state that stands for a sampling sensor, the record shows a
    /// whole bring-up in which nothing failed and only reads since.
    #[verifier::type_invariant]
    spec fn sampling_is_earned(self) -> bool {
        State::sampling() ==> enabled_and_untouched(self.events@)
    }

    /// Adds `event` to the record.
    fn add(&mut self, Ghost(event): Ghost<BusEvent>)
        requires
            State::sampling() ==> event is WriteRead,
        ensures
            final(self).events@ == old(self).events@.push(event),
    {
        proof {
            use_type_invariant(&*self);
            if State::sampling() {
                reading_keeps_enabled(self.events@, event);
            }
        }
        self.events = Ghost(self.events@.push(event));
    }

    /// Makes known what the state of the record stands for.
    fn attest(&self)
        ensures
            State::sampling() ==> enabled_and_untouched(self.events@),
    {
        proof {
            use_type_invariant(self);
        }
    }
}

/// A bus together with the record of everything that was asked of the
/// outside through it. The record grows by one event with each call of
/// `write`, `write_read` and `wait`, and in no other way.
pub(crate) struct Channel<I2C, State: Sealed> {
    i2c: I2C,
    record: Record<State>,
}

impl<I2C, State: Sealed> Channel<I2C, State> {
    /// The record, oldest event first.
    pub(crate) closed spec fn history(&self) -> Seq<BusEvent> {
        self.record.events@
    }
}

impl<I2C: Transport, State: Sealed> Channel<I2C, State> {
    /// Writes `bytes` to the device at `address`, reads `buffer` full in
    /// the same transfer, and records both.
    pub(crate) fn write_read<const N: usize>(
        &mut self,
        address: u8,
        bytes: &[u8],
        buffer: &mut [u8; N],
    ) -> (res: Result<(), I2C::Error>)
        ensures
            final(self).history() == old(self).history().push(
                BusEvent::WriteRead {
                    address,
                    bytes: bytes@,
                    data: final(buffer)@,
                    ok: res is Ok,
                },
            ),
            State::sampling() ==> enabled_and_untouched(old(self).history()),
            State::sampling() ==> enabled_and_untouched(final(self).history()),
    {
        self.record.attest();
        let res = self.i2c.write_read(address, bytes, buffer);
        self.record.add(
            Ghost(BusEvent::WriteRead { address, bytes: bytes@, data: buffer@, ok: res is Ok }),
        );
        self.record.attest();
        res
    }
}

impl<I2C: Transport> Channel<I2C, Disabled> {
    /// A channel to the bus `i2c`, with an empty record.
    pub(crate) fn new(i2c: I2C) -> (channel: Self)
        ensures
            channel.history() == Seq::<BusEvent>::empty(),
    {
        Channel { i2c, record: Record { events: Ghost(Seq::empty()), _state: PhantomData } }
    }

    /// Writes `bytes` to the device at `address` and records it.
    pub(crate) fn write(&mut self, address: u8, bytes: &[u8]) -> (res: Result<(), I2C::Error>)
        ensures
            final(self).history() == old(self).history().push(
                BusEvent::Write { address, bytes: bytes@, ok: res is Ok },
            ),
    {
        let res = self.i2c.write(address, bytes);
        self.record.add(Ghost(BusEvent::Write { address, bytes: bytes@, ok: res is Ok }));
        res
    }

    /// Waits `ms` milliseconds on `delay` and records it.
    pub(crate) fn wait<D: Delay>(&mut self, delay: &mut D, ms: u32)
        ensures
            final(self).history() == old(self).history().push(BusEvent::Delay { ms }),
    {
        delay.delay_ms(ms);
        self.record.add(Ghost(BusEvent::Delay { ms }));
    }

    /// The same channel for a handle in the state [`Enabled`]. Nothing is
    /// sent.
    pub(crate) fn enabled(self) -> (channel: Channel<I2C, Enabled>)
        requires
            enabled_and_untouched(self.history()),
        ensures
            channel.history() == self.history(),
    {
        Channel {
            i2c: self.i2c,
            record: Record { events: self.record.events, _state: PhantomData },
        }
    }
}

impl<I2C: Transport> Channel<I2C, Enabled> {
    /// The same channel for a handle in the state [`Disabled`]. Nothing is
    /// sent.
    pub(crate) fn disabled(self) -> (channel: Channel<I2C, Disabled>)
        ensures
            channel.history() == self.history(),
    {
        Channel {
            i2c: self.i2c,
            record: Record { events: self.record.events, _state: PhantomData },
        }
    }
}

} // verus!
