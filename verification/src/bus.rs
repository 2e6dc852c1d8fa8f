//! What the driver needs of the outside: a bus to reach the sensor and a
//! way to let time pass. Both are supplied by the caller.
//!
//! The driver assumes nothing of either. Whatever a transfer reports, and
//! whatever bytes it hands back, the driver's contracts hold; they are
//! stated over the record of what was asked and what came back.

use vstd::prelude::*;

verus! {

/// A two-wire bus on which the holder is the only master.
pub trait Transport {
    /// What the bus reports when a transfer fails. The driver does not look
    /// into it.
    type Error;

    /// Writes `bytes` to the device at the seven-bit address `address`, in
    /// one transfer.
    fn write(&mut self, address: u8, bytes: &[u8]) -> Result<(), Self::Error>;

    /// Writes `bytes` to the device at `address` and then, in the same
    /// transfer, reads as many bytes as `buffer` holds into it.
    fn write_read<const N: usize>(
        &mut self,
        address: u8,
        bytes: &[u8],
        buffer: &mut [u8; N],
    ) -> Result<(), Self::Error>;
}

/// A blocking wait.
pub trait Delay {
    /// Returns after at least `ms` milliseconds.
    fn delay_ms(&mut self, ms: u32);
}

/// One thing the driver asked of the outside, as it was asked and as it
/// ended.
pub enum BusEvent {
    /// `bytes` were written to the device at `address`.
    Write { address: u8, bytes: Seq<u8>, ok: bool },
    /// `bytes` were written to the device at `address` and `data.len()`
    /// bytes were asked back; `data` is what the buffer held afterwards.
    WriteRead { address: u8, bytes: Seq<u8>, data: Seq<u8>, ok: bool },
    /// A wait of `ms` milliseconds.
    Delay { ms: u32 },
}

impl BusEvent {
    /// The outside reported no failure. A wait cannot fail.
    pub open spec fn succeeded(self) -> bool {
        match self {
            BusEvent::Write { ok, .. } => ok,
            BusEvent::WriteRead { ok, .. } => ok,
            BusEvent::Delay { .. } => true,
        }
    }

    /// The first byte that was read back; 0 for an event that read nothing.
    pub open spec fn byte(self) -> u8 {
        match self {
            BusEvent::WriteRead { data, .. } => if data.len() > 0 {
                data[0]
            } else {
                0
            },
            _ => 0,
        }
    }
}

} // verus!
