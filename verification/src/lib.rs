//! Driver for the MPU-60x0 six-axis motion sensor on a two-wire bus.

pub mod bus;
mod channel;
pub mod data;
pub mod device;
pub mod error;
pub mod protocol;
pub mod registers;
mod sealed;
pub mod state;

pub use device::Mpu60x0;
pub use state::{Disabled, Enabled};
