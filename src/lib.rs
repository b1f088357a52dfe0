//! Blocking access to asynchronous peripheral drivers.
//!
//! An asynchronous driver hands out operations that must be polled until they
//! resolve. The adapter types of this crate each own one such driver and stand
//! for its blocking counterpart: every blocking call starts the matching
//! operation and spins on it, polling again at once after every pending poll,
//! until it resolves. The value or error it resolves to is handed back
//! unchanged.
//!
//! The decisions of that spin loop live in [`Spinner`], a small state machine
//! whose contracts say exactly how many polls a call makes and what it returns.
//! Whoever owns the operation polls it and feeds each outcome to the spinner.
//!
//! A call whose operation never resolves never returns: nothing here cancels
//! an operation or gives up on it.

mod delay;
mod executor;
mod i2c;
mod io;
mod spi;

pub use delay::SpinnyDelayNs;
pub use executor::{PollOutcome, SpinStep, Spinner};
pub use i2c::SpinnyI2c;
pub use io::SpinnyIo;
pub use spi::{SpinnySpiBus, SpinnySpiDevice};
