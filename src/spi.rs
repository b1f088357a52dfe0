//! The blocking SPI bus and SPI device adapters.

use vstd::prelude::*;

verus! {

/// A blocking SPI bus made from an asynchronous SPI bus.
///
/// The wrapped value is the asynchronous bus, which the adapter owns for as
/// long as it lives. Read, write, transfer, transfer in place and flush each
/// spin on the bus's own operation of the same name, given the same buffers.
pub struct SpinnySpiBus<S>(pub S);

/// A blocking SPI device made from an asynchronous SPI device.
///
/// The wrapped value is the asynchronous device, which the adapter owns for as
/// long as it lives. A blocking transaction spins on the device's own
/// transaction over the same list of operations.
pub struct SpinnySpiDevice<S>(pub S);

} // verus!
