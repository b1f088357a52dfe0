//! The blocking byte-stream adapter.

use vstd::prelude::*;

verus! {

/// Blocking byte-stream I/O made from an asynchronous byte-stream driver.
///
/// The wrapped value is the asynchronous driver, which the adapter owns for as
/// long as it lives. Each blocking capability is there when the driver has the
/// asynchronous one: read, write and flush, seek, and fill of a buffered
/// reader spin on the driver's operation until it resolves. Consuming buffered
/// bytes and asking whether the stream is ready to read or to write are
/// synchronous already and are handed straight to the driver, with no
/// spinning.
pub struct SpinnyIo<I>(pub I);

} // verus!
