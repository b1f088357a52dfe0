//! The blocking I2C controller adapter.

use vstd::prelude::*;

verus! {

/// A blocking I2C controller made from an asynchronous I2C controller.
///
/// The wrapped value is the asynchronous controller, which the adapter owns for
/// as long as it lives. A blocking transaction hands the address and the list
/// of read and write operations, unchanged, to the controller's own
/// transaction, spins on it, and returns its result or its error unchanged.
pub struct SpinnyI2c<I>(pub I);

} // verus!
