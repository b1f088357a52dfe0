//! The blocking delay adapter.

use vstd::prelude::*;

verus! {

/// A blocking delay made from an asynchronous delay.
///
/// The wrapped value is the asynchronous delay driver, which the adapter owns
/// for as long as it lives. A blocking wait of some nanoseconds starts the
/// driver's own wait of the same length and spins on it until it is over.
pub struct SpinnyDelayNs<D>(pub D);

} // verus!
