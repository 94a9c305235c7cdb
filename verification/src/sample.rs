//! The result of one successful exchange.

use vstd::prelude::*;

verus! {

/// What one exchange with the server found. A sample is made whole and
/// replaced whole; nothing changes a field of one.
#[derive(Clone, Copy, Debug, PartialEq, Eq, Structural)]
pub struct TimeSample {
    /// Server time at its reply, whole seconds since the Unix epoch.
    pub seconds: u32,
    /// Server time at its reply, binary fraction of a second in units of 2^-32 s.
    pub seconds_fraction: u32,
    /// Time on the network, there and back, in microseconds.
    pub roundtrip_micros: u64,
    /// Server clock minus local clock, in microseconds.
    pub offset_micros: i64,
}

} // verus!
