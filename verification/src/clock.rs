//! Readings of the system clock.
//!
//! A `ClockReading` is made only by reading the clock: nothing outside this
//! module can build one, nor state what a reading holds without having one.

use vstd::prelude::*;

verus! {

/// Whole seconds since the Unix epoch by the system clock at the moment it
/// was read; `None` when the clock read a time before the epoch.
pub struct ClockReading {
    secs: Option<u64>,
}

impl View for ClockReading {
    type V = Option<u64>;

    closed spec fn view(&self) -> Option<u64> {
        self.secs
    }
}

/// Whole seconds since the Unix epoch by the system clock; `None` when the
/// clock reads a time before the epoch.
///
/// Calls `std::time::SystemTime::now()` and `duration_since(UNIX_EPOCH)`.
/// The result depends on the clock, so nothing is claimed of it.
#[verifier::external_body]
fn unix_seconds() -> Option<u64> {
    match std::time::SystemTime::now().duration_since(std::time::UNIX_EPOCH) {
        Ok(d) => Some(d.as_secs()),
        Err(_) => None,
    }
}

/// Read the system clock.
pub fn read_clock() -> (c: ClockReading) {
    ClockReading { secs: unix_seconds() }
}

impl ClockReading {
    /// The seconds this reading holds.
    pub fn seconds(&self) -> (s: Option<u64>)
        ensures
            s == self@,
    {
        self.secs
    }
}

} // verus!
