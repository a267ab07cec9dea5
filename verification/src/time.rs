//! The time base: a wrapping 32-bit hardware tick counter.

use vstd::prelude::*;

verus! {

/// Number of distinct values of the tick counter.
pub open spec fn tick_modulus() -> int {
    0x1_0000_0000
}

/// A reading of the hardware tick counter. The counter wraps to zero after
/// `u32::MAX`.
#[derive(Clone, Copy, Debug, PartialEq, Eq, Structural)]
pub struct TimeStamp(pub u32);

/// Ticks that passed from `since` to `now`, counted modulo the counter's range,
/// so that a counter overflow between the two readings does not disturb it.
pub open spec fn elapsed_ticks(since: TimeStamp, now: TimeStamp) -> int {
    (now.0 - since.0) % tick_modulus()
}

/// The reading that the counter shows `ticks` after `since`.
pub open spec fn ticks_after(since: TimeStamp, ticks: int) -> TimeStamp {
    TimeStamp(((since.0 + ticks) % tick_modulus()) as u32)
}

impl TimeStamp {
    /// Ticks from `since` to `self`, by wraparound-safe subtraction.
    pub fn elapsed_since(&self, since: TimeStamp) -> (elapsed: u32)
        ensures
            elapsed == elapsed_ticks(since, *self),
    {
        self.0.wrapping_sub(since.0)
    }
}

} // verus!
