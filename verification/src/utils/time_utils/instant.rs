//! A timestamp of the cycle counter.
use super::cycles::{convert_cycles_to_duration, convert_cycles_to_ns, CycleClock};
use super::cycles::{duration_from_nanos, saturate_u64};
use core::time::Duration;
use vstd::prelude::*;

verus! {

/// A reading of a monotonically nondecreasing cycle counter.
///
/// Two readings compare meaningfully only if they come from the same
/// counter; where the earlier of two is in fact the later, the difference is
/// "no measurement", which the recorders count as zero.
#[derive(Debug, Clone, Copy, PartialEq, Eq)]
pub struct Instant(pub u64);

impl Default for Instant {
    fn default() -> (r: Instant)
        ensures
            r == Instant(0),
    {
        Instant(0)
    }
}

impl Instant {
    /// The cycle count that the reading holds.
    pub open spec fn cycles(self) -> u64 {
        self.0
    }

    /// The cycles from `earlier` to this instant, zero where `earlier` is the
    /// later of the two.
    pub open spec fn elapsed_since(self, earlier: Instant) -> u64 {
        if earlier.cycles() <= self.cycles() {
            (self.cycles() - earlier.cycles()) as u64
        } else {
            0
        }
    }

    /// The instant of a given cycle count.
    pub fn from_cycles(cycles: u64) -> (r: Instant)
        ensures
            r == Instant(cycles),
    {
        Instant(cycles)
    }

    /// The cycle count that the reading holds.
    pub fn as_cycles(&self) -> (r: u64)
        ensures
            r == self.cycles(),
    {
        self.0
    }

    /// The cycles from `earlier` to this instant, or `None` if `earlier` is
    /// later than this one.
    pub fn checked_cycles_since(&self, earlier: Instant) -> (r: Option<u64>)
        ensures
            r == (if earlier.cycles() <= self.cycles() {
                Some((self.cycles() - earlier.cycles()) as u64)
            } else {
                None
            }),
    {
        self.0.checked_sub(earlier.0)
    }

    /// The cycles from `earlier` to this instant, with "no measurement"
    /// counted as zero.
    pub fn cycles_since(&self, earlier: Instant) -> (r: u64)
        ensures
            r == self.elapsed_since(earlier),
    {
        match self.0.checked_sub(earlier.0) {
            Some(cycles) => cycles,
            None => 0,
        }
    }

    /// The whole nanoseconds from `earlier` to this instant, or `None` if
    /// `earlier` is later than this one.
    pub fn checked_nanos_since(&self, earlier: Instant, clock: &CycleClock) -> (r: Option<u64>)
        ensures
            r == (if earlier.cycles() <= self.cycles() {
                Some(saturate_u64(clock.nanos((self.cycles() - earlier.cycles()) as nat)))
            } else {
                None
            }),
    {
        match self.0.checked_sub(earlier.0) {
            Some(cycles) => Some(convert_cycles_to_ns(clock, cycles)),
            None => None,
        }
    }

    /// The duration from `earlier` to this instant, or `None` if `earlier` is
    /// later than this one.
    pub fn checked_duration_since(&self, earlier: Instant, clock: &CycleClock) -> (r: Option<
        Duration,
    >)
        ensures
            r == (if earlier.cycles() <= self.cycles() {
                Some(
                    duration_from_nanos(
                        saturate_u64(clock.nanos((self.cycles() - earlier.cycles()) as nat)),
                    ),
                )
            } else {
                None
            }),
    {
        match self.0.checked_sub(earlier.0) {
            Some(cycles) => Some(convert_cycles_to_duration(clock, cycles)),
            None => None,
        }
    }
}

} // verus!
