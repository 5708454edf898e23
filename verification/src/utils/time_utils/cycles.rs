//! The cycle clock: the calibrated rate of the cycle counter, and the
//! conversion between cycle counts and absolute time.
//!
//! The rate is kept as a whole number of cycles per second, and every
//! conversion is integer arithmetic on it, rounded down.
use core::time::Duration;
use vstd::prelude::*;

verus! {

/// Nanoseconds in one second.
pub const NANOS_PER_SEC: u64 = 1_000_000_000;

/// A sampling window must be longer than this many nanoseconds before its
/// readings are turned into a rate.
pub const CALIBRATION_WINDOW_NANOS: u128 = 10_000_000;

/// Two successive estimates agree when they differ by less than one part in
/// this many.
pub const CALIBRATION_TOLERANCE: u64 = 100_000;

/// The number of sampling windows after which calibration settles for the
/// latest estimate.
pub const CALIBRATION_MAX_ROUNDS: u32 = 64;

/// The duration that `Duration::from_nanos` builds from a nanosecond count.
pub uninterp spec fn duration_from_nanos(nanos: u64) -> Duration;

/// `Duration::from_nanos` of the standard library, which makes the duration
/// of `nanos` nanoseconds. Believed without proof, and only this much: the
/// result is a function of `nanos` alone, the one that `duration_from_nanos`
/// names.
pub assume_specification[ Duration::from_nanos ](nanos: u64) -> (d: Duration)
    ensures
        d == duration_from_nanos(nanos),
;

/// The calibrated rate of the cycle counter, in cycles per second.
#[derive(Debug, Clone, Copy, PartialEq, Eq)]
pub struct CycleClock {
    cycles_per_sec: u64,
}

impl CycleClock {
    /// Every clock ticks: its rate is at least one cycle per second.
    #[verifier::type_invariant]
    spec fn positive_rate(self) -> bool {
        self.cycles_per_sec >= 1
    }

    /// The rate of the clock, in cycles per second.
    pub closed spec fn rate(self) -> nat {
        self.cycles_per_sec as nat
    }

    /// The nanoseconds that `cycles` cycles take, rounded down.
    pub open spec fn nanos(self, cycles: nat) -> nat {
        cycles * (NANOS_PER_SEC as nat) / self.rate()
    }

    /// The thousands of nanoseconds that `cycles` cycles take, rounded down.
    pub open spec fn nanos_in_thousands(self, cycles: nat) -> nat {
        cycles * (NANOS_PER_SEC as nat) / (self.rate() * 1000)
    }

    /// A clock of the given rate; there is none of rate zero.
    pub fn new(cycles_per_sec: u64) -> (r: Option<CycleClock>)
        ensures
            cycles_per_sec == 0 <==> r is None,
            r matches Some(clock) ==> clock.rate() == cycles_per_sec,
    {
        if cycles_per_sec == 0 {
            None
        } else {
            Some(CycleClock { cycles_per_sec })
        }
    }

    /// The rate of the clock, in cycles per second.
    pub fn per_sec(&self) -> (r: u64)
        ensures
            r == self.rate(),
            r >= 1,
    {
        proof {
            use_type_invariant(self);
        }
        self.cycles_per_sec
    }
}

/// A `nat` cut off at the largest `u64`.
pub open spec fn saturate_u64(n: nat) -> u64 {
    if n <= u64::MAX {
        n as u64
    } else {
        u64::MAX
    }
}

/// Converts a cycle count to whole nanoseconds, rounded down; a count of
/// nanoseconds beyond `u64::MAX` gives `u64::MAX`.
pub fn convert_cycles_to_ns(clock: &CycleClock, cycles: u64) -> (ns: u64)
    ensures
        ns == saturate_u64(clock.nanos(cycles as nat)),
{
    let rate: u64 = clock.per_sec();
    let product: u128 = (cycles as u128) * (NANOS_PER_SEC as u128);
    let nanos: u128 = product / (rate as u128);
    if nanos > u64::MAX as u128 {
        u64::MAX
    } else {
        nanos as u64
    }
}

/// Converts a cycle count to thousands of nanoseconds, rounded down.
pub fn convert_cycles_to_ms(clock: &CycleClock, cycles: u64) -> (ms: u64)
    ensures
        ms == saturate_u64(clock.nanos_in_thousands(cycles as nat)),
{
    let rate: u64 = clock.per_sec();
    let product: u128 = (cycles as u128) * (NANOS_PER_SEC as u128);
    let divisor: u128 = (rate as u128) * 1000;
    let thousands: u128 = product / divisor;
    if thousands > u64::MAX as u128 {
        u64::MAX
    } else {
        thousands as u64
    }
}

/// Converts a cycle count to the `Duration` of its whole nanoseconds.
pub fn convert_cycles_to_duration(clock: &CycleClock, cycles: u64) -> (d: Duration)
    ensures
        d == duration_from_nanos(saturate_u64(clock.nanos(cycles as nat))),
{
    Duration::from_nanos(convert_cycles_to_ns(clock, cycles))
}

/// Whether a sampling window that has lasted `nanos` nanoseconds is long
/// enough for its readings to be turned into a rate.
pub fn window_elapsed(nanos: u128) -> (r: bool)
    ensures
        r == (nanos > CALIBRATION_WINDOW_NANOS),
{
    nanos > CALIBRATION_WINDOW_NANOS
}

/// The rate, in cycles per second and rounded down, of a counter that went
/// through `cycles` cycles in `nanos` nanoseconds.
pub open spec fn rate_of(cycles: u64, nanos: u128) -> nat {
    (cycles as nat * NANOS_PER_SEC as nat / nanos as nat) as nat
}

/// The rate that a sampling window shows: see `rate_of`; a rate beyond
/// `u64::MAX` gives `u64::MAX`.
pub fn estimate_rate(cycles: u64, nanos: u128) -> (rate: u64)
    requires
        nanos > 0,
    ensures
        rate == saturate_u64(rate_of(cycles, nanos)),
{
    let product: u128 = (cycles as u128) * (NANOS_PER_SEC as u128);
    let rate: u128 = product / nanos;
    if rate > u64::MAX as u128 {
        u64::MAX
    } else {
        rate as u64
    }
}

/// Whether two successive estimates agree: they differ by less than one part
/// in `CALIBRATION_TOLERANCE` of the later one.
pub open spec fn estimates_agree(earlier: u64, later: u64) -> bool {
    let delta = if later >= earlier {
        later - earlier
    } else {
        earlier - later
    };
    delta * CALIBRATION_TOLERANCE < later
}

/// Whether two successive estimates agree.
pub fn converged(earlier: u64, later: u64) -> (r: bool)
    ensures
        r == estimates_agree(earlier, later),
{
    let delta: u64 = if later >= earlier {
        later - earlier
    } else {
        earlier - later
    };
    assert(delta * CALIBRATION_TOLERANCE <= u64::MAX * CALIBRATION_TOLERANCE) by (nonlinear_arith)
        requires
            delta <= u64::MAX,
    ;
    let scaled: u128 = (delta as u128) * (CALIBRATION_TOLERANCE as u128);
    scaled < later as u128
}

/// The calibration of the clock as it proceeds: one sampling window after
/// the other is turned into an estimate of the rate, until two successive
/// estimates agree or the windows run out.
#[derive(Debug, Clone, Copy, PartialEq, Eq)]
pub struct Calibration {
    /// The estimate of the window before, zero before the first.
    pub last_rate: u64,
    /// The number of windows taken so far.
    pub rounds: u32,
}

impl Default for Calibration {
    fn default() -> (r: Self)
        ensures
            r == (Calibration { last_rate: 0, rounds: 0 }),
    {
        Calibration { last_rate: 0, rounds: 0 }
    }
}

impl Calibration {
    /// Whether a window that shows `rate` ends the calibration: the rate
    /// agrees with the one before, or this is the last window allowed.
    pub open spec fn settles_on(self, rate: u64) -> bool {
        estimates_agree(self.last_rate, rate) || self.rounds + 1 >= CALIBRATION_MAX_ROUNDS
    }

    /// Takes the readings of one sampling window, which must be long enough
    /// for `window_elapsed`: the counter went through `cycles` cycles in
    /// `nanos` nanoseconds. Where that ends the calibration, the clock of
    /// the estimated rate is returned, of one cycle per second if the
    /// estimate is zero; where it does not, the estimate is kept for the
    /// next window and `None` is returned.
    pub fn step(&mut self, cycles: u64, nanos: u128) -> (clock: Option<CycleClock>)
        requires
            nanos > CALIBRATION_WINDOW_NANOS,
        ensures
            clock is Some <==> old(self).settles_on(saturate_u64(rate_of(cycles, nanos))),
            clock matches Some(c) ==> c.rate() == if rate_of(cycles, nanos) == 0 {
                1
            } else {
                saturate_u64(rate_of(cycles, nanos)) as nat
            },
            final(self).last_rate == saturate_u64(rate_of(cycles, nanos)),
            final(self).rounds == if old(self).rounds < u32::MAX {
                (old(self).rounds + 1) as u32
            } else {
                old(self).rounds
            },
    {
        let rate: u64 = estimate_rate(cycles, nanos);
        let settled: bool = converged(self.last_rate, rate) || self.rounds >= CALIBRATION_MAX_ROUNDS
            - 1;
        self.last_rate = rate;
        if self.rounds < u32::MAX {
            self.rounds = self.rounds + 1;
        }
        if settled {
            if rate == 0 {
                CycleClock::new(1)
            } else {
                CycleClock::new(rate)
            }
        } else {
            None
        }
    }
}

} // verus!
