//! The fixed-timestep accumulator: the host loop reports how much wall-clock
//! time each rendered frame took, and the accumulator says how many fixed
//! simulation ticks of duration `1 / rate` seconds are due, carrying the
//! leftover fraction of a tick to the next frame. Time is accumulated in
//! rate-scaled nanoseconds (elapsed nanoseconds times the tick rate), so a
//! whole tick is exactly `NANOS_PER_SECOND` accumulator units and no
//! fraction is ever rounded away.

use vstd::arithmetic::div_mod::lemma_fundamental_div_mod;
use vstd::arithmetic::div_mod::lemma_fundamental_div_mod_converse;
use vstd::prelude::*;

verus! {

/// Accumulator units per fixed tick: one second of rate-scaled nanoseconds.
pub const NANOS_PER_SECOND: u64 = 1_000_000_000;

/// A fixed-timestep accumulator for a tick rate of `rate` ticks per second.
#[derive(Clone, Copy, Debug, PartialEq, Eq, Structural)]
pub struct FixedTimestep {
    /// Fixed ticks per second of simulated time; constant after creation.
    pub rate: u32,
    /// Leftover rate-scaled nanoseconds, always less than one tick's worth.
    pub carry: u64,
}

impl FixedTimestep {
    /// The tick rate is positive and the leftover is less than one tick.
    pub open spec fn wf(self) -> bool {
        self.rate > 0 && self.carry < NANOS_PER_SECOND
    }

    /// A fresh accumulator with no time owed.
    pub fn new(rate: u32) -> (t: FixedTimestep)
        requires
            rate > 0,
        ensures
            t == (FixedTimestep { rate, carry: 0u64 }),
            t.wf(),
    {
        FixedTimestep { rate, carry: 0 }
    }

    /// Feeds one rendered frame's wall-clock duration and returns how many
    /// fixed ticks are due: the whole ticks in the accumulated time, the
    /// rest staying as carry. A short frame may owe zero ticks and a long
    /// one several — the simulated time drained always equals the wall-clock
    /// time fed, to the nanosecond.
    pub fn advance(&mut self, elapsed_nanos: u64) -> (ticks: u64)
        requires
            old(self).wf(),
            old(self).carry + elapsed_nanos * old(self).rate <= u64::MAX,
        ensures
            final(self).wf(),
            final(self).rate == old(self).rate,
            ticks == (old(self).carry + elapsed_nanos * old(self).rate) / (
            NANOS_PER_SECOND as int),
            final(self).carry == (old(self).carry + elapsed_nanos * old(self).rate) % (
            NANOS_PER_SECOND as int),
    {
        let scaled: u64 = elapsed_nanos * (self.rate as u64);
        let total: u64 = self.carry + scaled;
        let ticks: u64 = total / NANOS_PER_SECOND;
        self.carry = total % NANOS_PER_SECOND;
        ticks
    }
}

/// Law: how the elapsed time is split over rendered frames does not matter.
/// Draining an accumulator with leftover `carry` in two frames worth `a`
/// and `b` rate-scaled nanoseconds yields the same total number of ticks,
/// and the same final leftover, as draining `a + b` in one frame.
pub proof fn law_frame_split_equivalent(carry: int, a: int, b: int)
    requires
        0 <= carry < NANOS_PER_SECOND,
        0 <= a,
        0 <= b,
    ensures
        ({
            let n = NANOS_PER_SECOND as int;
            let ticks_first = (carry + a) / n;
            let carry_first = (carry + a) % n;
            let ticks_second = (carry_first + b) / n;
            let carry_second = (carry_first + b) % n;
            &&& ticks_first + ticks_second == (carry + a + b) / n
            &&& carry_second == (carry + a + b) % n
        }),
{
    let n = NANOS_PER_SECOND as int;
    let ticks_first = (carry + a) / n;
    let carry_first = (carry + a) % n;
    let ticks_second = (carry_first + b) / n;
    let carry_second = (carry_first + b) % n;
    lemma_fundamental_div_mod(carry + a, n);
    lemma_fundamental_div_mod(carry_first + b, n);
    assert(carry + a + b == (ticks_first + ticks_second) * n + carry_second) by {
        assert(carry + a == n * ticks_first + carry_first);
        assert(carry_first + b == n * ticks_second + carry_second);
        assert((ticks_first + ticks_second) * n == n * ticks_first + n * ticks_second)
            by (nonlinear_arith);
    }
    lemma_fundamental_div_mod_converse(
        carry + a + b,
        n,
        ticks_first + ticks_second,
        carry_second,
    );
}

} // verus!
