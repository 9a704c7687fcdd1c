//! The monotonic clock bound to the linked TIM2/TIM3 counter pair.

use vstd::prelude::*;
use crate::counters::{reset_plan, Counter, CounterOp};
use crate::instant::Instant;

verus! {

/// A ratio between two tick domains.
#[derive(Clone, Copy, Debug, PartialEq, Eq, Structural)]
pub struct Fraction {
    pub numerator: u32,
    pub denominator: u32,
}

impl Fraction {
    /// `ticks` carried into the other domain: multiplied by the numerator and
    /// divided by the denominator.
    pub open spec fn convert(self, ticks: int) -> int {
        ticks * self.numerator / self.denominator as int
    }
}

/// The ratio of the monotonic clock to the system clock: both run at the
/// same frequency.
pub open spec fn clock_ratio() -> Fraction {
    Fraction { numerator: 1, denominator: 1 }
}

/// The monotonic clock built from TIM2 (low 16 bits) and TIM3 (high 16 bits),
/// with TIM2's overflow clocking TIM3.
///
/// It holds no state: the count lives in the two counter registers. Binding
/// the timer pair to the clock consumes it, so the counters cannot be
/// reconfigured afterwards.
#[derive(Clone, Copy, Debug)]
pub struct LinkedTim2Tim3;

impl LinkedTim2Tim3 {
    /// The ratio between one monotonic tick and one system-clock tick:
    /// `monotonic * ratio = system clock`.
    pub fn ratio() -> (r: Fraction)
        ensures
            r == clock_ratio(),
    {
        Fraction { numerator: 1, denominator: 1 }
    }

    /// The instant whose tick count is zero.
    pub fn zero() -> (r: Instant)
        ensures
            r@ == 0,
    {
        Instant::from_ticks(0)
    }

    /// The register operations that reset the counters to zero, in the order
    /// they must be performed: pause both, clear both, resume both.
    ///
    /// The scheduler performs them exactly once, after start-up and before
    /// any task runs, and never while the clock is being read.
    pub fn reset_sequence() -> (r: Vec<CounterOp>)
        ensures
            r@ == reset_plan(),
    {
        let r = vec![
            CounterOp::Pause(Counter::High),
            CounterOp::Pause(Counter::Low),
            CounterOp::Clear(Counter::High),
            CounterOp::Clear(Counter::Low),
            CounterOp::Resume(Counter::High),
            CounterOp::Resume(Counter::Low),
        ];
        assert(r@ =~= reset_plan());
        r
    }
}

/// The clock's ratio has a nonzero denominator and leaves every tick count
/// unchanged when converting between the two domains.
pub proof fn lemma_ratio_is_identity(ticks: int)
    ensures
        clock_ratio().denominator >= 1,
        clock_ratio().convert(ticks) == ticks,
{
}

} // verus!
