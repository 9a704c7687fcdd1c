//! The chained pair of 16-bit hardware counters, as a model: what the reset
//! plan does to them and how they advance with each tick.

use vstd::prelude::*;
use crate::instant::composite;

verus! {

/// One of the two chained counters.
#[derive(Clone, Copy, Debug, PartialEq, Eq, Structural)]
pub enum Counter {
    /// The counter clocked by the low counter's overflow.
    High,
    /// The counter clocked by the timer clock.
    Low,
}

/// A register operation on one counter.
#[derive(Clone, Copy, Debug, PartialEq, Eq, Structural)]
pub enum CounterOp {
    /// Clear the enable bit: the counter stops counting.
    Pause(Counter),
    /// Write zero to the count register.
    Clear(Counter),
    /// Set the enable bit: the counter counts again.
    Resume(Counter),
}

/// The state of the two counters: their counts and enable bits.
#[derive(Clone, Copy, Debug, PartialEq, Eq, Structural)]
pub struct CounterPair {
    pub high: u16,
    pub low: u16,
    pub high_running: bool,
    pub low_running: bool,
}

/// The six steps that reset the counter pair: pause both, clear both, resume
/// both, high counter first at each stage.
pub open spec fn reset_plan() -> Seq<CounterOp> {
    seq![
        CounterOp::Pause(Counter::High),
        CounterOp::Pause(Counter::Low),
        CounterOp::Clear(Counter::High),
        CounterOp::Clear(Counter::Low),
        CounterOp::Resume(Counter::High),
        CounterOp::Resume(Counter::Low),
    ]
}

impl CounterPair {
    /// The state after performing `op`.
    pub open spec fn spec_apply(self, op: CounterOp) -> CounterPair {
        match op {
            CounterOp::Pause(Counter::High) => CounterPair { high_running: false, ..self },
            CounterOp::Pause(Counter::Low) => CounterPair { low_running: false, ..self },
            CounterOp::Clear(Counter::High) => CounterPair { high: 0, ..self },
            CounterOp::Clear(Counter::Low) => CounterPair { low: 0, ..self },
            CounterOp::Resume(Counter::High) => CounterPair { high_running: true, ..self },
            CounterOp::Resume(Counter::Low) => CounterPair { low_running: true, ..self },
        }
    }

    /// The state after performing each of `ops` in order.
    pub open spec fn spec_run(self, ops: Seq<CounterOp>) -> CounterPair
        decreases ops.len(),
    {
        if ops.len() == 0 {
            self
        } else {
            self.spec_apply(ops[0]).spec_run(ops.drop_first())
        }
    }

    /// The state after one tick of the timer clock. A running low counter
    /// counts up; on its overflow it wraps to zero and clocks the high
    /// counter, which counts up (wrapping) if it is running.
    pub open spec fn spec_tick(self) -> CounterPair {
        if !self.low_running {
            self
        } else if self.low < 0xFFFF {
            CounterPair { low: (self.low + 1) as u16, ..self }
        } else if !self.high_running {
            CounterPair { low: 0, ..self }
        } else {
            CounterPair { low: 0, high: ((self.high + 1) % 0x10000) as u16, ..self }
        }
    }

    /// The state after `n` ticks of the timer clock.
    pub open spec fn spec_ticks(self, n: nat) -> CounterPair
        decreases n,
    {
        if n == 0 {
            self
        } else {
            self.spec_ticks((n - 1) as nat).spec_tick()
        }
    }

    /// The 32-bit value that the two counts stand for.
    pub open spec fn value(self) -> int {
        composite(self.high, self.low)
    }

    /// Performs `op` on the counters.
    pub fn apply(&mut self, op: CounterOp)
        ensures
            *final(self) == old(self).spec_apply(op),
    {
        match op {
            CounterOp::Pause(Counter::High) => self.high_running = false,
            CounterOp::Pause(Counter::Low) => self.low_running = false,
            CounterOp::Clear(Counter::High) => self.high = 0,
            CounterOp::Clear(Counter::Low) => self.low = 0,
            CounterOp::Resume(Counter::High) => self.high_running = true,
            CounterOp::Resume(Counter::Low) => self.low_running = true,
        }
    }

    /// Advances the counters by one tick of the timer clock.
    pub fn tick(&mut self)
        ensures
            *final(self) == old(self).spec_tick(),
    {
        if !self.low_running {
        } else if self.low < 0xFFFF {
            self.low = self.low + 1;
        } else {
            self.low = 0;
            if self.high_running {
                self.high = self.high.wrapping_add(1);
            }
        }
    }
}

/// With both counters running, fewer than 2^16 ticks move the low count
/// forward and carry into the high count at most once.
proof fn lemma_ticks_within_period(s: CounterPair, n: nat)
    requires
        s.high_running,
        s.low_running,
        n < 0x10000,
    ensures
        s.spec_ticks(n).high_running,
        s.spec_ticks(n).low_running,
        s.low + n < 0x10000 ==> s.spec_ticks(n).high == s.high,
        s.low + n < 0x10000 ==> s.spec_ticks(n).low == s.low + n,
        s.low + n >= 0x10000 ==> s.spec_ticks(n).high == (s.high + 1) % 0x10000,
        s.low + n >= 0x10000 ==> s.spec_ticks(n).low == s.low + n - 0x10000,
    decreases n,
{
    if n > 0 {
        lemma_ticks_within_period(s, (n - 1) as nat);
    }
}

/// Performing the reset plan from any state leaves both counts at zero and
/// both counters running.
pub proof fn lemma_reset_zeroes(s: CounterPair)
    ensures
        s.spec_run(reset_plan()) == (CounterPair {
            high: 0,
            low: 0,
            high_running: true,
            low_running: true,
        }),
{
    let p = reset_plan();
    reveal_with_fuel(CounterPair::spec_run, 7);
    assert(p.drop_first() =~= seq![p[1], p[2], p[3], p[4], p[5]]);
    assert(p.drop_first().drop_first() =~= seq![p[2], p[3], p[4], p[5]]);
    assert(p.drop_first().drop_first().drop_first() =~= seq![p[3], p[4], p[5]]);
    assert(p.drop_first().drop_first().drop_first().drop_first() =~= seq![p[4], p[5]]);
    assert(p.drop_first().drop_first().drop_first().drop_first().drop_first() =~= seq![p[5]]);
    assert(p.drop_first().drop_first().drop_first().drop_first().drop_first().drop_first()
        =~= Seq::<CounterOp>::empty());
}

/// A read accepted by the tearing check is never torn. The high counter is
/// read in state `s`, the low counter `first` ticks later, and the high
/// counter again `second` ticks after that, all within one period of the low
/// counter. If the two high reads agree, the composite of the second high
/// read and the low read is the value the counters held when the low counter
/// was read.
pub proof fn lemma_accepted_read_not_torn(s: CounterPair, first: nat, second: nat)
    requires
        s.high_running,
        s.low_running,
        first + second < 0x10000,
        s.high == s.spec_ticks(first + second).high,
    ensures
        composite(s.spec_ticks(first + second).high, s.spec_ticks(first).low)
            == s.spec_ticks(first).value(),
{
    lemma_ticks_within_period(s, first);
    lemma_ticks_within_period(s, first + second);
}

/// A read during which the low counter overflows is rejected: the two reads
/// of the high counter disagree.
pub proof fn lemma_overflowing_read_rejected(s: CounterPair, first: nat, second: nat)
    requires
        s.high_running,
        s.low_running,
        first + second < 0x10000,
        s.low + first + second >= 0x10000,
    ensures
        s.high != s.spec_ticks(first + second).high,
{
    lemma_ticks_within_period(s, first + second);
}

/// After the reset plan, a read whose three register reads all fall within
/// the first 2^16 ticks is accepted, and its composite is the number of ticks
/// that passed before the low counter was read.
pub proof fn lemma_read_after_reset(s: CounterPair, first: nat, second: nat)
    requires
        first + second < 0x10000,
    ensures
        ({
            let z = s.spec_run(reset_plan());
            &&& z.spec_ticks(first + second).high == z.high
            &&& composite(z.spec_ticks(first + second).high, z.spec_ticks(first).low) == first
        }),
{
    lemma_reset_zeroes(s);
    let z = s.spec_run(reset_plan());
    lemma_ticks_within_period(z, first);
    lemma_ticks_within_period(z, first + second);
}

} // verus!
