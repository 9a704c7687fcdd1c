//! Spans of time counted in raw clock ticks.

use vstd::prelude::*;
use vstd::std_specs::ops::AddSpec;

verus! {

/// A span of time, in ticks of the monotonic clock.
#[derive(Clone, Copy, Debug, PartialEq, Eq, Structural, PartialOrd, Ord)]
pub struct Duration {
    inner: u32,
}

impl View for Duration {
    type V = u32;

    closed spec fn view(&self) -> u32 {
        self.inner
    }
}

impl Duration {
    /// The duration of exactly `ticks` ticks.
    pub closed spec fn spec_from_ticks(ticks: u32) -> Duration {
        Duration { inner: ticks }
    }

    /// The duration built from `ticks` counts exactly `ticks`.
    pub proof fn lemma_from_ticks_view(ticks: u32)
        ensures
            Duration::spec_from_ticks(ticks)@ == ticks,
    {
    }

    /// Two durations with the same tick count are the same duration.
    pub proof fn lemma_view_determines(a: Duration, b: Duration)
        requires
            a@ == b@,
        ensures
            a == b,
    {
    }

    /// Creates a new `Duration` from the specified number of clock cycles.
    pub fn from_cycles(cycles: u32) -> (r: Duration)
        ensures
            r@ == cycles,
            r == Duration::spec_from_ticks(cycles),
    {
        Duration { inner: cycles }
    }

    /// Returns the total number of clock cycles contained by this `Duration`.
    pub fn as_cycles(&self) -> (r: u32)
        ensures
            r == self@,
    {
        self.inner
    }
}

impl Default for Duration {
    /// The empty span.
    fn default() -> (r: Duration)
        ensures
            r@ == 0,
    {
        Duration { inner: 0 }
    }
}

impl From<Duration> for u32 {
    /// The raw tick count, as programmed into a compare register.
    fn from(d: Duration) -> (r: u32) {
        d.inner
    }
}

impl vstd::std_specs::convert::FromSpecImpl<Duration> for u32 {
    open spec fn obeys_from_spec() -> bool {
        true
    }

    open spec fn from_spec(d: Duration) -> u32 {
        d@
    }
}

impl core::ops::Add for Duration {
    type Output = Duration;

    /// Non-wrapping addition: the sum must fit in 32 bits.
    fn add(self, other: Duration) -> (r: Duration)
        ensures
            r@ == self@ + other@,
    {
        Duration { inner: self.inner + other.inner }
    }
}

impl vstd::std_specs::ops::AddSpecImpl for Duration {
    open spec fn obeys_add_spec() -> bool {
        true
    }

    open spec fn add_req(self, other: Duration) -> bool {
        self@ + other@ <= u32::MAX
    }

    open spec fn add_spec(self, other: Duration) -> Duration {
        Duration::spec_from_ticks((self@ + other@) as u32)
    }
}

impl core::ops::AddAssign for Duration {
    fn add_assign(&mut self, other: Duration)
        requires
            old(self)@ + other@ <= u32::MAX,
        ensures
            final(self)@ == old(self)@ + other@,
    {
        self.inner = self.inner + other.inner;
    }
}

impl core::ops::Sub for Duration {
    type Output = Duration;

    /// Non-wrapping subtraction: `other` must not exceed `self`.
    fn sub(self, other: Duration) -> (r: Duration)
        ensures
            r@ == self@ - other@,
    {
        Duration { inner: self.inner - other.inner }
    }
}

impl vstd::std_specs::ops::SubSpecImpl for Duration {
    open spec fn obeys_sub_spec() -> bool {
        true
    }

    open spec fn sub_req(self, other: Duration) -> bool {
        other@ <= self@
    }

    open spec fn sub_spec(self, other: Duration) -> Duration {
        Duration::spec_from_ticks((self@ - other@) as u32)
    }
}

impl core::ops::SubAssign for Duration {
    fn sub_assign(&mut self, other: Duration)
        requires
            other@ <= old(self)@,
        ensures
            final(self)@ == old(self)@ - other@,
    {
        self.inner = self.inner - other.inner;
    }
}

impl core::ops::Mul<u32> for Duration {
    type Output = Duration;

    /// `self` added to itself `times` times: the product must fit in 32 bits.
    fn mul(self, times: u32) -> (r: Duration)
        ensures
            r@ == self@ * times,
    {
        Duration { inner: self.inner * times }
    }
}

impl vstd::std_specs::ops::MulSpecImpl<u32> for Duration {
    open spec fn obeys_mul_spec() -> bool {
        true
    }

    open spec fn mul_req(self, times: u32) -> bool {
        self@ * times <= u32::MAX
    }

    open spec fn mul_spec(self, times: u32) -> Duration {
        Duration::spec_from_ticks((self@ * times) as u32)
    }
}

impl core::ops::MulAssign<u32> for Duration {
    fn mul_assign(&mut self, times: u32)
        requires
            old(self)@ * times <= u32::MAX,
        ensures
            final(self)@ == old(self)@ * times,
    {
        *self = *self * times;
    }
}

/// The sum of two durations is defined exactly when their tick counts add up
/// to at most `u32::MAX`, and then counts the ticks of both.
pub proof fn lemma_sum_cycles(d1: Duration, d2: Duration)
    ensures
        d1.add_req(d2) <==> d1@ + d2@ <= u32::MAX,
        d1.add_req(d2) ==> d1.add_spec(d2)@ == d1@ + d2@,
{
}

} // verus!
