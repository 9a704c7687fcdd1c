//! Points in time on the 32-bit monotonic tick count.

use vstd::prelude::*;
use core::cmp::Ordering;
use crate::duration::Duration;
use vstd::std_specs::cmp::PartialOrdSpec;
use vstd::std_specs::ops::SubSpec;

verus! {

/// Size of the 32-bit tick space; arithmetic on instants wraps modulo this.
pub open spec fn tick_space() -> int {
    0x1_0000_0000
}

/// The 32-bit value formed by a high and a low 16-bit counter reading.
pub open spec fn composite(high: u16, low: u16) -> int {
    high * 0x10000 + low
}

/// A measurement of the counter. Opaque, and useful only with `Duration`.
///
/// An `Instant` comes only from reading the clock or from arithmetic on
/// other instants and durations.
#[derive(Clone, Copy, Debug, PartialEq, Eq, Structural, Ord)]
pub struct Instant {
    inner: u32,
}

impl View for Instant {
    type V = u32;

    closed spec fn view(&self) -> u32 {
        self.inner
    }
}

impl Instant {
    /// The instant whose tick count is `ticks`.
    pub closed spec fn spec_from_ticks(ticks: u32) -> Instant {
        Instant { inner: ticks }
    }

    pub(crate) fn from_ticks(ticks: u32) -> (r: Instant)
        ensures
            r@ == ticks,
    {
        Instant { inner: ticks }
    }

    /// Decides one attempt of the tearing-safe read of the chained counters.
    ///
    /// `high` and `high_again` are two reads of the high counter taken before
    /// and after the read `low` of the low counter. When they agree, the low
    /// counter did not overflow in between and the attempt yields the
    /// composite instant; otherwise the sample may be torn and is rejected,
    /// and the caller reads all three registers again.
    pub fn from_counter_reads(high: u16, low: u16, high_again: u16) -> (r: Option<Instant>)
        ensures
            r.is_some() <==> high == high_again,
            r.is_some() ==> r.unwrap()@ == composite(high_again, low),
    {
        if high == high_again {
            let h: u32 = high_again as u32;
            let l: u32 = low as u32;
            let ticks: u32 = (h << 16u32) | l;
            assert(((h << 16u32) | l) == h * 0x10000 + l) by (bit_vector)
                requires
                    h < 0x10000,
                    l < 0x10000,
            ;
            Some(Instant { inner: ticks })
        } else {
            None
        }
    }

    /// Returns the underlying count.
    pub fn counts(&self) -> (r: u32)
        ensures
            r == self@,
    {
        self.inner
    }

    /// Returns the amount of time from `earlier` to this instant.
    ///
    /// `earlier` must lie strictly before `self`; instants passed out of
    /// order, or more than a wrap apart, are a caller error.
    pub fn duration_since(&self, earlier: Instant) -> (r: Duration)
        requires
            earlier@ < self@,
        ensures
            r@ == self@ - earlier@,
    {
        Duration::from_cycles(self.inner - earlier.inner)
    }

    /// Returns the time elapsed from this instant until `now`, a reading of
    /// the clock taken after it.
    pub fn elapsed(&self, now: Instant) -> (r: Duration)
        requires
            self@ < now@,
        ensures
            r@ == now@ - self@,
    {
        now - *self
    }
}

impl PartialOrd for Instant {
    /// Raw comparison of the tick counts; not aware of wraparound.
    fn partial_cmp(&self, other: &Instant) -> (r: Option<Ordering>) {
        if self.inner < other.inner {
            Some(Ordering::Less)
        } else if self.inner == other.inner {
            Some(Ordering::Equal)
        } else {
            Some(Ordering::Greater)
        }
    }
}

impl vstd::std_specs::cmp::PartialOrdSpecImpl for Instant {
    open spec fn obeys_partial_cmp_spec() -> bool {
        true
    }

    open spec fn partial_cmp_spec(&self, other: &Instant) -> Option<Ordering> {
        if self@ < other@ {
            Some(Ordering::Less)
        } else if self@ == other@ {
            Some(Ordering::Equal)
        } else {
            Some(Ordering::Greater)
        }
    }
}

impl core::ops::Add<Duration> for Instant {
    type Output = Instant;

    /// Wrapping addition: deadlines stay representable near the wrap point.
    fn add(self, d: Duration) -> (r: Instant)
        ensures
            r@ == (self@ + d@) % tick_space(),
    {
        Instant { inner: self.inner.wrapping_add(d.as_cycles()) }
    }
}

impl vstd::std_specs::ops::AddSpecImpl<Duration> for Instant {
    open spec fn obeys_add_spec() -> bool {
        true
    }

    open spec fn add_req(self, d: Duration) -> bool {
        true
    }

    open spec fn add_spec(self, d: Duration) -> Instant {
        Instant::spec_from_ticks(((self@ + d@) % tick_space()) as u32)
    }
}

impl core::ops::AddAssign<Duration> for Instant {
    fn add_assign(&mut self, d: Duration)
        ensures
            final(self)@ == (old(self)@ + d@) % tick_space(),
    {
        self.inner = self.inner.wrapping_add(d.as_cycles());
    }
}

impl core::ops::Sub<Duration> for Instant {
    type Output = Instant;

    /// Wrapping subtraction.
    fn sub(self, d: Duration) -> (r: Instant)
        ensures
            r@ == (self@ - d@) % tick_space(),
    {
        Instant { inner: self.inner.wrapping_sub(d.as_cycles()) }
    }
}

impl vstd::std_specs::ops::SubSpecImpl<Duration> for Instant {
    open spec fn obeys_sub_spec() -> bool {
        true
    }

    open spec fn sub_req(self, d: Duration) -> bool {
        true
    }

    open spec fn sub_spec(self, d: Duration) -> Instant {
        Instant::spec_from_ticks(((self@ - d@) % tick_space()) as u32)
    }
}

impl core::ops::SubAssign<Duration> for Instant {
    fn sub_assign(&mut self, d: Duration)
        ensures
            final(self)@ == (old(self)@ - d@) % tick_space(),
    {
        self.inner = self.inner.wrapping_sub(d.as_cycles());
    }
}

impl core::ops::Sub<Instant> for Instant {
    type Output = Duration;

    /// The duration from `earlier` to `self`; see `duration_since`.
    fn sub(self, earlier: Instant) -> (r: Duration)
        ensures
            r@ == self@ - earlier@,
    {
        let r = self.duration_since(earlier);
        proof {
            let expected = Duration::spec_from_ticks((self@ - earlier@) as u32);
            Duration::lemma_from_ticks_view((self@ - earlier@) as u32);
            Duration::lemma_view_determines(r, expected);
        }
        r
    }
}

impl vstd::std_specs::ops::SubSpecImpl<Instant> for Instant {
    open spec fn obeys_sub_spec() -> bool {
        true
    }

    open spec fn sub_req(self, earlier: Instant) -> bool {
        earlier@ < self@
    }

    open spec fn sub_spec(self, earlier: Instant) -> Duration {
        Duration::spec_from_ticks((self@ - earlier@) as u32)
    }
}

/// The difference of two instants, the later one first, counts exactly the
/// ticks between them.
pub proof fn lemma_difference_counts(later: Instant, earlier: Instant)
    requires
        earlier@ < later@,
    ensures
        later.sub_req(earlier),
        later.sub_spec(earlier)@ == later@ - earlier@,
{
    Duration::lemma_from_ticks_view((later@ - earlier@) as u32);
}

/// The difference `a - b` of two instants, and `a.duration_since(b)`, is
/// defined exactly when `b` lies strictly before `a`: equal instants, or
/// instants in the wrong order, are refused.
pub proof fn lemma_difference_defined(a: Instant, b: Instant)
    ensures
        a.sub_req(b) <==> b@ < a@,
{
}

/// Instants are ordered as their raw tick counts are.
pub proof fn lemma_order_mirrors_ticks(a: Instant, b: Instant)
    ensures
        a.partial_cmp_spec(&b) == Some(Ordering::Less) <==> a@ < b@,
        a.partial_cmp_spec(&b) == Some(Ordering::Equal) <==> a@ == b@,
        a.partial_cmp_spec(&b) == Some(Ordering::Greater) <==> a@ > b@,
{
}

} // verus!
