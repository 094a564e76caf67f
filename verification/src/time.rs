//! Time as the core sees it: milliseconds since the platform started, and
//! spans of time with nanosecond precision.

use vstd::prelude::*;

verus! {

pub const NANOS_PER_MILLI: u128 = 1_000_000;
pub const NANOS_PER_SEC: u128 = 1_000_000_000;
pub const MILLIS_PER_SEC: u64 = 1_000;
pub const SECS_PER_MIN: u64 = 60;
pub const SECS_PER_HOUR: u64 = 3_600;

/// The longest span a `Duration` can hold, in nanoseconds: `u64::MAX`
/// seconds and 999,999,999 nanoseconds.
pub open spec fn max_nanos() -> nat {
    u64::MAX as nat * NANOS_PER_SEC as nat + (NANOS_PER_SEC - 1) as nat
}

/// A span of time, with nanosecond precision, from zero to `u64::MAX`
/// seconds and 999,999,999 nanoseconds. Its view is its length in
/// nanoseconds.
#[derive(Clone, Copy, Debug, PartialEq, Eq, Structural, PartialOrd, Ord, Hash)]
pub struct Duration {
    nanos: u128,
}

impl View for Duration {
    type V = nat;

    closed spec fn view(&self) -> nat {
        self.nanos as nat
    }
}

impl Duration {
    #[verifier::type_invariant]
    spec fn bounded(self) -> bool {
        self.nanos <= max_nanos()
    }

    /// Two durations of the same length are the same duration.
    pub proof fn lemma_view_injective(a: Duration, b: Duration)
        ensures
            (a@ == b@) == (a == b),
    {
    }

    /// No time at all.
    pub fn zero() -> (d: Duration)
        ensures
            d@ == 0,
    {
        Duration { nanos: 0 }
    }

    /// The longest duration.
    pub fn max_value() -> (d: Duration)
        ensures
            d@ == max_nanos(),
    {
        Duration { nanos: 18_446_744_073_709_551_615_999_999_999 }
    }

    pub fn from_nanos(nanos: u64) -> (d: Duration)
        ensures
            d@ == nanos,
    {
        Duration { nanos: nanos as u128 }
    }

    pub fn from_millis(millis: u64) -> (d: Duration)
        ensures
            d@ == millis * NANOS_PER_MILLI,
    {
        Duration { nanos: millis as u128 * NANOS_PER_MILLI }
    }

    pub fn from_secs(secs: u64) -> (d: Duration)
        ensures
            d@ == secs * NANOS_PER_SEC,
    {
        Duration { nanos: secs as u128 * NANOS_PER_SEC }
    }

    /// `mins` minutes, which must fit in `u64::MAX` seconds.
    pub fn from_mins(mins: u64) -> (d: Duration)
        requires
            mins * SECS_PER_MIN <= u64::MAX,
        ensures
            d@ == mins * SECS_PER_MIN * NANOS_PER_SEC,
    {
        Duration::from_secs(mins * SECS_PER_MIN)
    }

    /// `hours` hours, which must fit in `u64::MAX` seconds.
    pub fn from_hours(hours: u64) -> (d: Duration)
        requires
            hours * SECS_PER_HOUR <= u64::MAX,
        ensures
            d@ == hours * SECS_PER_HOUR * NANOS_PER_SEC,
    {
        Duration::from_secs(hours * SECS_PER_HOUR)
    }

    pub fn as_nanos(&self) -> (n: u128)
        ensures
            n == self@,
            n <= max_nanos(),
    {
        proof {
            use_type_invariant(self);
        }
        self.nanos
    }

    /// The whole milliseconds in this duration.
    pub fn as_millis(&self) -> (n: u128)
        ensures
            n == self@ / NANOS_PER_MILLI as nat,
    {
        self.nanos / NANOS_PER_MILLI
    }

    /// The whole seconds in this duration.
    pub fn as_secs(&self) -> (n: u64)
        ensures
            n == self@ / NANOS_PER_SEC as nat,
    {
        proof {
            use_type_invariant(self);
        }
        (self.nanos / NANOS_PER_SEC) as u64
    }

    /// The nanoseconds past the whole seconds.
    pub fn subsec_nanos(&self) -> (n: u32)
        ensures
            n == self@ % NANOS_PER_SEC as nat,
    {
        (self.nanos % NANOS_PER_SEC) as u32
    }

    /// The sum, or `None` if it would be longer than the longest duration.
    pub fn checked_add(self, other: Duration) -> (r: Option<Duration>)
        ensures
            self@ + other@ <= max_nanos() ==> (r matches Some(d) && d@ == self@ + other@),
            self@ + other@ > max_nanos() ==> r is None,
    {
        proof {
            use_type_invariant(self);
            use_type_invariant(other);
        }
        let sum = self.nanos + other.nanos;
        if sum <= 18_446_744_073_709_551_615_999_999_999 {
            Some(Duration { nanos: sum })
        } else {
            None
        }
    }

    /// The difference, or `None` if `other` is longer.
    pub fn checked_sub(self, other: Duration) -> (r: Option<Duration>)
        ensures
            other@ <= self@ ==> (r matches Some(d) && d@ == self@ - other@),
            other@ > self@ ==> r is None,
    {
        proof {
            use_type_invariant(self);
        }
        if other.nanos <= self.nanos {
            Some(Duration { nanos: self.nanos - other.nanos })
        } else {
            None
        }
    }

    /// `n` times this duration, or the longest duration if that is longer.
    pub fn saturating_mul(self, n: u32) -> (r: Duration)
        ensures
            self@ * n <= max_nanos() ==> r@ == self@ * n,
            self@ * n > max_nanos() ==> r@ == max_nanos(),
    {
        proof {
            use_type_invariant(self);
            assert(self.nanos * n <= max_nanos() * u32::MAX) by (nonlinear_arith)
                requires
                    self.nanos <= max_nanos(),
                    n <= u32::MAX,
            ;
        }
        let product = self.nanos * n as u128;
        if product <= 18_446_744_073_709_551_615_999_999_999 {
            Duration { nanos: product }
        } else {
            Duration { nanos: 18_446_744_073_709_551_615_999_999_999 }
        }
    }

    /// This duration divided by `n`, rounded down, or `None` if `n` is zero.
    pub fn checked_div(self, n: u32) -> (r: Option<Duration>)
        ensures
            n != 0 ==> (r matches Some(d) && d@ == self@ / n as nat),
            n == 0 ==> r is None,
    {
        proof {
            use_type_invariant(self);
        }
        if n == 0 {
            None
        } else {
            let q = self.nanos / n as u128;
            proof {
                assert(q <= self.nanos) by (nonlinear_arith)
                    requires
                        q == self.nanos / n as u128,
                        n > 0,
                ;
            }
            Some(Duration { nanos: q })
        }
    }
}

/// The duration `n` nanoseconds long, for specifications.
pub closed spec fn span(n: nat) -> Duration {
    Duration { nanos: n as u128 }
}

/// The instant `ms` milliseconds after the platform started, for specifications.
pub closed spec fn at(ms: u64) -> Instant {
    Instant { ms }
}

pub broadcast proof fn lemma_span_view(n: nat)
    requires
        n <= max_nanos(),
    ensures
        #[trigger] span(n)@ == n,
{
}

pub broadcast proof fn lemma_span_of_view(d: Duration)
    ensures
        #[trigger] span(d@) == d,
{
}

pub broadcast proof fn lemma_at_view(ms: u64)
    ensures
        #[trigger] at(ms)@ == ms,
{
}

pub broadcast proof fn lemma_at_of_view(t: Instant)
    ensures
        #[trigger] at(t@) == t,
{
}

/// An optional instant as an optional count of milliseconds.
pub open spec fn opt_ms(t: Option<Instant>) -> Option<u64> {
    match t {
        Some(t) => Some(t@),
        None => None,
    }
}

pub broadcast group group_time {
    lemma_span_view,
    lemma_span_of_view,
    lemma_at_view,
    lemma_at_of_view,
}

/// `d` in whole milliseconds, saturating at `u64::MAX`.
pub open spec fn millis_of(d: Duration) -> u64 {
    if d@ / NANOS_PER_MILLI as nat > u64::MAX {
        u64::MAX
    } else {
        (d@ / NANOS_PER_MILLI as nat) as u64
    }
}

/// `d` in whole milliseconds, saturating at `u64::MAX`.
pub fn millis(d: Duration) -> (ms: u64)
    ensures
        ms == millis_of(d),
{
    let whole = d.as_millis();
    if whole > u64::MAX as u128 {
        u64::MAX
    } else {
        whole as u64
    }
}

/// Milliseconds since the platform started. Monotonic; a `u64` never wraps
/// in practice. There is deliberately no `Instant - Instant` operator: use
/// [`Instant::saturating_since`]. Its view is its count of milliseconds.
#[derive(Clone, Copy, Debug, Default, PartialEq, Eq, Structural, PartialOrd, Ord, Hash)]
pub struct Instant {
    ms: u64,
}

impl View for Instant {
    type V = u64;

    closed spec fn view(&self) -> u64 {
        self.ms
    }
}

/// `a + b`, saturating at `u64::MAX`.
pub open spec fn sat_add(a: u64, b: u64) -> u64 {
    if a + b > u64::MAX {
        u64::MAX
    } else {
        (a + b) as u64
    }
}

/// `t` moved `d` later, saturating at the latest instant.
pub open spec fn later(t: Instant, d: Duration) -> u64 {
    if t@ + millis_of(d) > u64::MAX {
        u64::MAX
    } else {
        (t@ + millis_of(d)) as u64
    }
}

impl Instant {
    /// Two instants with the same count of milliseconds are the same instant.
    pub proof fn lemma_view_injective(a: Instant, b: Instant)
        ensures
            (a@ == b@) == (a == b),
    {
    }

    /// The latest representable instant. Schedules saturate here.
    pub fn max_value() -> (t: Instant)
        ensures
            t@ == u64::MAX,
    {
        Instant { ms: u64::MAX }
    }

    pub fn from_millis(ms: u64) -> (t: Instant)
        ensures
            t@ == ms,
    {
        Instant { ms }
    }

    pub fn as_millis(self) -> (ms: u64)
        ensures
            ms == self@,
    {
        self.ms
    }

    /// Time elapsed since `earlier`, or zero if `earlier` is later.
    pub fn saturating_since(self, earlier: Instant) -> (d: Duration)
        ensures
            earlier@ <= self@ ==> d@ == (self@ - earlier@) * NANOS_PER_MILLI,
            earlier@ > self@ ==> d@ == 0,
    {
        if earlier.ms <= self.ms {
            Duration::from_millis(self.ms - earlier.ms)
        } else {
            Duration::zero()
        }
    }

    /// This instant moved `d` later, in whole milliseconds, saturating at the
    /// latest instant rather than overflowing, so no timestamp can make the
    /// core panic.
    pub fn saturating_add(self, d: Duration) -> (t: Instant)
        ensures
            t@ == later(self, d),
    {
        let ms = millis(d);
        if ms > u64::MAX - self.ms {
            Instant { ms: u64::MAX }
        } else {
            Instant { ms: self.ms + ms }
        }
    }

    /// This instant moved `ms` milliseconds later, saturating at the latest
    /// instant.
    pub fn after_millis(self, ms: u64) -> (t: Instant)
        ensures
            t@ == sat_add(self@, ms),
    {
        if ms > u64::MAX - self.ms {
            Instant { ms: u64::MAX }
        } else {
            Instant { ms: self.ms + ms }
        }
    }

    /// The earlier of two instants.
    pub fn earliest(self, other: Instant) -> (t: Instant)
        ensures
            t@ == if self@ <= other@ { self@ } else { other@ },
    {
        if self.ms <= other.ms {
            self
        } else {
            other
        }
    }

    /// The later of two instants.
    pub fn latest(self, other: Instant) -> (t: Instant)
        ensures
            t@ == if self@ >= other@ { self@ } else { other@ },
    {
        if self.ms >= other.ms {
            self
        } else {
            other
        }
    }

    /// True if this instant is before `other`.
    pub fn is_before(self, other: Instant) -> (b: bool)
        ensures
            b == (self@ < other@),
    {
        self.ms < other.ms
    }
}

/// Adding a duration saturates rather than overflowing.
impl core::ops::Add<Duration> for Instant {
    type Output = Instant;

    fn add(self, d: Duration) -> (t: Instant) {
        self.saturating_add(d)
    }
}

impl vstd::std_specs::ops::AddSpecImpl<Duration> for Instant {
    open spec fn obeys_add_spec() -> bool {
        true
    }

    open spec fn add_req(self, rhs: Duration) -> bool {
        true
    }

    open spec fn add_spec(self, rhs: Duration) -> Instant {
        at(later(self, rhs))
    }
}

} // verus!
