//! Points in time and spans, counted in clock ticks.
//!
//! The tick arithmetic and unit conversions are those of `embassy-time`,
//! whose tick rate is fixed when the firmware is built.
use vstd::prelude::*;

verus! {

/// Clock ticks per second of the time driver.
pub const TICK_HZ: u64 = 1_000_000;

/// A point in time, in clock ticks since startup.
#[derive(Clone, Copy, Debug, PartialEq, Eq, Structural)]
pub struct Instant {
    pub ticks: u64,
}

/// A span of time, in clock ticks.
#[derive(Clone, Copy, Debug, PartialEq, Eq, Structural)]
pub struct Duration {
    pub ticks: u64,
}

/// The span from `earlier` to `later`, or an empty span when `earlier` lies in
/// the future of `later`.
pub open spec fn elapsed(later: Instant, earlier: Instant) -> int {
    if later.ticks < earlier.ticks {
        0
    } else {
        later.ticks - earlier.ticks
    }
}

/// `embassy_time::Instant::saturating_duration_since` on two tick counts: the
/// difference of the two, or zero when `earlier` is the greater one.
#[verifier::external_body]
fn saturating_ticks_since(later: u64, earlier: u64) -> (ticks: u64)
    ensures
        ticks == if later < earlier {
            0
        } else {
            later - earlier
        },
{
    let earlier = embassy_time::Instant::from_ticks(earlier);
    embassy_time::Instant::from_ticks(later).saturating_duration_since(earlier).as_ticks()
}

/// `embassy_time::Instant::as_micros` on a tick count: the microseconds since
/// startup. At this tick rate the conversion factor is one.
#[verifier::external_body]
fn ticks_to_micros(ticks: u64) -> (micros: u64)
    ensures
        micros == ticks * 1_000_000 / (TICK_HZ as int),
{
    embassy_time::Instant::from_ticks(ticks).as_micros()
}

/// `embassy_time::Duration::from_millis` as a tick count. At this tick rate a
/// millisecond is a whole number of ticks, so nothing is rounded. The product
/// must fit the tick counter.
#[verifier::external_body]
fn millis_to_ticks(millis: u64) -> (ticks: u64)
    requires
        millis * TICK_HZ <= 1000 * u64::MAX,
    ensures
        ticks == millis * TICK_HZ / 1000,
{
    embassy_time::Duration::from_millis(millis).as_ticks()
}

impl Instant {
    /// The point `ticks` clock ticks after startup.
    pub fn from_ticks(ticks: u64) -> (instant: Self)
        ensures
            instant.ticks == ticks,
    {
        Instant { ticks }
    }

    /// The span since `earlier`; empty when `earlier` is in the future.
    pub fn saturating_duration_since(&self, earlier: Instant) -> (span: Duration)
        ensures
            span.ticks == elapsed(*self, earlier),
    {
        Duration { ticks: saturating_ticks_since(self.ticks, earlier.ticks) }
    }

    /// Microseconds since startup.
    pub fn as_micros(&self) -> (micros: u64)
        ensures
            micros == self.ticks * 1_000_000 / (TICK_HZ as int),
    {
        ticks_to_micros(self.ticks)
    }
}

impl Duration {
    /// A span of `millis` milliseconds.
    pub fn from_millis(millis: u64) -> (span: Self)
        requires
            millis * TICK_HZ <= 1000 * u64::MAX,
        ensures
            span.ticks == millis * TICK_HZ / 1000,
    {
        Duration { ticks: millis_to_ticks(millis) }
    }
}

/// A span that has passed is the span that elapsed, and none has passed towards the
/// past.
pub proof fn elapsed_is_what_has_passed(earlier: Instant, later: Instant, span: u64)
    ensures
        later.ticks == earlier.ticks + span ==> elapsed(later, earlier) == span,
        later.ticks <= earlier.ticks ==> elapsed(later, earlier) == 0,
{
}

} // verus!
