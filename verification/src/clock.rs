//! Readings of the monotonic clock, which the game clocks and deadlines rest on.
use vstd::prelude::*;
use std::time::{Duration, Instant};

verus! {

#[verifier::external_type_specification]
#[verifier::external_body]
pub struct ExInstant(std::time::Instant);

/// Reads the clock with `std::time::Instant::now`. What it reads depends on
/// the machine and the moment, so nothing is stated of it.
#[verifier::external_body]
pub(crate) fn now() -> (r: Instant) {
    Instant::now()
}

/// The time from `earlier` to `later`, through
/// `Instant::saturating_duration_since`: zero where `earlier` is the later of
/// the two. Both readings are the machine's, so nothing is stated of it.
#[verifier::external_body]
fn span(earlier: &Instant, later: &Instant) -> (r: Duration) {
    later.saturating_duration_since(*earlier)
}

/// The whole milliseconds in `d`, through `Duration::as_millis`. A `Duration`
/// is opaque here, so nothing is stated of the count.
#[verifier::external_body]
fn whole_millis(d: &Duration) -> (r: u128) {
    d.as_millis()
}

/// The whole nanoseconds in `d`, through `Duration::as_nanos`. Nothing is
/// stated of the count, as of `whole_millis`.
#[verifier::external_body]
fn whole_nanos(d: &Duration) -> (r: u128) {
    d.as_nanos()
}

/// A span of `secs` seconds, through `Duration::from_secs`.
#[verifier::external_body]
fn seconds(secs: u64) -> (r: Duration) {
    Duration::from_secs(secs)
}

/// The instant `d` after `t`, through `Instant::checked_add`, which gives
/// `None` where the platform cannot represent it.
#[verifier::external_body]
fn checked_after(t: &Instant, d: Duration) -> (r: Option<Instant>) {
    t.checked_add(d)
}

/// Whether `a` comes after `b`, through `Instant`'s `>`. Nothing is stated of
/// it: both readings are the machine's.
#[verifier::external_body]
pub(crate) fn is_later(a: &Instant, b: &Instant) -> (r: bool) {
    *a > *b
}

/// Whole milliseconds from `earlier` to `later`, cut to 64 bits; zero where
/// `earlier` is the later of the two.
pub(crate) fn millis_between(earlier: &Instant, later: &Instant) -> (r: u64) {
    let m = whole_millis(&span(earlier, later));
    m as u64
}

/// Whole nanoseconds from `earlier` to `later`, cut to 64 bits (over five
/// centuries).
pub(crate) fn nanos_between(earlier: &Instant, later: &Instant) -> (r: u64) {
    let n = whole_nanos(&span(earlier, later));
    n as u64
}

/// The instant `secs` seconds after `t`, or `None` where the platform cannot
/// represent it.
pub(crate) fn later_by_secs(t: &Instant, secs: u64) -> (r: Option<Instant>) {
    checked_after(t, seconds(secs))
}

} // verus!
