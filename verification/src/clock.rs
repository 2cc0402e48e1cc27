//! The monotonic clock, as far as the store needs it.
//!
//! An `Instant` is opaque: nothing is known of it but how two instants compare
//! and what comes of adding a `Duration` to one. Both are functions of their
//! arguments alone, so each has a name here that contracts can speak of. A
//! reading of the clock has none: two readings need not agree.

use std::time::{Duration, Instant};
use vstd::prelude::*;

verus! {

/// `std::time::Instant`, carried through as an opaque value.
#[verifier::external_type_specification]
#[verifier::external_body]
pub struct ExInstant(Instant);

/// Whether instant `a` lies strictly after instant `b` on the monotonic
/// time line: what `a > b` evaluates to.
pub uninterp spec fn instant_is_later(a: Instant, b: Instant) -> bool;

/// The instant `ttl` after `start`, or `None` where the platform cannot
/// represent it: what `start.checked_add(ttl)` evaluates to.
pub uninterp spec fn instant_plus(start: Instant, ttl: Duration) -> Option<Instant>;

/// Reads the monotonic clock with `Instant::now`. Nothing is claimed of the
/// reading.
#[verifier::external_body]
pub(crate) fn clock_now() -> Instant {
    Instant::now()
}

/// Compares two instants with `>` (`PartialOrd::gt` of `Instant`). The claim
/// is only that the outcome is the named comparison of the two values.
#[verifier::external_body]
pub(crate) fn is_later(a: Instant, b: Instant) -> (later: bool)
    ensures
        later == instant_is_later(a, b),
{
    a > b
}

/// Adds a duration to an instant with `Instant::checked_add`, which returns
/// `None` instead of panicking where the sum cannot be represented. The claim
/// is only that the outcome is the named sum of the two values.
#[verifier::external_body]
pub(crate) fn deadline_after(start: Instant, ttl: Duration) -> (deadline: Option<Instant>)
    ensures
        deadline == instant_plus(start, ttl),
{
    start.checked_add(ttl)
}

} // verus!
