//! What the library relies on of `std::time::Duration`.

use std::time::Duration;
use vstd::prelude::*;

verus! {

/// The span of time that a `Duration` holds, in nanoseconds.
pub uninterp spec fn duration_nanos(d: Duration) -> nat;

/// The whole milliseconds in a duration.
pub open spec fn duration_millis(d: Duration) -> nat {
    duration_nanos(d) / 1_000_000
}

/// The whole seconds in a duration.
pub open spec fn duration_secs(d: Duration) -> nat {
    duration_nanos(d) / 1_000_000_000
}

/// `Clone::clone` of a `Duration` gives the same duration.
pub assume_specification[ <Duration as Clone>::clone ](d: &Duration) -> (copy: Duration)
    ensures
        copy == *d,
;

/// `Duration::from_secs` makes the duration of that many whole seconds.
pub assume_specification[ Duration::from_secs ](secs: u64) -> (d: Duration)
    ensures
        duration_nanos(d) == secs * 1_000_000_000,
;

/// `Duration::from_millis` makes the duration of that many whole milliseconds.
pub assume_specification[ Duration::from_millis ](millis: u64) -> (d: Duration)
    ensures
        duration_nanos(d) == millis * 1_000_000,
;

/// `Duration::as_secs` gives the whole seconds in the duration, dropping the
/// fractional part.
pub assume_specification[ Duration::as_secs ](d: &Duration) -> (secs: u64)
    ensures
        secs == duration_secs(*d),
;

/// `Duration::as_millis` gives the whole milliseconds in the duration.
pub assume_specification[ Duration::as_millis ](d: &Duration) -> (millis: u128)
    ensures
        millis == duration_millis(*d),
;

/// `Duration::as_nanos` gives the whole duration in nanoseconds.
pub assume_specification[ Duration::as_nanos ](d: &Duration) -> (nanos: u128)
    ensures
        nanos == duration_nanos(*d),
;

} // verus!
