//! Wall-clock time, as `chrono` measures it.
//!
//! An instant is a `chrono::NaiveDateTime`, read as UTC. The library never
//! looks inside one: it asks `chrono` for the present instant and for the
//! seconds between two instants, and believes what it is told.

use vstd::prelude::*;

verus! {

/// `chrono::NaiveDateTime`, carried through as an opaque value.
#[verifier::external_type_specification]
#[verifier::external_body]
pub struct ExNaiveDateTime(chrono::NaiveDateTime);

/// The whole seconds from `earlier` to `later`, as
/// `later.signed_duration_since(earlier).num_seconds()` counts them in
/// `chrono`. The count depends on the two instants and on nothing else.
pub uninterp spec fn seconds_between(
    later: chrono::NaiveDateTime,
    earlier: chrono::NaiveDateTime,
) -> int;

/// The present instant in UTC: `std::time::SystemTime::now`, turned into a
/// `chrono::DateTime<Utc>` by chrono's `From<SystemTime>` and stripped of its
/// time zone by `DateTime::naive_utc`.
///
/// Nothing is claimed of the instant. The conversion takes a clock that
/// stands before 1970 as well as one that stands after it; it gives up only
/// on an instant beyond the years that `chrono` can hold, some 262,000 to
/// either side.
#[verifier::external_body]
pub(crate) fn now() -> (instant: chrono::NaiveDateTime) {
    chrono::DateTime::<chrono::Utc>::from(std::time::SystemTime::now()).naive_utc()
}

/// The whole seconds from `earlier` to `later`:
/// `NaiveDateTime::signed_duration_since`, then `TimeDelta::num_seconds`.
///
/// The contract claims only that the result is the one named
/// [`seconds_between`]. Neither call fails: the difference of two instants
/// is always in the range of a `TimeDelta`.
#[verifier::external_body]
pub(crate) fn elapsed_seconds(
    later: &chrono::NaiveDateTime,
    earlier: &chrono::NaiveDateTime,
) -> (seconds: i64)
    ensures
        seconds == seconds_between(*later, *earlier),
{
    later.signed_duration_since(*earlier).num_seconds()
}

} // verus!
