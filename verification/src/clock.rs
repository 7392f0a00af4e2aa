use vstd::prelude::*;

verus! {

/// A point's timestamp (UTC, without the zone attached); opaque to the
/// proofs, it is only carried along.
#[verifier::external_type_specification]
#[verifier::external_body]
pub struct ExNaiveDateTime(chrono::NaiveDateTime);

/// `NaiveDateTime` derives `Clone` together with `Copy`, so a clone is the
/// same value.
pub assume_specification[ <chrono::NaiveDateTime as Clone>::clone ](a: &chrono::NaiveDateTime) -> (res: chrono::NaiveDateTime)
    ensures
        res == *a,
;

/// Calls `chrono::Utc::now` and keeps the UTC date and time. The current
/// time depends on the clock, so nothing is stated of the result.
#[verifier::external_body]
pub(crate) fn utc_now() -> (res: chrono::NaiveDateTime) {
    chrono::Utc::now().naive_utc()
}

/// A point in time of the monotonic clock; opaque, only carried along.
#[verifier::external_type_specification]
#[verifier::external_body]
pub struct ExInstant(std::time::Instant);

/// Calls `Instant::now`; it depends on the clock, so nothing is stated.
#[verifier::external_body]
pub(crate) fn instant_now() -> (res: std::time::Instant) {
    std::time::Instant::now()
}

/// Calls `Instant::elapsed`: the time passed since `time`. It depends on
/// the clock, so nothing is stated of the result.
#[verifier::external_body]
pub(crate) fn instant_elapsed(time: &std::time::Instant) -> (res: std::time::Duration) {
    time.elapsed()
}

/// Calls `Duration::as_nanos`: the whole duration in nanoseconds. A
/// `Duration` is opaque to the proofs, so nothing is stated of the number.
#[verifier::external_body]
pub(crate) fn duration_as_nanos(d: &std::time::Duration) -> (res: u128) {
    d.as_nanos()
}

} // verus!
