//! Deadlines on the monotonic clock.
use std::time::Duration;

use vstd::prelude::*;

use crate::model::MonoInstant;

verus! {

/// The whole length of a duration in nanoseconds, as `Duration::as_nanos` gives it.
pub uninterp spec fn duration_nanos(duration: Duration) -> nat;

/// `std::time::Duration::as_nanos`: the total number of nanoseconds in the duration.
pub assume_specification[ Duration::as_nanos ](duration: &Duration) -> (nanos: u128)
    ensures
        nanos == duration_nanos(*duration),
;

/// `std::time::Duration::from_millis`: a duration of that many milliseconds.
pub assume_specification[ Duration::from_millis ](millis: u64) -> (duration: Duration)
    ensures
        duration_nanos(duration) == millis * 1_000_000,
;

/// The duration does not fit between the instant and the end of the clock.
#[derive(Clone, Copy, Debug, PartialEq, Eq, Structural)]
pub struct DeadlineOverflow;

pub open spec fn deadline_after(now: MonoInstant, nanos: nat) -> Option<MonoInstant> {
    if now.0 + nanos <= u64::MAX {
        Some(MonoInstant((now.0 + nanos) as u64))
    } else {
        None
    }
}

/// The instant a duration after `now`, where the clock reaches that far.
pub fn checked_deadline(now: MonoInstant, duration: Duration) -> (deadline: Result<
    MonoInstant,
    DeadlineOverflow,
>)
    ensures
        deadline == (match deadline_after(now, duration_nanos(duration)) {
            Some(instant) => Ok(instant),
            None => Err(DeadlineOverflow),
        }),
{
    let nanos: u128 = duration.as_nanos();
    let limit: u64 = u64::MAX - now.0;
    if nanos <= limit as u128 {
        Ok(MonoInstant(now.0 + nanos as u64))
    } else {
        Err(DeadlineOverflow)
    }
}

/// Whether a duration lies between two numbers of milliseconds, both included.
pub open spec fn within_millis(duration: Duration, least: nat, most: nat) -> bool {
    least * 1_000_000 <= duration_nanos(duration) <= most * 1_000_000
}

pub fn is_within_millis(duration: Duration, least: u64, most: u64) -> (within: bool)
    ensures
        within == within_millis(duration, least as nat, most as nat),
{
    let nanos: u128 = duration.as_nanos();
    least as u128 * 1_000_000 <= nanos && nanos <= most as u128 * 1_000_000
}

/// Whether a duration is no time at all.
pub fn is_zero(duration: Duration) -> (zero: bool)
    ensures
        zero == (duration_nanos(duration) == 0),
{
    duration.as_nanos() == 0
}

/// A deadline is never before the instant it was counted from.
pub proof fn law_deadline_is_not_before_now(now: MonoInstant, nanos: nat)
    ensures
        deadline_after(now, nanos) matches Some(deadline) ==> deadline.0 == now.0 + nanos
            && now.0 <= deadline.0,
{
}

/// A deadline is the instant that lies the whole duration ahead, and there is one exactly where the
/// clock reaches that far.
pub proof fn law_deadlines_lie_ahead(now: MonoInstant, nanos: nat)
    ensures
        deadline_after(now, nanos) is Some <==> now.0 + nanos <= u64::MAX,
        deadline_after(now, nanos) matches Some(deadline) ==> deadline.0 - now.0 == nanos,
{
}

/// A duration lies between two numbers of milliseconds where it is neither shorter than the one nor
/// longer than the other, a million nanoseconds to each.
pub proof fn law_durations_between(duration: Duration, least: nat, most: nat)
    ensures
        within_millis(duration, least, most) <==> least * 1_000_000 <= duration_nanos(duration)
            && duration_nanos(duration) <= most * 1_000_000,
{
}

} // verus!
