use vstd::prelude::*;
use std::time::{SystemTime, UNIX_EPOCH};

verus! {

#[verifier::external_type_specification]
#[verifier::external_body]
pub struct ExSystemTime(SystemTime);

/// Relies on std::time::SystemTime::now: the current wall-clock time. Nothing
/// is known of the value: it depends on the machine's clock.
#[verifier::external_body]
fn system_now() -> (r: SystemTime) {
    SystemTime::now()
}

/// Relies on std::time::SystemTime::duration_since, read in whole
/// milliseconds: the time from the Unix epoch to `t`, or `None` when `t` is
/// earlier than the epoch. It returns an error there rather than panicking.
#[verifier::external_body]
fn millis_since_epoch(t: &SystemTime) -> (r: Option<u128>) {
    match t.duration_since(UNIX_EPOCH) {
        Ok(d) => Some(d.as_millis()),
        Err(_) => None,
    }
}

/// A clock reading in milliseconds since the epoch as a `u64`: zero for an
/// instant before the epoch, `u64::MAX` for one past its range.
pub open spec fn clamp_reading(reading: Option<u128>) -> u64 {
    match reading {
        Some(ms) => if ms > u64::MAX {
            u64::MAX
        } else {
            ms as u64
        },
        None => 0,
    }
}

pub fn millis_or_zero(reading: Option<u128>) -> (r: u64)
    ensures
        r == clamp_reading(reading),
{
    match reading {
        Some(ms) => if ms > u64::MAX as u128 {
            u64::MAX
        } else {
            ms as u64
        },
        None => 0,
    }
}

/// Milliseconds since the Unix epoch; an instant before the epoch reads as zero.
pub fn now_unix_ms() -> (r: u64)
    ensures
        exists|reading: Option<u128>| r == clamp_reading(reading),
{
    let t = system_now();
    let reading = millis_since_epoch(&t);
    millis_or_zero(reading)
}

/// Milliseconds elapsed from `since_ms` to `now_ms`, or `None` when `now_ms`
/// is not strictly later.
pub open spec fn elapsed_spec(now_ms: u64, since_ms: u64) -> Option<u64> {
    if now_ms > since_ms {
        Some((now_ms - since_ms) as u64)
    } else {
        None
    }
}

pub fn elapsed_between(now_ms: u64, since_ms: u64) -> (r: Option<u64>)
    ensures
        r == elapsed_spec(now_ms, since_ms),
{
    if now_ms > since_ms {
        Some(now_ms - since_ms)
    } else {
        None
    }
}

/// Milliseconds elapsed since `timestamp_ms`, read against the clock now.
pub fn elapsed_since(timestamp_ms: u64) -> (r: Option<u64>)
    ensures
        exists|now_ms: u64| r == elapsed_spec(now_ms, timestamp_ms),
        r matches Some(d) ==> d > 0 && d <= u64::MAX - timestamp_ms,
{
    let now = now_unix_ms();
    elapsed_between(now, timestamp_ms)
}

} // verus!
