//! Correlation ids and timestamps, from the system clock.
//!
//! Ids are version-7 UUIDs: time-ordered and unique across concurrent
//! requests. Timestamps are UTC epoch milliseconds. Both come from outside
//! the verified world, so only what holds of every outcome is stated.

use vstd::prelude::*;

verus! {

/// The `%Y-%m-%d` rendering of a UTC epoch-millisecond timestamp, as the
/// date formatter produces it: a function of the timestamp alone.
pub uninterp spec fn date_str_of(ms: i64) -> Seq<u8>;

/// Relies on `uuid::Uuid::now_v7` and its `Display` form: a fresh
/// time-ordered unique id, hyphenated, always 36 bytes. The clock read
/// inside panics only on a system clock set before the Unix epoch.
#[verifier::external_body]
pub fn fresh_event_id() -> (r: Vec<u8>)
    ensures
        r@.len() == 36,
{
    uuid::Uuid::now_v7().to_string().into_bytes()
}

/// Relies on `chrono::Utc::now`: the current UTC time in epoch milliseconds.
/// Nothing is promised of the clock's value; the call panics only on a
/// system clock set before the Unix epoch.
#[verifier::external_body]
pub fn now_epoch_millis() -> i64 {
    chrono::Utc::now().timestamp_millis()
}

/// Relies on `chrono::DateTime::from_timestamp_millis` and the `%Y-%m-%d`
/// formatter: the UTC calendar date of the timestamp, a function of the
/// timestamp alone (empty for a timestamp outside the representable range).
#[verifier::external_body]
pub fn utc_date_string(ms: i64) -> (r: Vec<u8>)
    ensures
        r@ == date_str_of(ms),
{
    match chrono::DateTime::from_timestamp_millis(ms) {
        Some(dt) => dt.format("%Y-%m-%d").to_string().into_bytes(),
        None => Vec::new(),
    }
}

/// Epoch milliseconds clamped to an unsigned value: a clock before the epoch
/// counts as the epoch.
pub fn clamp_epoch_millis(ms: i64) -> (r: u64)
    ensures
        r == (if ms >= 0 {
            ms as u64
        } else {
            0u64
        }),
{
    if ms >= 0 {
        ms as u64
    } else {
        0
    }
}

} // verus!
