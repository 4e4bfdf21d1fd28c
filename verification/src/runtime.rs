//! Trusted access to the process environment: randomness, wall-clock time
//! and fresh order identifiers. Every function here wraps one call into an
//! outside crate; nothing else in the crate is taken on trust.

use vstd::prelude::*;

use rand::Rng;

verus! {

/// Relies on rand's `Rng::gen_range` over `0..n`: a uniformly drawn value
/// strictly below `n`. The draw differs from call to call.
#[verifier::external_body]
pub fn rand_below(n: u64) -> (r: u64)
    requires
        n >= 1,
    ensures
        r < n,
{
    rand::thread_rng().gen_range(0..n)
}

/// Relies on rand's `Rng::gen_range` over `lo..=hi`: a uniformly drawn
/// value within the inclusive range. The draw differs from call to call.
#[verifier::external_body]
pub fn rand_between(lo: u64, hi: u64) -> (r: u64)
    requires
        lo <= hi,
    ensures
        lo <= r <= hi,
{
    rand::thread_rng().gen_range(lo..=hi)
}

/// Relies on chrono's `Utc::now` and `DateTime::timestamp_nanos_opt`:
/// the current wall-clock time in nanoseconds since the epoch, or zero
/// when it does not fit. Nothing further can be promised of a clock.
#[verifier::external_body]
pub fn now_nanos() -> (r: i64)
{
    chrono::Utc::now().timestamp_nanos_opt().unwrap_or(0)
}

/// Relies on chrono's `Utc::now` and `DateTime::timestamp`: the current
/// wall-clock time in whole seconds since the epoch.
#[verifier::external_body]
pub fn now_secs() -> (r: i64)
{
    chrono::Utc::now().timestamp()
}

/// Relies on chrono's `Utc::now` and `DateTime::timestamp_millis`: the
/// current wall-clock time in milliseconds since the epoch.
#[verifier::external_body]
pub fn now_millis() -> (r: i64)
{
    chrono::Utc::now().timestamp_millis()
}

/// Relies on uuid's `Uuid::new_v4` rendered through `to_string`: a fresh
/// random identifier in the 36-character hyphenated form.
#[verifier::external_body]
pub fn fresh_order_id() -> (r: String)
    ensures
        r@.len() == 36,
{
    uuid::Uuid::new_v4().to_string()
}

} // verus!
