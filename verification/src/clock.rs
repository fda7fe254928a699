//! The wall clock, in milliseconds since the Unix epoch.

use vstd::prelude::*;

verus! {

#[verifier::external_type_specification]
#[verifier::external_body]
pub struct ExSystemTime(std::time::SystemTime);

/// `std::time::SystemTime::now`. The time is whatever the system clock says.
#[verifier::external_body]
fn system_now() -> std::time::SystemTime {
    std::time::SystemTime::now()
}

/// `SystemTime::duration_since(UNIX_EPOCH)`, with a zero duration in place of
/// the error it returns for a time before the epoch.
#[verifier::external_body]
fn since_epoch(t: std::time::SystemTime) -> std::time::Duration {
    t.duration_since(std::time::UNIX_EPOCH).unwrap_or_default()
}

/// `Duration::as_millis`: the whole milliseconds of a duration.
#[verifier::external_body]
fn whole_millis(d: std::time::Duration) -> u128 {
    d.as_millis()
}

/// Milliseconds since the Unix epoch, cut to 64 bits; zero when the clock
/// stands before the epoch. Nothing else is known of it.
pub fn now_ms() -> u64 {
    let ms = whole_millis(since_epoch(system_now()));
    #[verifier::truncate]
    (ms as u64)
}

} // verus!
