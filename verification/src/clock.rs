//! The current time, read from the system clock through `chrono`.
use vstd::prelude::*;

verus! {

/// An instant the clock can report: not before the Unix epoch (chrono's
/// `Utc::now` stops with a panic on an earlier system time) and within
/// chrono's range of dates (years up to 262142).
pub open spec fn plausible_instant(t: int) -> bool {
    0 <= t <= 8_300_000_000_000_000
}

/// The current time in Unix milliseconds: `chrono::Utc::now().timestamp_millis()`.
/// Only that the value is a plausible instant is stated; which instant it
/// is depends on the system clock.
#[verifier::external_body]
pub fn now_millis() -> (t: i64)
    ensures
        plausible_instant(t as int),
{
    chrono::Utc::now().timestamp_millis()
}

/// The hour (0-23) of the current local time:
/// `chrono::Local::now().hour()`. Only its range is stated; which hour it
/// is depends on the system clock and time zone.
#[verifier::external_body]
pub fn local_hour() -> (h: u32)
    ensures
        h < 24,
{
    chrono::Timelike::hour(&chrono::Local::now())
}

} // verus!
