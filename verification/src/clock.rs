//! The wall clock.

use vstd::prelude::*;

verus! {

/// Bound, in whole seconds since 1970, on what the clock can report (past the end of the
/// calendar range of `chrono`, the year 262142).
pub const CLOCK_MAX_SECS: i64 = 8_300_000_000_000;

/// Nanoseconds in a second.
pub const NANOS_PER_SECOND: i128 = 1_000_000_000;

/// Bound, in nanoseconds since 1970, on what the clock can report.
pub const CLOCK_MAX_NANOS: i128 = 8_300_000_000_000_000_000_000;

/// Reads the current time through `chrono::Utc::now`, as whole seconds since
/// 1970-01-01 UTC (`timestamp`) and the nanoseconds past that second
/// (`timestamp_subsec_nanos`).
///
/// `Utc::now` takes the system time as seconds and nanoseconds since 1970 (panicking when it
/// lies before 1970), so the seconds are not negative and the nanoseconds lie below one
/// second; a `DateTime<Utc>` cannot go past the end of year 262142. Nothing else is
/// claimed: the value depends on the time of the call.
#[verifier::external_body]
fn clock_reading() -> (r: (i64, u32))
    ensures
        0 <= r.0 < CLOCK_MAX_SECS,
        r.1 < 1_000_000_000,
{
    let now = chrono::Utc::now();
    (now.timestamp(), now.timestamp_subsec_nanos())
}

/// The current time in nanoseconds since 1970-01-01 UTC.
pub(crate) fn now_nanos() -> (r: i128)
    ensures
        0 <= r < CLOCK_MAX_NANOS,
{
    let (secs, nanos) = clock_reading();
    assert(secs * NANOS_PER_SECOND + nanos < CLOCK_MAX_NANOS) by (nonlinear_arith)
        requires
            0 <= secs < CLOCK_MAX_SECS,
            nanos < NANOS_PER_SECOND,
            CLOCK_MAX_NANOS == CLOCK_MAX_SECS * NANOS_PER_SECOND,
            NANOS_PER_SECOND == 1_000_000_000,
    ;
    (secs as i128) * NANOS_PER_SECOND + (nanos as i128)
}

/// The current time in whole seconds since 1970-01-01 UTC.
pub(crate) fn now_secs() -> (r: i64)
    ensures
        0 <= r < CLOCK_MAX_SECS,
{
    clock_reading().0
}

} // verus!
