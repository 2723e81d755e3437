use vstd::prelude::*;

verus! {

/// Largest distance from the Unix epoch, in milliseconds, of an instant that
/// chrono can represent (its years run from -262143 to 262142).
pub const MAX_TIMESTAMP_MILLIS: i64 = 8_400_000_000_000_000;

/// Milliseconds in one day.
pub const DAY_MILLIS: i64 = 86_400_000;

/// Relies on `chrono::Utc::now` and `DateTime::timestamp_millis`: the current
/// time in milliseconds since the Unix epoch, which lies within chrono's
/// representable range of years.
#[verifier::external_body]
pub(crate) fn now_millis() -> (r: i64)
    ensures
        -MAX_TIMESTAMP_MILLIS <= r <= MAX_TIMESTAMP_MILLIS,
{
    chrono::Utc::now().timestamp_millis()
}

} // verus!
