//! The clock: what time it is, and what date.

use vstd::prelude::*;

verus! {

/// The first moment of the first date that the clock can show, in milliseconds since the
/// start of 1970.
pub const EARLIEST_CLOCK_MS: i64 = -8334601228800000;

/// The last moment of the last date that the clock can show, in milliseconds since the
/// start of 1970.
pub const LATEST_CLOCK_MS: i64 = 8210266876799999;

/// Whether a number of milliseconds since the start of 1970 is a time that the clock can
/// show.
pub open spec fn is_clock_time(ms: i64) -> bool {
    EARLIEST_CLOCK_MS <= ms <= LATEST_CLOCK_MS
}

/// The date of a time in milliseconds since the start of 1970, as the year, the month and
/// the day, in UTC.
pub uninterp spec fn utc_date(ms: i64) -> Seq<char>;

/// `chrono::Utc::now`, in milliseconds since the start of 1970, as
/// `chrono::DateTime::timestamp_millis` counts them. Of the value it is said that it is
/// the time of a `chrono::DateTime`; which time the clock shows is not said. On a machine
/// whose clock stands outside of what `chrono::Utc::now` takes, such as before 1970, the
/// call panics.
#[verifier::external_body]
pub(crate) fn now_millis() -> (r: i64)
    ensures
        is_clock_time(r),
{
    chrono::Utc::now().timestamp_millis()
}

/// `chrono::DateTime::format` with the year, the month and the day, on the time in UTC
/// that `chrono::DateTime::from_timestamp_millis` makes of the number. The text depends on
/// the number alone. There is such a time for every number that the clock can show, so the
/// call does not panic.
#[verifier::external_body]
fn format_date(ms: i64) -> (r: String)
    requires
        is_clock_time(ms),
    ensures
        r@ == utc_date(ms),
{
    chrono::DateTime::from_timestamp_millis(ms).unwrap().format("%Y-%m-%d").to_string()
}

/// The date at a point in time.
pub fn date_string_at(now: i64) -> (r: String)
    requires
        is_clock_time(now),
    ensures
        r@ == utc_date(now),
{
    format_date(now)
}

/// Today's date.
pub fn current_date_string() -> (r: String)
    ensures
        exists|now: i64| is_clock_time(now) && r@ == #[trigger] utc_date(now),
{
    let now: i64 = now_millis();
    date_string_at(now)
}

/// The clock can show the times from the start of the year -262143 to the end of the year
/// 262142, and no other.
pub proof fn law_times_of_the_clock(ms: i64)
    ensures
        is_clock_time(ms) <==> -8334601228800000 <= ms <= 8210266876799999,
{
}

} // verus!
