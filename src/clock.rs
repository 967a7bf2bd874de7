use vstd::prelude::*;

verus! {

/// Name of the seconds past midnight that chrono's
/// `NaiveTime::parse_from_str` reads from a `%H:%M:%S` time of day (`None`
/// when the text is not one).
pub uninterp spec fn time_of_day_of(s: Seq<char>) -> Option<u32>;

/// Relies on chrono::Utc::now: the current time as whole seconds since the
/// Unix epoch. Nothing is promised of the value: it is whatever the system
/// clock reads.
#[verifier::external_body]
pub(crate) fn utc_now_timestamp() -> (r: i64) {
    chrono::Utc::now().timestamp()
}

/// Relies on chrono::NaiveTime::parse_from_str with the format `%H:%M:%S`:
/// the seconds past midnight of the time it reads, which chrono keeps below
/// a day.
#[verifier::external_body]
pub(crate) fn parse_time_of_day(s: &str) -> (r: Option<u32>)
    ensures
        r == time_of_day_of(s@),
        r matches Some(t) ==> t < 86400,
{
    chrono::NaiveTime::parse_from_str(s, "%H:%M:%S")
        .ok()
        .map(|t| chrono::Timelike::num_seconds_from_midnight(&t))
}

/// Relies on chrono::DateTime::<Local>::with_time: the instant (seconds
/// since the Unix epoch) at which the local calendar day of the instant
/// `now` reaches `seconds_of_day`, in the machine's time zone; `None` where
/// that local time does not exist or is ambiguous. The answer depends on the
/// time zone; chrono keeps every offset under a day (`FixedOffset::east_opt`)
/// and the time within the local day of `now`, so it lies within three days
/// of `now`.
#[verifier::external_body]
pub(crate) fn local_today_at(now: i64, seconds_of_day: u32) -> (r: Option<i64>)
    ensures
        r matches Some(p) ==> now - 3 * 86400 < p < now + 3 * 86400,
{
    let time = chrono::NaiveTime::from_num_seconds_from_midnight_opt(seconds_of_day, 0)?;
    let today = chrono::TimeZone::timestamp_opt(&chrono::Local, now, 0).single()?;
    today.with_time(time).single().map(|d| d.timestamp())
}

} // verus!
