//! The calendar arithmetic of this library, which the `chrono` crate does.
//!
//! Nothing in this file is proved: each function states what the `chrono` function that
//! it calls returns. The dates, times and durations that go in are valid ones, so that
//! `chrono` has a value for each of them; what comes out is valid as well.

use vstd::prelude::*;
use chrono::{Datelike, NaiveDate, NaiveTime, TimeDelta, Timelike};
use crate::types::{
    Date,
    DateTime,
    Duration,
    Time,
    MAX_DATE_DAYS,
    MAX_DURATION_DAYS,
    MAX_DURATION_MILLIS,
    MIN_DATE_DAYS,
    NANOS_PER_DAY,
};

verus! {

/// `chrono::NaiveDate::MIN`, the date of `chrono::MIN_DATE`: the earliest date there is.
#[verifier::external_body]
pub(crate) fn min_date() -> (r: Date)
    ensures
        r@ == MIN_DATE_DAYS,
{
    Date { days: NaiveDate::MIN.num_days_from_ce() }
}

/// `chrono::TimeDelta::days`: the duration of `days` whole days of 86400 seconds. It
/// panics on more days than a duration can hold, which `requires` leaves out.
#[verifier::external_body]
pub(crate) fn duration_days(days: i64) -> (r: Duration)
    requires
        -MAX_DURATION_DAYS <= days <= MAX_DURATION_DAYS,
    ensures
        r@ == days * NANOS_PER_DAY,
{
    let span = TimeDelta::days(days);
    Duration { secs: span.num_seconds(), nanos: span.subsec_nanos() }
}

/// `-` of two `chrono::TimeDelta`: the difference of the two spans. It panics where the
/// difference is longer than a duration can be, which `requires` leaves out.
#[verifier::external_body]
pub(crate) fn duration_sub(a: &Duration, b: &Duration) -> (r: Duration)
    requires
        a.wf(),
        b.wf(),
        -MAX_DURATION_MILLIS * 1_000_000 <= a@ - b@ <= MAX_DURATION_MILLIS * 1_000_000,
    ensures
        r@ == a@ - b@,
{
    let x = TimeDelta::seconds(a.secs) + TimeDelta::nanoseconds(i64::from(a.nanos));
    let y = TimeDelta::seconds(b.secs) + TimeDelta::nanoseconds(i64::from(b.nanos));
    let span = x - y;
    Duration { secs: span.num_seconds(), nanos: span.subsec_nanos() }
}

/// `chrono::NaiveDate::checked_add_signed`, to which that of `chrono::Date` hands on: the
/// date that many whole days of `span` later (earlier, for a negative span), or `None`
/// where there is no such date.
#[verifier::external_body]
pub(crate) fn date_checked_add(date: &Date, span: &Duration) -> (r: Option<Date>)
    requires
        date.wf(),
        span.wf(),
    ensures
        r is Some <==> MIN_DATE_DAYS <= date@ + span.whole_days() <= MAX_DATE_DAYS,
        r matches Some(sum) ==> sum@ == date@ + span.whole_days(),
{
    let start = NaiveDate::from_num_days_from_ce_opt(date.days).unwrap();
    let delta = TimeDelta::seconds(span.secs) + TimeDelta::nanoseconds(i64::from(span.nanos));
    let sum = start.checked_add_signed(delta)?;
    Some(Date { days: sum.num_days_from_ce() })
}

/// `chrono::DateTime::checked_add_signed` in UTC, for a span of one or more whole days:
/// the same time of day that many days later, or `None` where there is no such date. A
/// time inside a leap second comes out one second earlier, outside the leap second.
#[verifier::external_body]
pub(crate) fn datetime_checked_add(start: &DateTime, span: &Duration) -> (r: Option<DateTime>)
    requires
        start.date.wf(),
        start.time.wf(),
        span.wf(),
        span.is_whole_days(),
        span@ > 0,
    ensures
        r is Some <==> start.date@ + span.days() <= MAX_DATE_DAYS,
        r matches Some(sum) ==> sum.date@ == start.date@ + span.days() && sum.time@
            == start.time@.without_leap(),
{
    let date = NaiveDate::from_num_days_from_ce_opt(start.date.days).unwrap();
    let time = NaiveTime::from_num_seconds_from_midnight_opt(start.time.secs, start.time.frac);
    let delta = TimeDelta::seconds(span.secs) + TimeDelta::nanoseconds(i64::from(span.nanos));
    let sum = date.and_time(time.unwrap()).and_utc().checked_add_signed(delta)?;
    let date = Date { days: sum.date_naive().num_days_from_ce() };
    let time = sum.time();
    Some(DateTime { date, time: Time { secs: time.num_seconds_from_midnight(), frac: time.nanosecond() } })
}

/// `chrono::NaiveDate::signed_duration_since`, which is `-` of two `chrono::Date`: the whole
/// days from `earlier` to `later`.
#[verifier::external_body]
pub(crate) fn date_difference(later: &Date, earlier: &Date) -> (r: Duration)
    requires
        later.wf(),
        earlier.wf(),
    ensures
        r@ == (later@ - earlier@) * NANOS_PER_DAY,
{
    let a = NaiveDate::from_num_days_from_ce_opt(later.days).unwrap();
    let b = NaiveDate::from_num_days_from_ce_opt(earlier.days).unwrap();
    let span = a.signed_duration_since(b);
    Duration { secs: span.num_seconds(), nanos: span.subsec_nanos() }
}

/// `chrono::NaiveTime::signed_duration_since`, which is `-` of two `chrono::NaiveTime`: the
/// span from `earlier` to `later` on one day, with the leap second that either of them
/// holds.
#[verifier::external_body]
pub(crate) fn time_difference(later: &Time, earlier: &Time) -> (r: Duration)
    requires
        later.wf(),
        earlier.wf(),
    ensures
        r@ == later@.since(earlier@),
{
    let a = NaiveTime::from_num_seconds_from_midnight_opt(later.secs, later.frac).unwrap();
    let b = NaiveTime::from_num_seconds_from_midnight_opt(earlier.secs, earlier.frac).unwrap();
    let span = a.signed_duration_since(b);
    Duration { secs: span.num_seconds(), nanos: span.subsec_nanos() }
}

/// `chrono::DateTime::signed_duration_since` in UTC, which is `-` of two `chrono::DateTime`:
/// the whole days between the two dates and the span between the two times of day.
#[verifier::external_body]
pub(crate) fn datetime_difference(later: &DateTime, earlier: &DateTime) -> (r: Duration)
    requires
        later.date.wf(),
        later.time.wf(),
        earlier.date.wf(),
        earlier.time.wf(),
    ensures
        r@ == (later.date@ - earlier.date@) * NANOS_PER_DAY + later.time@.since(earlier.time@),
{
    let (a, b) = (later.time, earlier.time);
    let a = NaiveTime::from_num_seconds_from_midnight_opt(a.secs, a.frac).unwrap();
    let b = NaiveTime::from_num_seconds_from_midnight_opt(b.secs, b.frac).unwrap();
    let a = NaiveDate::from_num_days_from_ce_opt(later.date.days).unwrap().and_time(a);
    let b = NaiveDate::from_num_days_from_ce_opt(earlier.date.days).unwrap().and_time(b);
    let span = a.and_utc().signed_duration_since(b.and_utc());
    Duration { secs: span.num_seconds(), nanos: span.subsec_nanos() }
}

} // verus!
