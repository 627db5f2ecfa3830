use vstd::prelude::*;
use crate::calendar::{date_checked_add, datetime_checked_add};
use crate::interval::Endpoint;

verus! {

/// Day number of the earliest date (January 1 of the year 262144 BCE).
pub const MIN_DATE_DAYS: i32 = -95_746_129;

/// Day number of the latest date (December 31 of the year 262142 CE).
pub const MAX_DATE_DAYS: i32 = 95_745_399;

pub const SECS_PER_DAY: u32 = 86_400;

pub const NANOS_PER_SEC: u32 = 1_000_000_000;

pub const NANOS_PER_DAY: i64 = 86_400_000_000_000;

/// The longest duration, in whole days.
pub const MAX_DURATION_DAYS: i64 = 106_751_991_167;

/// The longest duration, in milliseconds; the shortest is its negation.
pub const MAX_DURATION_MILLIS: i64 = 9_223_372_036_854_775_807;

/// A calendar date of the proleptic Gregorian calendar, held as its day number:
/// January 1 of the year 1 is day 1.
#[derive(Clone, Copy, Debug, PartialEq, Eq, Structural)]
pub struct Date {
    pub(crate) days: i32,
}

impl View for Date {
    type V = int;

    /// The day number.
    closed spec fn view(&self) -> int {
        self.days as int
    }
}

impl Date {
    #[verifier::type_invariant]
    pub open spec fn wf(self) -> bool {
        MIN_DATE_DAYS <= self@ <= MAX_DATE_DAYS
    }

    /// The date with day number `days`.
    pub closed spec fn of_days(days: int) -> Date {
        Date { days: days as i32 }
    }

    /// `of_days` gives the date with that day number, where there is one.
    pub proof fn lemma_of_days(days: int)
        requires
            MIN_DATE_DAYS <= days <= MAX_DATE_DAYS,
        ensures
            Date::of_days(days)@ == days,
    {
    }

    /// Dates with the same day number are the same date.
    pub proof fn lemma_same_day(a: Date, b: Date)
        requires
            a@ == b@,
        ensures
            a == b,
    {
    }

    /// The date with day number `days`, if there is one.
    pub fn from_days(days: i32) -> (r: Option<Date>)
        ensures
            r is Some <==> MIN_DATE_DAYS <= days <= MAX_DATE_DAYS,
            r matches Some(d) ==> d@ == days,
    {
        if MIN_DATE_DAYS <= days && days <= MAX_DATE_DAYS {
            Some(Date { days })
        } else {
            None
        }
    }

    pub fn days(&self) -> (r: i32)
        ensures
            r == self@,
            self.wf(),
    {
        proof {
            use_type_invariant(self);
        }
        self.days
    }

    /// The date `n` days later (earlier, for a negative `n`), if there is one.
    pub open spec fn plus_days(self, n: int) -> Option<Date> {
        if MIN_DATE_DAYS <= self@ + n <= MAX_DATE_DAYS {
            Some(Date::of_days(self@ + n))
        } else {
            None
        }
    }

    /// The date as many days later as `span` has whole days, or `None` where the dates
    /// end before that.
    pub fn checked_add_signed(&self, span: &Duration) -> (r: Option<Date>)
        ensures
            r == self.plus_days(span.whole_days()),
    {
        proof {
            use_type_invariant(self);
            use_type_invariant(span);
        }
        let r = date_checked_add(self, span);
        proof {
            if let Some(sum) = r {
                Date::lemma_of_days(self@ + span.whole_days());
                Date::lemma_same_day(sum, Date::of_days(self@ + span.whole_days()));
            }
        }
        r
    }

    /// The given time of day on this date.
    pub fn and_time(&self, time: Time) -> (r: DateTime)
        ensures
            r.date == *self,
            r.time == time,
    {
        DateTime { date: *self, time }
    }
}

impl Endpoint for Date {
    open spec fn before(&self, other: &Self) -> bool {
        self@ < other@
    }

    proof fn lemma_strict_total_order(a: Self, b: Self, c: Self) {
        if a@ == b@ {
            Date::lemma_same_day(a, b);
        }
    }

    fn is_before(&self, other: &Self) -> (r: bool) {
        assert(self.before(other) == (self@ < other@));
        self.days < other.days
    }

    fn is_same(&self, other: &Self) -> (r: bool) {
        self.days == other.days
    }
}

/// What a `Time` holds: the whole seconds since midnight, and the nanoseconds since that
/// second. In a leap second `secs` names the second before it and `frac` is at least
/// `NANOS_PER_SEC`.
pub struct TimeOfDay {
    pub secs: int,
    pub frac: int,
}

impl TimeOfDay {
    pub open spec fn before(self, other: TimeOfDay) -> bool {
        self.secs < other.secs || (self.secs == other.secs && self.frac < other.frac)
    }

    /// The nanoseconds from `earlier` to `self` on one day. A leap second that either
    /// holds is counted; no other is.
    pub open spec fn since(self, earlier: TimeOfDay) -> int {
        let leap: int = if self.secs > earlier.secs && earlier.frac >= NANOS_PER_SEC {
            1
        } else if self.secs < earlier.secs && self.frac >= NANOS_PER_SEC {
            -1
        } else {
            0
        };
        (self.secs - earlier.secs + leap) * NANOS_PER_SEC + (self.frac - earlier.frac)
    }

    /// The same time of day outside a leap second.
    pub open spec fn without_leap(self) -> TimeOfDay {
        TimeOfDay {
            secs: self.secs,
            frac: if self.frac >= NANOS_PER_SEC {
                self.frac - NANOS_PER_SEC
            } else {
                self.frac
            },
        }
    }

    pub open spec fn wf(self) -> bool {
        &&& 0 <= self.secs < SECS_PER_DAY
        &&& 0 <= self.frac < 2 * NANOS_PER_SEC
        &&& self.frac >= NANOS_PER_SEC ==> self.secs % 60 == 59
    }
}

/// A time of day, to the nanosecond. The last second of a minute may be followed by a
/// leap second.
#[derive(Clone, Copy, Debug, PartialEq, Eq, Structural)]
pub struct Time {
    pub(crate) secs: u32,
    pub(crate) frac: u32,
}

impl View for Time {
    type V = TimeOfDay;

    closed spec fn view(&self) -> TimeOfDay {
        TimeOfDay { secs: self.secs as int, frac: self.frac as int }
    }
}

impl Time {
    #[verifier::type_invariant]
    pub open spec fn wf(self) -> bool {
        self@.wf()
    }

    /// The time that holds `t`.
    pub closed spec fn of(t: TimeOfDay) -> Time {
        Time { secs: t.secs as u32, frac: t.frac as u32 }
    }

    /// `of` gives the time that holds `t`, where `t` is a time of day.
    pub proof fn lemma_of(t: TimeOfDay)
        requires
            t.wf(),
        ensures
            Time::of(t)@ == t,
    {
    }

    /// Times that hold the same are the same time.
    pub proof fn lemma_same_time(a: Time, b: Time)
        requires
            a@ == b@,
        ensures
            a == b,
    {
    }

    /// The time `secs` seconds after midnight and `frac` nanoseconds into that second, if
    /// there is one. `frac` may reach into a leap second only after the last second of a
    /// minute.
    pub fn new(secs: u32, frac: u32) -> (r: Option<Time>)
        ensures
            r is Some <==> (TimeOfDay { secs: secs as int, frac: frac as int }).wf(),
            r matches Some(t) ==> t@.secs == secs && t@.frac == frac,
    {
        if secs >= SECS_PER_DAY || frac >= 2 * NANOS_PER_SEC || (frac >= NANOS_PER_SEC && secs % 60
            != 59) {
            None
        } else {
            Some(Time { secs, frac })
        }
    }

    /// The start of the day.
    pub fn midnight() -> (r: Time)
        ensures
            r@ == (TimeOfDay { secs: 0, frac: 0 }),
    {
        Time { secs: 0, frac: 0 }
    }

    /// The time `hour:min:sec`, if there is one. No leap second can be named this way.
    pub fn from_hms(hour: u32, min: u32, sec: u32) -> (r: Option<Time>)
        ensures
            r is Some <==> hour < 24 && min < 60 && sec < 60,
            r matches Some(t) ==> t@.secs == hour * 3600 + min * 60 + sec && t@.frac == 0,
    {
        if hour < 24 && min < 60 && sec < 60 {
            Some(Time { secs: hour * 3600 + min * 60 + sec, frac: 0 })
        } else {
            None
        }
    }

    pub fn secs(&self) -> (r: u32)
        ensures
            r == self@.secs,
            self.wf(),
    {
        proof {
            use_type_invariant(self);
        }
        self.secs
    }

    pub fn frac(&self) -> (r: u32)
        ensures
            r == self@.frac,
            self.wf(),
    {
        proof {
            use_type_invariant(self);
        }
        self.frac
    }
}

impl Endpoint for Time {
    open spec fn before(&self, other: &Self) -> bool {
        self@.before(other@)
    }

    proof fn lemma_strict_total_order(a: Self, b: Self, c: Self) {
        if a@ == b@ {
            Time::lemma_same_time(a, b);
        }
    }

    fn is_before(&self, other: &Self) -> (r: bool) {
        assert(self.before(other) == self@.before(other@));
        self.secs < other.secs || (self.secs == other.secs && self.frac < other.frac)
    }

    fn is_same(&self, other: &Self) -> (r: bool) {
        self.secs == other.secs && self.frac == other.frac
    }
}

/// A date and a time of day on it, in UTC.
#[derive(Clone, Copy, Debug, PartialEq, Eq, Structural)]
pub struct DateTime {
    pub date: Date,
    pub time: Time,
}

impl DateTime {
    /// Midnight at the start of the earliest date: no date-time lies before it.
    pub open spec fn earliest() -> DateTime {
        DateTime {
            date: Date::of_days(MIN_DATE_DAYS as int),
            time: Time::of(TimeOfDay { secs: 0, frac: 0 }),
        }
    }

    /// The same time of day `n` days later, if there is such a date; a time inside a leap
    /// second is moved out of it, one second back.
    pub open spec fn plus_days(self, n: int) -> Option<DateTime> {
        match self.date.plus_days(n) {
            Some(date) => Some(DateTime { date, time: Time::of(self.time@.without_leap()) }),
            None => None,
        }
    }

    /// The date-time as many days later as `span`, which is one or more whole days, or
    /// `None` where the dates end before that.
    pub(crate) fn checked_add_signed(&self, span: &Duration) -> (r: Option<DateTime>)
        requires
            span.is_whole_days(),
            span@ > 0,
        ensures
            r == self.plus_days(span.days()),
    {
        proof {
            use_type_invariant(&self.date);
            use_type_invariant(&self.time);
            use_type_invariant(span);
        }
        let r = datetime_checked_add(self, span);
        proof {
            if let Some(sum) = r {
                Date::lemma_of_days(self.date@ + span.days());
                Date::lemma_same_day(sum.date, Date::of_days(self.date@ + span.days()));
                Time::lemma_of(self.time@.without_leap());
                Time::lemma_same_time(sum.time, Time::of(self.time@.without_leap()));
            }
        }
        r
    }
}

impl Endpoint for DateTime {
    open spec fn before(&self, other: &Self) -> bool {
        self.date@ < other.date@ || (self.date@ == other.date@ && self.time@.before(other.time@))
    }

    proof fn lemma_strict_total_order(a: Self, b: Self, c: Self) {
        if a.date@ == b.date@ {
            Date::lemma_same_day(a.date, b.date);
        }
        if a.time@ == b.time@ {
            Time::lemma_same_time(a.time, b.time);
        }
    }

    fn is_before(&self, other: &Self) -> (r: bool) {
        self.date.is_before(&other.date) || (self.date.is_same(&other.date) && self.time.is_before(
            &other.time,
        ))
    }

    fn is_same(&self, other: &Self) -> (r: bool) {
        self.date.is_same(&other.date) && self.time.is_same(&other.time)
    }
}

/// A signed span of time, to the nanosecond, of at most `MAX_DURATION_MILLIS` milliseconds
/// either way.
#[derive(Clone, Copy, Debug, PartialEq, Eq, Structural)]
pub struct Duration {
    pub(crate) secs: i64,
    pub(crate) nanos: i32,
}

impl View for Duration {
    type V = int;

    /// The span in nanoseconds.
    closed spec fn view(&self) -> int {
        self.secs * NANOS_PER_SEC + self.nanos
    }
}

impl Duration {
    /// The whole seconds of the span, rounded towards zero.
    pub closed spec fn whole_secs(self) -> int {
        self.secs as int
    }

    /// The nanoseconds beyond the whole seconds; they have the sign of the span.
    pub closed spec fn sub_nanos(self) -> int {
        self.nanos as int
    }

    #[verifier::type_invariant]
    pub open spec fn wf(self) -> bool {
        &&& self@ == self.whole_secs() * NANOS_PER_SEC + self.sub_nanos()
        &&& -NANOS_PER_SEC < self.sub_nanos() < NANOS_PER_SEC
        &&& self.whole_secs() > 0 ==> self.sub_nanos() >= 0
        &&& self.whole_secs() < 0 ==> self.sub_nanos() <= 0
        &&& -MAX_DURATION_MILLIS * 1_000_000 <= self@ <= MAX_DURATION_MILLIS * 1_000_000
    }

    /// The whole days of the span, rounded towards zero.
    pub open spec fn whole_days(self) -> int {
        if self.whole_secs() >= 0 {
            self.whole_secs() / (SECS_PER_DAY as int)
        } else {
            -((-self.whole_secs()) / (SECS_PER_DAY as int))
        }
    }

    /// The span is a number of days of 86400 seconds.
    pub open spec fn is_whole_days(self) -> bool {
        self@ % (NANOS_PER_DAY as int) == 0
    }

    /// The days of a span of whole days.
    pub open spec fn days(self) -> int {
        self@ / (NANOS_PER_DAY as int)
    }

    /// A span of `k` days is of whole days, and `k` is the number of its days.
    pub proof fn lemma_span_of_days(span: Duration, k: int)
        requires
            span.wf(),
            span@ == k * NANOS_PER_DAY,
        ensures
            span.is_whole_days(),
            span.days() == k,
            span.whole_days() == k,
    {
        let s = span.whole_secs();
        let n = span.sub_nanos();
        assert(span@ % 86_400_000_000_000 == 0 && span@ / 86_400_000_000_000 == k)
            by (nonlinear_arith)
            requires
                span@ == k * 86_400_000_000_000,
        ;
        assert(n == 0 && s == k * 86_400) by (nonlinear_arith)
            requires
                s * 1_000_000_000 + n == k * 86_400_000_000_000,
                -1_000_000_000 < n < 1_000_000_000,
        ;
        if s >= 0 {
            assert(s / 86_400 == k) by (nonlinear_arith)
                requires
                    s == k * 86_400,
            ;
        } else {
            assert((-s) / 86_400 == -k) by (nonlinear_arith)
                requires
                    -s == (-k) * 86_400,
            ;
        }
    }

    /// The span of `secs` seconds and `nanos` nanoseconds, if the two have the same sign,
    /// `nanos` is short of a second, and the span is not too long.
    pub fn new(secs: i64, nanos: i32) -> (r: Option<Duration>)
        ensures
            r is Some <==> Duration::within_limits(secs as int, nanos as int),
            r matches Some(d) ==> d.whole_secs() == secs && d.sub_nanos() == nanos && d@ == secs
                * NANOS_PER_SEC + nanos,
    {
        let short = -1_000_000_000 < nanos && nanos < 1_000_000_000;
        let signs = (secs <= 0 || nanos >= 0) && (secs >= 0 || nanos <= 0);
        // MAX_DURATION_MILLIS milliseconds are 9_223_372_036_854_775 s and 807 ms.
        let bounded = (-9_223_372_036_854_775 < secs && secs < 9_223_372_036_854_775) || (secs
            == 9_223_372_036_854_775 && nanos <= 807_000_000) || (secs == -9_223_372_036_854_775
            && nanos >= -807_000_000);
        if short && signs && bounded {
            Some(Duration { secs, nanos })
        } else {
            None
        }
    }

    pub open spec fn within_limits(secs: int, nanos: int) -> bool {
        &&& -NANOS_PER_SEC < nanos < NANOS_PER_SEC
        &&& secs > 0 ==> nanos >= 0
        &&& secs < 0 ==> nanos <= 0
        &&& -MAX_DURATION_MILLIS * 1_000_000 <= secs * NANOS_PER_SEC + nanos <= MAX_DURATION_MILLIS
            * 1_000_000
    }

    pub fn num_seconds(&self) -> (r: i64)
        ensures
            r == self.whole_secs(),
            self.wf(),
    {
        proof {
            use_type_invariant(self);
        }
        self.secs
    }

    pub fn subsec_nanos(&self) -> (r: i32)
        ensures
            r == self.sub_nanos(),
            self.wf(),
    {
        proof {
            use_type_invariant(self);
        }
        self.nanos
    }
}

} // verus!
