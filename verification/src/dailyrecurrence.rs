use vstd::prelude::*;
use crate::calendar::{duration_days, duration_sub, min_date};
use crate::datetimeinterval::DateTimeInterval;
use crate::interval::{Endpoint, Interval, IntervalEdge};
use crate::recurrence::{occurrence, Recurrence, RecurrenceIterator};
use crate::timeinterval::TimeInterval;
use crate::types::{
    Date,
    DateTime,
    Duration,
    Time,
    TimeOfDay,
    MAX_DATE_DAYS,
    MAX_DURATION_DAYS,
    MIN_DATE_DAYS,
    NANOS_PER_SEC,
};

verus! {

/// An occurrence on every `step_days`-th day, at the times of day of `window`, as far as
/// `valid` holds it.
#[derive(Debug, Clone, Copy)]
pub struct DailyRecurrence {
    valid_interval: DateTimeInterval,
    time_interval: TimeInterval,
    repetition_interval: Duration,
}

/// The number of days that was refused as the step of a daily recurrence.
#[derive(Debug, Clone, Copy, PartialEq, Eq, Structural)]
pub struct InvalidRepetition {
    pub repetition_days: i64,
}

/// The interval between two boundaries, where both are there and in order.
pub open spec fn ordered(
    from: Option<DateTime>,
    till: Option<DateTime>,
    fromedge: IntervalEdge,
    tilledge: IntervalEdge,
) -> Option<DateTimeInterval> {
    match Interval::made_from_opt(from, till, fromedge, tilledge) {
        Ok(interval) => interval,
        Err(_) => None,
    }
}

/// `candidate`, where `valid` holds it.
pub open spec fn clipped(candidate: Option<DateTimeInterval>, valid: DateTimeInterval) -> Option<
    DateTimeInterval,
> {
    match candidate {
        Some(interval) => if valid.holds(&interval) {
            Some(interval)
        } else {
            None
        },
        None => None,
    }
}

impl DailyRecurrence {
    /// The interval that holds every occurrence.
    pub closed spec fn valid(&self) -> DateTimeInterval {
        self.valid_interval
    }

    /// The times of day at which an occurrence starts and ends, with its edges.
    pub closed spec fn window(&self) -> TimeInterval {
        self.time_interval
    }

    /// The span from one occurrence to the next.
    pub closed spec fn step(&self) -> Duration {
        self.repetition_interval
    }

    /// The days from one occurrence to the next.
    pub open spec fn step_days(&self) -> int {
        self.step().days()
    }

    /// The step is one or more whole days.
    #[verifier::type_invariant]
    pub open spec fn wf(&self) -> bool {
        &&& self.step().wf()
        &&& self.step().is_whole_days()
        &&& self.step_days() >= 1
    }

    /// `interval` starts and ends at the times of day of the window.
    pub open spec fn aligned(&self, interval: &DateTimeInterval) -> bool {
        interval.from.time == self.window().from && interval.till.time == self.window().till
    }

    /// The days from the end of `interval`, which is not aligned, to the day of the
    /// occurrence after it: one less than the step where the window has yet to start on
    /// the day on which `interval` ends.
    pub open spec fn days_ahead(&self, interval: &DateTimeInterval) -> int {
        if interval.till.time@.before(self.window().from@) {
            self.step_days() - 1
        } else {
            self.step_days()
        }
    }

    /// The window on the day `date`.
    pub open spec fn window_on(&self, date: Date) -> Option<DateTimeInterval> {
        ordered(
            Some(DateTime { date, time: self.window().from }),
            Some(DateTime { date, time: self.window().till }),
            self.window().fromedge,
            self.window().tilledge,
        )
    }

    /// What may follow `interval`, before `valid` is asked: an aligned interval moved on by
    /// the step, else the window on the day that comes `days_ahead` after its end.
    pub open spec fn candidate(&self, interval: &DateTimeInterval) -> Option<DateTimeInterval> {
        if self.aligned(interval) {
            ordered(
                interval.from.plus_days(self.step_days()),
                interval.till.plus_days(self.step_days()),
                self.window().fromedge,
                self.window().tilledge,
            )
        } else {
            match interval.till.date.plus_days(self.days_ahead(interval)) {
                Some(date) => self.window_on(date),
                None => None,
            }
        }
    }

    /// `r` is what `new` gives.
    pub open spec fn made(
        valid_interval: DateTimeInterval,
        time_interval: TimeInterval,
        repetition_days: i64,
        r: Result<DailyRecurrence, InvalidRepetition>,
    ) -> bool {
        if 1 <= repetition_days <= MAX_DURATION_DAYS {
            &&& r matches Ok(recurrence)
            &&& recurrence.wf()
            &&& recurrence.valid() == valid_interval
            &&& recurrence.window() == time_interval
            &&& recurrence.step_days() == repetition_days
        } else {
            r == Err::<DailyRecurrence, InvalidRepetition>(InvalidRepetition { repetition_days })
        }
    }

    /// The recurrence of the window `time_interval` on every `repetition_days`-th day
    /// within `valid_interval`. The number of days is refused where it is less than 1, or
    /// more than `MAX_DURATION_DAYS`, which no duration holds.
    pub fn new(
        valid_interval: DateTimeInterval,
        time_interval: TimeInterval,
        repetition_days: i64,
    ) -> (r: Result<DailyRecurrence, InvalidRepetition>)
        ensures
            Self::made(valid_interval, time_interval, repetition_days, r),
            repetition_days < 1 ==> r is Err,
    {
        if repetition_days < 1 || repetition_days > MAX_DURATION_DAYS {
            return Err(InvalidRepetition { repetition_days });
        }
        let repetition_interval = duration_days(repetition_days);
        proof {
            use_type_invariant(&repetition_interval);
            Duration::lemma_span_of_days(repetition_interval, repetition_days as int);
        }
        Ok(DailyRecurrence { valid_interval, time_interval, repetition_interval })
    }

    /// The occurrences of the recurrence, from the first on.
    pub fn into_iter(self) -> (r: RecurrenceIterator<DailyRecurrence>)
        ensures
            r.recurrence() == self,
            r.current() == self.first(),
            r.pulled(0),
    {
        RecurrenceIterator::new(self)
    }

    pub fn valid_interval(&self) -> (r: DateTimeInterval)
        ensures
            r == self.valid(),
    {
        self.valid_interval
    }

    pub fn time_interval(&self) -> (r: TimeInterval)
        ensures
            r == self.window(),
    {
        self.time_interval
    }

    pub fn repetition_interval(&self) -> (r: Duration)
        ensures
            r == self.step(),
            self.wf(),
    {
        proof {
            use_type_invariant(self);
        }
        self.repetition_interval
    }
}

/// The interval between two boundaries that may be missing; none where they are not in
/// order.
fn interval_in_order(
    from: Option<DateTime>,
    till: Option<DateTime>,
    fromedge: IntervalEdge,
    tilledge: IntervalEdge,
) -> (r: Option<DateTimeInterval>)
    ensures
        r == ordered(from, till, fromedge, tilledge),
{
    match Interval::interval_from_opt(from, till, fromedge, tilledge) {
        Ok(interval) => interval,
        Err(_) => None,
    }
}

fn check_if_interval_in_valid_interval(
    optinterval: &Option<DateTimeInterval>,
    valid_interval: &DateTimeInterval,
) -> (r: Option<DateTimeInterval>)
    ensures
        r == clipped(*optinterval, *valid_interval),
{
    if let Some(interval) = optinterval {
        if valid_interval.contains(interval) {
            return *optinterval;
        }
    }
    None
}

impl Recurrence for DailyRecurrence {
    /// The closed interval from the earliest date-time there is to the start of `valid`.
    open spec fn first(&self) -> Option<DateTimeInterval> {
        Some(
            Interval {
                from: DateTime::earliest(),
                till: self.valid().from,
                fromedge: IntervalEdge::Closed,
                tilledge: IntervalEdge::Closed,
            },
        )
    }

    /// The candidate after `current`, where `valid` holds it.
    open spec fn following(&self, current: &DateTimeInterval) -> Option<DateTimeInterval> {
        clipped(self.candidate(current), self.valid())
    }

    fn first_interval(&self) -> (r: Option<DateTimeInterval>) {
        let from = min_date().and_time(Time::midnight());
        proof {
            use_type_invariant(&self.valid_interval.from.date);
            use_type_invariant(&self.valid_interval.from.time);
            Date::lemma_of_days(MIN_DATE_DAYS as int);
            Date::lemma_same_day(from.date, Date::of_days(MIN_DATE_DAYS as int));
            Time::lemma_of(TimeOfDay { secs: 0, frac: 0 });
            Time::lemma_same_time(from.time, Time::of(TimeOfDay { secs: 0, frac: 0 }));
        }
        match DateTimeInterval::new(
            from,
            self.valid_interval.from,
            IntervalEdge::Closed,
            IntervalEdge::Closed,
        ) {
            Ok(startinterval) => Some(startinterval),
            Err(_) => None,
        }
    }

    fn get_next_interval(&self, interval: &DateTimeInterval) -> (r: Option<DateTimeInterval>) {
        proof {
            use_type_invariant(self);
        }
        if interval.from.time == self.time_interval.from && interval.till.time
            == self.time_interval.till {
            let from = interval.from.checked_add_signed(&self.repetition_interval);
            let till = interval.till.checked_add_signed(&self.repetition_interval);
            let newintervalopt = interval_in_order(
                from,
                till,
                self.time_interval.fromedge,
                self.time_interval.tilledge,
            );
            return check_if_interval_in_valid_interval(&newintervalopt, &self.valid_interval);
        }
        let mut numdays = self.repetition_interval;
        proof {
            use_type_invariant(&numdays);
            Duration::lemma_span_of_days(numdays, self.step_days());
        }
        if interval.till.time.is_before(&self.time_interval.from) {
            let day = duration_days(1);
            proof {
                use_type_invariant(&day);
            }
            numdays = duration_sub(&numdays, &day);
            proof {
                use_type_invariant(&numdays);
                Duration::lemma_span_of_days(numdays, self.step_days() - 1);
            }
        }
        let next_date_opt = interval.till.date.checked_add_signed(&numdays);
        if let Some(next_date) = next_date_opt {
            let from = next_date.and_time(self.time_interval.from);
            let till = next_date.and_time(self.time_interval.till);
            let optnextinterval = interval_in_order(
                Some(from),
                Some(till),
                self.time_interval.fromedge,
                self.time_interval.tilledge,
            );
            return check_if_interval_in_valid_interval(&optnextinterval, &self.valid_interval);
        }
        None
    }
}

impl DailyRecurrence {
    /// Neither time of day of the window lies in a leap second.
    pub open spec fn plain_window(&self) -> bool {
        self.window().from@.frac < NANOS_PER_SEC && self.window().till@.frac < NANOS_PER_SEC
    }

    /// The step from an aligned interval: what follows it starts and ends exactly
    /// `step_days` days later, at the same times of day outside a leap second.
    pub proof fn lemma_step_size(recurrence: DailyRecurrence, current: DateTimeInterval)
        requires
            recurrence.wf(),
            recurrence.aligned(&current),
        ensures
            recurrence.following(&current) matches Some(next) ==> {
                &&& next.from.date@ == current.from.date@ + recurrence.step_days()
                &&& next.till.date@ == current.till.date@ + recurrence.step_days()
                &&& next.from.time == Time::of(current.from.time@.without_leap())
                &&& next.till.time == Time::of(current.till.time@.without_leap())
            },
    {
        let k = recurrence.step_days();
        if current.from.date.plus_days(k) is Some {
            Date::lemma_of_days(current.from.date@ + k);
        }
        if current.till.date.plus_days(k) is Some {
            Date::lemma_of_days(current.till.date@ + k);
        }
    }

    /// The step from an interval that is not aligned: what follows it is the window on the
    /// day that lies `days_ahead` after its end.
    pub proof fn lemma_restart(recurrence: DailyRecurrence, current: DateTimeInterval)
        requires
            recurrence.wf(),
            !recurrence.aligned(&current),
        ensures
            recurrence.following(&current) matches Some(next) ==> {
                &&& recurrence.aligned(&next)
                &&& next.from.date == next.till.date
                &&& next.from.date@ == current.till.date@ + recurrence.days_ahead(&current)
            },
    {
        let n = recurrence.days_ahead(&current);
        if current.till.date.plus_days(n) is Some {
            Date::lemma_of_days(current.till.date@ + n);
        }
    }

    /// Under a window without leap seconds, whatever follows an interval is aligned.
    pub proof fn lemma_following_is_aligned(
        recurrence: DailyRecurrence,
        current: DateTimeInterval,
    )
        requires
            recurrence.wf(),
            recurrence.window().from.wf(),
            recurrence.window().till.wf(),
            recurrence.plain_window(),
        ensures
            recurrence.following(&current) matches Some(next) ==> recurrence.aligned(&next),
    {
        if recurrence.aligned(&current) {
            Self::lemma_step_size(recurrence, current);
            let from = recurrence.window().from;
            let till = recurrence.window().till;
            Time::lemma_of(from@);
            Time::lemma_same_time(Time::of(from@), from);
            Time::lemma_of(till@);
            Time::lemma_same_time(Time::of(till@), till);
        } else {
            Self::lemma_restart(recurrence, current);
        }
    }

    /// Two occurrences that one pull and the next give start exactly `step_days` days
    /// apart, where the earlier one is aligned, or is not and the window comes again as
    /// many days after its start as after its end.
    pub proof fn lemma_occurrences_step(recurrence: DailyRecurrence, n: nat)
        requires
            recurrence.wf(),
            occurrence(&recurrence, n) matches Some(earlier) && (recurrence.aligned(&earlier)
                || earlier.till.date@ + recurrence.days_ahead(&earlier) == earlier.from.date@
                + recurrence.step_days()),
            occurrence(&recurrence, n + 1) is Some,
        ensures
            occurrence(&recurrence, n + 1)->0.from.date@ == occurrence(&recurrence, n)->0.from.date@
                + recurrence.step_days(),
    {
        let earlier = occurrence(&recurrence, n)->0;
        assert(occurrence(&recurrence, n + 1) == recurrence.following(&earlier));
        if recurrence.aligned(&earlier) {
            Self::lemma_step_size(recurrence, earlier);
        } else {
            Self::lemma_restart(recurrence, earlier);
        }
    }

    /// Under a window without leap seconds every occurrence is aligned, and two occurrences
    /// that one pull and the next give start exactly `step_days` days apart.
    pub proof fn lemma_plain_occurrences_step(recurrence: DailyRecurrence, n: nat)
        requires
            recurrence.wf(),
            recurrence.window().from.wf(),
            recurrence.window().till.wf(),
            recurrence.plain_window(),
            occurrence(&recurrence, n) is Some,
        ensures
            recurrence.aligned(&occurrence(&recurrence, n)->0),
            occurrence(&recurrence, n + 1) matches Some(later) ==> later.from.date@ == occurrence(
                &recurrence,
                n,
            )->0.from.date@ + recurrence.step_days(),
    {
        if n == 0 {
            Self::lemma_following_is_aligned(recurrence, recurrence.first()->0);
        } else {
            Self::lemma_following_is_aligned(
                recurrence,
                occurrence(&recurrence, (n - 1) as nat)->0,
            );
        }
        if occurrence(&recurrence, n + 1) is Some {
            Self::lemma_occurrences_step(recurrence, n);
        }
    }

    /// No step leaves the dates that there are: what follows an interval lies on dates
    /// that are reached by counting days, and nothing follows where the count passes the
    /// last date.
    pub proof fn lemma_dates_stay_in_range(recurrence: DailyRecurrence, current: DateTimeInterval)
        requires
            recurrence.wf(),
        ensures
            recurrence.following(&current) matches Some(next) ==> next.from.date.wf()
                && next.till.date.wf(),
            recurrence.aligned(&current) && current.till.date@ + recurrence.step_days()
                > MAX_DATE_DAYS ==> recurrence.following(&current) is None,
            !recurrence.aligned(&current) && current.till.date@ + recurrence.days_ahead(&current)
                > MAX_DATE_DAYS ==> recurrence.following(&current) is None,
    {
        if recurrence.aligned(&current) {
            Self::lemma_step_size(recurrence, current);
        } else {
            Self::lemma_restart(recurrence, current);
        }
    }
}

} // verus!
