use chrono::{Datelike, NaiveDate, NaiveTime, Timelike};
use time_recurrence::dailyrecurrence::{DailyRecurrence, InvalidRepetition};
use time_recurrence::datetimeinterval::DateTimeInterval;
use time_recurrence::interval::{Interval, IntervalEdge};
use time_recurrence::recurrence::{Recurrence, RecurrenceIterator};
use time_recurrence::timeinterval::TimeInterval;
use time_recurrence::types::{Date, DateTime, Time, MAX_DATE_DAYS, MAX_DURATION_DAYS, MIN_DATE_DAYS};

struct Occurrences(RecurrenceIterator<DailyRecurrence>);

impl Iterator for Occurrences {
    type Item = DateTimeInterval;

    fn next(&mut self) -> Option<DateTimeInterval> {
        self.0.next()
    }
}

fn occurrences(recurrence: DailyRecurrence) -> Occurrences {
    Occurrences(recurrence.into_iter())
}

fn day(year: i32, month: u32, day: u32) -> Date {
    Date::from_days(NaiveDate::from_ymd_opt(year, month, day).unwrap().num_days_from_ce()).unwrap()
}

fn clock(hour: u32, min: u32, sec: u32) -> Time {
    let time = NaiveTime::from_hms_opt(hour, min, sec).unwrap();
    Time::new(time.num_seconds_from_midnight(), time.nanosecond()).unwrap()
}

fn at(date: Date, time: Time) -> Option<DateTime> {
    Some(date.and_time(time))
}

fn basic_calendar() -> DailyRecurrence {
    let from = clock(12, 00, 00);
    let till = clock(13, 00, 00);
    let ti = TimeInterval::closed_interval(from, till).unwrap();

    let valid_from = at(day(2018, 8, 1), clock(0, 00, 00));
    let valid_till = at(day(2018, 9, 1), clock(0, 00, 00));
    let validdi = DateTimeInterval::interval_from_opt(
        valid_from,
        valid_till,
        IntervalEdge::Closed,
        IntervalEdge::Open,
    ).unwrap();

    return DailyRecurrence::new(validdi.unwrap(), ti, 1).unwrap();
}

fn every(days: i64, valid: DateTimeInterval, window: TimeInterval) -> DailyRecurrence {
    DailyRecurrence::new(valid, window, days).unwrap()
}

#[test]
fn first_interval() {
    let drec = basic_calendar();
    let expectedinterval = DateTimeInterval::closed_interval_from_opt(
        at(day(2018, 8, 1), clock(12, 00, 00)),
        at(day(2018, 8, 1), clock(13, 00, 00)),
    ).unwrap();

    assert_eq!(occurrences(drec).next(), expectedinterval);
}

#[test]
fn second_interval() {
    let drec = basic_calendar();
    let expectedinterval = DateTimeInterval::closed_interval_from_opt(
        at(day(2018, 8, 2), clock(12, 00, 00)),
        at(day(2018, 8, 2), clock(13, 00, 00)),
    ).unwrap();

    assert_eq!(occurrences(drec).skip(1).next(), expectedinterval);
}

#[test]
fn last_interval() {
    let drec = basic_calendar();
    let expectedinterval = DateTimeInterval::closed_interval_from_opt(
        at(day(2018, 8, 31), clock(12, 00, 00)),
        at(day(2018, 8, 31), clock(13, 00, 00)),
    ).unwrap();

    assert_eq!(occurrences(drec).skip(30).next(), expectedinterval);
}

#[test]
fn one_beyond_last_interval() {
    let drec = basic_calendar();
    assert_eq!(occurrences(drec).skip(31).next(), None);
}

#[test]
fn two_beyond_last_interval() {
    let drec = basic_calendar();
    assert_eq!(occurrences(drec).skip(32).next(), None);
}

#[test]
fn pulls_stay_empty_once_exhausted() {
    let mut pulls = basic_calendar().into_iter();
    for _ in 0..31 {
        assert!(pulls.next().is_some());
    }
    for _ in 0..5 {
        assert_eq!(pulls.next(), None);
    }
}

#[test]
fn the_seed_starts_at_the_earliest_date() {
    let drec = basic_calendar();
    let seed = drec.first_interval().unwrap();
    assert_eq!(seed.from.date.days(), NaiveDate::MIN.num_days_from_ce());
    assert_eq!(seed.from.date.days(), MIN_DATE_DAYS);
    assert_eq!(seed.from.time, clock(0, 0, 0));
    assert_eq!(seed.till, day(2018, 8, 1).and_time(clock(0, 0, 0)));
    assert!(seed.is_closed());
    // The seed is what the first pull works from; it is not handed out.
    assert_ne!(occurrences(basic_calendar()).next(), Some(seed));
    assert_eq!(drec.get_next_interval(&seed), occurrences(basic_calendar()).next());
}

#[test]
fn new_refuses_a_step_below_one_day() {
    let drec = basic_calendar();
    let valid = drec.valid_interval();
    let window = drec.time_interval();
    assert_eq!(
        DailyRecurrence::new(valid, window, 0).err(),
        Some(InvalidRepetition { repetition_days: 0 })
    );
    assert_eq!(
        DailyRecurrence::new(valid, window, -3).err(),
        Some(InvalidRepetition { repetition_days: -3 })
    );
    assert_eq!(
        DailyRecurrence::new(valid, window, i64::MIN).err(),
        Some(InvalidRepetition { repetition_days: i64::MIN })
    );
}

#[test]
fn new_refuses_a_step_that_no_duration_holds() {
    let drec = basic_calendar();
    let valid = drec.valid_interval();
    let window = drec.time_interval();
    assert!(chrono::TimeDelta::try_days(MAX_DURATION_DAYS).is_some());
    assert!(chrono::TimeDelta::try_days(MAX_DURATION_DAYS + 1).is_none());
    let longest = DailyRecurrence::new(valid, window, MAX_DURATION_DAYS).unwrap();
    assert_eq!(longest.repetition_interval().num_seconds(), MAX_DURATION_DAYS * 86_400);
    assert_eq!(
        DailyRecurrence::new(valid, window, MAX_DURATION_DAYS + 1).err(),
        Some(InvalidRepetition { repetition_days: MAX_DURATION_DAYS + 1 })
    );
    assert!(DailyRecurrence::new(valid, window, i64::MAX).is_err());
    // The longest step leaves the dates at once.
    assert_eq!(occurrences(longest).skip(1).next(), None);
}

#[test]
fn new_keeps_what_it_was_given() {
    let drec = basic_calendar();
    let valid = drec.valid_interval();
    let window = drec.time_interval();
    let weekly = DailyRecurrence::new(valid, window, 7).unwrap();
    assert_eq!(weekly.valid_interval(), valid);
    assert_eq!(weekly.time_interval(), window);
    assert_eq!(weekly.repetition_interval().num_seconds(), 7 * 86_400);
    assert_eq!(weekly.repetition_interval().subsec_nanos(), 0);
}

#[test]
fn occurrences_lie_a_step_apart() {
    let drec = basic_calendar();
    for step in [1i64, 2, 3, 7, 10] {
        let recurrence = every(step, drec.valid_interval(), drec.time_interval());
        let all: Vec<DateTimeInterval> = occurrences(recurrence).collect();
        // The first occurrence lies one day less than a step after the start of the
        // validity, at midnight of which the window has yet to begin.
        assert_eq!(i64::from(all[0].from.date.days() - day(2018, 8, 1).days()), step - 1);
        assert_eq!(i64::try_from(all.len()).unwrap(), 31 / step);
        for pair in all.windows(2) {
            assert_eq!(i64::from(pair[1].from.date.days() - pair[0].from.date.days()), step);
            assert_eq!(i64::from(pair[1].till.date.days() - pair[0].till.date.days()), step);
            assert_eq!(pair[1].from.time, clock(12, 0, 0));
            assert_eq!(pair[1].till.time, clock(13, 0, 0));
        }
    }
}

#[test]
fn the_first_occurrence_waits_for_the_window() {
    // The validity starts after the window has begun on its first day.
    let window = TimeInterval::closed_interval(clock(12, 0, 0), clock(13, 0, 0)).unwrap();
    let valid = DateTimeInterval::new(
        day(2018, 8, 1).and_time(clock(12, 30, 0)),
        day(2018, 8, 5).and_time(clock(0, 0, 0)),
        IntervalEdge::Closed,
        IntervalEdge::Open,
    ).unwrap();
    // The step counts from the day on which the validity starts, and the occurrence
    // that it lands on has to lie within the validity.
    assert_eq!(
        occurrences(every(1, valid, window)).next(),
        DateTimeInterval::closed_interval_from_opt(
            at(day(2018, 8, 2), clock(12, 0, 0)),
            at(day(2018, 8, 2), clock(13, 0, 0)),
        ).unwrap()
    );
    let valid_early = DateTimeInterval::new(
        day(2018, 8, 1).and_time(clock(11, 59, 59)),
        day(2018, 8, 5).and_time(clock(0, 0, 0)),
        IntervalEdge::Closed,
        IntervalEdge::Open,
    ).unwrap();
    assert_eq!(
        occurrences(every(3, valid_early, window)).next(),
        DateTimeInterval::closed_interval_from_opt(
            at(day(2018, 8, 3), clock(12, 0, 0)),
            at(day(2018, 8, 3), clock(13, 0, 0)),
        ).unwrap()
    );
}

#[test]
fn occurrences_take_the_edges_of_the_window() {
    let window = TimeInterval::new(
        clock(9, 0, 0),
        clock(10, 0, 0),
        IntervalEdge::Open,
        IntervalEdge::Closed,
    ).unwrap();
    let valid = DateTimeInterval::closed_interval(
        day(2018, 8, 1).and_time(clock(0, 0, 0)),
        day(2018, 8, 3).and_time(clock(10, 0, 0)),
    ).unwrap();
    let all: Vec<DateTimeInterval> = occurrences(every(1, valid, window)).collect();
    assert_eq!(all.len(), 3);
    for found in &all {
        assert!(found.is_from_open());
        assert!(found.is_till_closed());
    }
    // An occurrence that ends on an open end of the validity does not lie in it.
    let valid_open = DateTimeInterval::new(
        day(2018, 8, 1).and_time(clock(0, 0, 0)),
        day(2018, 8, 3).and_time(clock(10, 0, 0)),
        IntervalEdge::Closed,
        IntervalEdge::Open,
    ).unwrap();
    assert_eq!(occurrences(every(1, valid_open, window)).count(), 2);
}

#[test]
fn a_step_from_any_interval_lands_on_the_window() {
    let drec = basic_calendar();
    // Not aligned, ending after the window has started: the step counts whole days.
    let odd = DateTimeInterval::closed_interval(
        day(2018, 8, 3).and_time(clock(7, 0, 0)),
        day(2018, 8, 4).and_time(clock(12, 0, 0)),
    ).unwrap();
    assert_eq!(
        drec.get_next_interval(&odd),
        DateTimeInterval::closed_interval_from_opt(
            at(day(2018, 8, 5), clock(12, 0, 0)),
            at(day(2018, 8, 5), clock(13, 0, 0)),
        ).unwrap()
    );
    // Ending before the window starts: the window of that same day comes first.
    let early = DateTimeInterval::closed_interval(
        day(2018, 8, 3).and_time(clock(7, 0, 0)),
        day(2018, 8, 4).and_time(clock(11, 59, 59)),
    ).unwrap();
    assert_eq!(
        drec.get_next_interval(&early),
        DateTimeInterval::closed_interval_from_opt(
            at(day(2018, 8, 4), clock(12, 0, 0)),
            at(day(2018, 8, 4), clock(13, 0, 0)),
        ).unwrap()
    );
    // Aligned, over several days: both ends move on by the step.
    let long = DateTimeInterval::open_interval(
        day(2018, 8, 3).and_time(clock(12, 0, 0)),
        day(2018, 8, 6).and_time(clock(13, 0, 0)),
    ).unwrap();
    assert_eq!(
        drec.get_next_interval(&long),
        DateTimeInterval::closed_interval_from_opt(
            at(day(2018, 8, 4), clock(12, 0, 0)),
            at(day(2018, 8, 7), clock(13, 0, 0)),
        ).unwrap()
    );
}

#[test]
fn stepping_ends_at_the_last_date() {
    let last = Date::from_days(MAX_DATE_DAYS).unwrap();
    assert_eq!(last.days(), NaiveDate::MAX.num_days_from_ce());
    let before = Date::from_days(MAX_DATE_DAYS - 3).unwrap();
    let window = TimeInterval::closed_interval(clock(12, 0, 0), clock(13, 0, 0)).unwrap();
    let valid = DateTimeInterval::closed_interval(
        before.and_time(clock(0, 0, 0)),
        last.and_time(clock(23, 59, 59)),
    ).unwrap();
    let days: Vec<i32> = occurrences(every(1, valid, window)).map(|o| o.from.date.days()).collect();
    assert_eq!(days, vec![MAX_DATE_DAYS - 3, MAX_DATE_DAYS - 2, MAX_DATE_DAYS - 1, MAX_DATE_DAYS]);
    let days: Vec<i32> = occurrences(every(2, valid, window)).map(|o| o.from.date.days()).collect();
    assert_eq!(days, vec![MAX_DATE_DAYS - 2, MAX_DATE_DAYS]);
    let days: Vec<i32> = occurrences(every(5, valid, window)).map(|o| o.from.date.days()).collect();
    assert_eq!(days, Vec::<i32>::new());
    // From the last occurrence no step is left, for either way of stepping.
    let drec = every(1, valid, window);
    let final_one = DateTimeInterval::closed_interval(
        last.and_time(clock(12, 0, 0)),
        last.and_time(clock(13, 0, 0)),
    ).unwrap();
    assert_eq!(drec.get_next_interval(&final_one), None);
    let odd = DateTimeInterval::closed_interval(
        last.and_time(clock(12, 30, 0)),
        last.and_time(clock(13, 0, 0)),
    ).unwrap();
    assert_eq!(drec.get_next_interval(&odd), None);
}

#[test]
fn a_window_in_a_leap_second_is_moved_out_of_it() {
    let leap_end = Time::new(12 * 3600 + 59, 1_500_000_000).unwrap();
    let window = TimeInterval::closed_interval(clock(12, 0, 0), leap_end).unwrap();
    let valid = DateTimeInterval::closed_interval(
        day(2018, 8, 1).and_time(clock(0, 0, 0)),
        day(2018, 8, 9).and_time(clock(0, 0, 0)),
    ).unwrap();
    let drec = every(2, valid, window);
    let first = DateTimeInterval::closed_interval(
        day(2018, 8, 2).and_time(clock(12, 0, 0)),
        day(2018, 8, 2).and_time(leap_end),
    ).unwrap();
    let moved = drec.get_next_interval(&first).unwrap();
    assert_eq!(moved.from, day(2018, 8, 4).and_time(clock(12, 0, 0)));
    assert_eq!(moved.till, day(2018, 8, 4).and_time(Time::new(12 * 3600 + 59, 500_000_000).unwrap()));
    // What was moved out of the leap second is no longer aligned: the window is set anew.
    let again = drec.get_next_interval(&moved).unwrap();
    assert_eq!(again.from, day(2018, 8, 6).and_time(clock(12, 0, 0)));
    assert_eq!(again.till, day(2018, 8, 6).and_time(leap_end));
}

#[test]
fn a_step_that_puts_the_ends_out_of_order_gives_nothing() {
    let start = Time::new(12 * 3600 + 59, 700_000_000).unwrap();
    let leap_end = Time::new(12 * 3600 + 59, 1_500_000_000).unwrap();
    let window = TimeInterval::closed_interval(start, leap_end).unwrap();
    let valid = DateTimeInterval::closed_interval(
        day(2018, 8, 1).and_time(clock(0, 0, 0)),
        day(2018, 8, 9).and_time(clock(0, 0, 0)),
    ).unwrap();
    let all: Vec<DateTimeInterval> = occurrences(every(1, valid, window)).collect();
    assert_eq!(all.len(), 1);
    assert_eq!(all[0].from, day(2018, 8, 1).and_time(start));
    assert_eq!(all[0].till, day(2018, 8, 1).and_time(leap_end));
}

#[test]
fn a_step_is_that_of_the_calendar() {
    let first = Date::from_days(MIN_DATE_DAYS).unwrap();
    let last = Date::from_days(MAX_DATE_DAYS).unwrap();
    let valid = DateTimeInterval::closed_interval(
        first.and_time(clock(0, 0, 0)),
        last.and_time(Time::new(86_399, 1_999_999_999).unwrap()),
    ).unwrap();
    let mut times = Vec::new();
    for secs in [0u32, 59, 43_259, 86_399] {
        for frac in [0u32, 700_000_000, 1_000_000_000, 1_500_000_000, 1_999_999_999] {
            if let Some(time) = Time::new(secs, frac) {
                times.push(time);
            }
        }
    }
    let known = |moment: DateTime| {
        NaiveDate::from_num_days_from_ce_opt(moment.date.days())
            .unwrap()
            .and_time(
                NaiveTime::from_num_seconds_from_midnight_opt(moment.time.secs(), moment.time.frac())
                    .unwrap(),
            )
            .and_utc()
    };
    let mut found_some = 0;
    let mut found_none = 0;
    for step in [1i64, 2, 365, 191_491_528, 191_491_529, MAX_DURATION_DAYS] {
        for start in [MIN_DATE_DAYS, 0, 736_907, MAX_DATE_DAYS - 2, MAX_DATE_DAYS - 1, MAX_DATE_DAYS] {
            for from_time in &times {
                for till_time in &times {
                    let window = Interval {
                        from: *from_time,
                        till: *till_time,
                        fromedge: IntervalEdge::Closed,
                        tilledge: IntervalEdge::Closed,
                    };
                    let date = Date::from_days(start).unwrap();
                    let current = Interval {
                        from: date.and_time(*from_time),
                        till: date.and_time(*till_time),
                        fromedge: IntervalEdge::Closed,
                        tilledge: IntervalEdge::Closed,
                    };
                    let span = chrono::TimeDelta::days(step);
                    let from = known(current.from).checked_add_signed(span);
                    let till = known(current.till).checked_add_signed(span);
                    let expected = match (from, till) {
                        (Some(from), Some(till)) if from <= till => Some((from, till)),
                        _ => None,
                    };
                    let next = every(step, valid, window).get_next_interval(&current);
                    assert_eq!(next.map(|next| (known(next.from), known(next.till))), expected);
                    if let Some(next) = next {
                        found_some += 1;
                        assert_eq!(i64::from(next.from.date.days()) - i64::from(start), step);
                        assert_eq!(i64::from(next.till.date.days()) - i64::from(start), step);
                        assert_eq!(next.from.time.secs(), from_time.secs());
                        assert_eq!(next.from.time.frac(), from_time.frac() % 1_000_000_000);
                        assert_eq!(next.till.time.secs(), till_time.secs());
                        assert_eq!(next.till.time.frac(), till_time.frac() % 1_000_000_000);
                    } else {
                        found_none += 1;
                    }
                }
            }
        }
    }
    assert!(found_some > 0);
    assert!(found_none > 0);
}
