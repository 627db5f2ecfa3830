use vstd::prelude::*;
use crate::calendar::datetime_difference;
use crate::interval::Interval;
use crate::types::{Date, DateTime, Duration, Time, NANOS_PER_DAY, NANOS_PER_SEC, SECS_PER_DAY};

verus! {

pub type DateTimeInterval = Interval<DateTime>;

/// `earlier` lies in the leap second before midnight and `later` as far into the next day:
/// the two differ, and the span between them is counted as zero.
pub open spec fn a_leap_second_apart(earlier: DateTime, later: DateTime) -> bool {
    &&& later.date@ == earlier.date@ + 1
    &&& earlier.time@.secs == SECS_PER_DAY - 1
    &&& later.time@.secs == 0
    &&& earlier.time@.frac == later.time@.frac + NANOS_PER_SEC
}

impl DateTimeInterval {
    /// The span from `from` to `till`: the whole days between the two dates and the span
    /// between the two times of day. The duration is zero when the two are the same, and
    /// otherwise only when they lie one leap second apart across midnight.
    pub fn duration(&self) -> (r: Duration)
        ensures
            r@ == (self.till.date@ - self.from.date@) * NANOS_PER_DAY + self.till.time@.since(
                self.from.time@,
            ),
            r@ == 0 <==> self.from == self.till || a_leap_second_apart(self.from, self.till)
                || a_leap_second_apart(self.till, self.from),
    {
        proof {
            use_type_invariant(&self.from.date);
            use_type_invariant(&self.till.date);
            use_type_invariant(&self.from.time);
            use_type_invariant(&self.till.time);
            if self.till.date@ == self.from.date@ {
                Date::lemma_same_day(self.from.date, self.till.date);
            }
            if self.till.time@ == self.from.time@ {
                Time::lemma_same_time(self.from.time, self.till.time);
            }
        }
        datetime_difference(&self.till, &self.from)
    }
}

} // verus!
