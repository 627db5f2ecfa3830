use vstd::prelude::*;
use crate::calendar::date_difference;
use crate::interval::Interval;
use crate::types::{Date, Duration, NANOS_PER_DAY};

verus! {

pub type DateInterval = Interval<Date>;

impl DateInterval {
    /// The whole days from `from` to `till`. The duration is zero exactly when the two
    /// are the same date.
    pub fn duration(&self) -> (r: Duration)
        ensures
            r@ == (self.till@ - self.from@) * NANOS_PER_DAY,
            r@ == 0 <==> self.from == self.till,
    {
        proof {
            use_type_invariant(&self.from);
            use_type_invariant(&self.till);
            if self.till@ == self.from@ {
                Date::lemma_same_day(self.from, self.till);
            }
        }
        date_difference(&self.till, &self.from)
    }
}

} // verus!
