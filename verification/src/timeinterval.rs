use vstd::prelude::*;
use crate::calendar::time_difference;
use crate::interval::Interval;
use crate::types::{Duration, Time};

verus! {

pub type TimeInterval = Interval<Time>;

impl TimeInterval {
    /// The span from `from` to `till` on one day. The duration is zero exactly when the
    /// two are the same time.
    pub fn duration(&self) -> (r: Duration)
        ensures
            r@ == self.till@.since(self.from@),
            r@ == 0 <==> self.from == self.till,
    {
        proof {
            use_type_invariant(&self.from);
            use_type_invariant(&self.till);
            if self.till@ == self.from@ {
                Time::lemma_same_time(self.from, self.till);
            }
        }
        time_difference(&self.till, &self.from)
    }
}

} // verus!
