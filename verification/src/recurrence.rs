use vstd::prelude::*;
use crate::datetimeinterval::DateTimeInterval;

verus! {

/// A rule that gives one occurrence after another.
pub trait Recurrence {
    /// The interval from which the first occurrence is worked out, if the rule has any
    /// occurrence. It is itself no occurrence.
    spec fn first(&self) -> Option<DateTimeInterval>;

    /// The occurrence that follows `current`, if there is one.
    spec fn following(&self, current: &DateTimeInterval) -> Option<DateTimeInterval>;

    fn first_interval(&self) -> (r: Option<DateTimeInterval>)
        ensures
            r == self.first(),
    ;

    fn get_next_interval(&self, interval: &DateTimeInterval) -> (r: Option<DateTimeInterval>)
        ensures
            r == self.following(interval),
    ;
}

/// What follows `current` under `recurrence`: nothing, once there was nothing.
pub open spec fn advance<T: Recurrence>(recurrence: &T, current: Option<DateTimeInterval>)
    -> Option<DateTimeInterval> {
    match current {
        Some(interval) => recurrence.following(&interval),
        None => None,
    }
}

/// The occurrence that the pull number `n` gives, counting from 0: the first pull works
/// from the interval that `first` gives.
pub open spec fn occurrence<T: Recurrence>(recurrence: &T, n: nat) -> Option<DateTimeInterval>
    decreases n,
{
    if n == 0 {
        advance(recurrence, recurrence.first())
    } else {
        advance(recurrence, occurrence(recurrence, (n - 1) as nat))
    }
}

/// Once a pull has given nothing, every later pull gives nothing.
pub proof fn lemma_exhaustion_is_final<T: Recurrence>(recurrence: &T, n: nat, m: nat)
    requires
        occurrence(recurrence, n) is None,
        n <= m,
    ensures
        occurrence(recurrence, m) is None,
    decreases m,
{
    if n < m {
        lemma_exhaustion_is_final(recurrence, n, (m - 1) as nat);
    }
}

/// The occurrences of a recurrence, one with each pull.
#[derive(Debug)]
pub struct RecurrenceIterator<T> {
    interval: Option<DateTimeInterval>,
    recurrence: T,
}

impl<T: Recurrence> RecurrenceIterator<T> {
    /// What the last pull gave; before the first pull, what `first` gives.
    pub closed spec fn current(&self) -> Option<DateTimeInterval> {
        self.interval
    }

    pub closed spec fn recurrence(&self) -> T {
        self.recurrence
    }

    /// The pulls so far have been the first `n` of `recurrence`.
    pub open spec fn pulled(&self, n: nat) -> bool {
        if n == 0 {
            self.current() == self.recurrence().first()
        } else {
            self.current() == occurrence(&self.recurrence(), (n - 1) as nat)
        }
    }

    pub fn new(recurrence: T) -> (r: RecurrenceIterator<T>)
        ensures
            r.recurrence() == recurrence,
            r.current() == recurrence.first(),
            r.pulled(0),
    {
        let interval = recurrence.first_interval();
        RecurrenceIterator { interval, recurrence }
    }

    /// Pulls the next occurrence. After a pull that gave nothing every pull gives nothing.
    pub fn next(&mut self) -> (r: Option<DateTimeInterval>)
        ensures
            final(self).recurrence() == old(self).recurrence(),
            final(self).current() == advance(&old(self).recurrence(), old(self).current()),
            r == final(self).current(),
            old(self).current() is None ==> r is None,
            forall|n: nat| old(self).pulled(n) ==> final(self).pulled(n + 1) && r == occurrence(
                &old(self).recurrence(),
                n,
            ),
    {
        self.interval = next_interval(&self.recurrence, &self.interval);
        self.interval
    }
}

fn next_interval<T: Recurrence>(recurrence: &T, current_interval: &Option<DateTimeInterval>) -> (r:
    Option<DateTimeInterval>)
    ensures
        r == advance(recurrence, *current_interval),
{
    match current_interval {
        Some(interval) => recurrence.get_next_interval(interval),
        None => None,
    }
}

} // verus!
