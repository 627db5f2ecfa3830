use vstd::prelude::*;
use vstd::std_specs::cmp::PartialEqSpecImpl;

verus! {

/// A point of a strictly and totally ordered line, such as a date or a time of day.
///
/// Two points are the same point exactly when they are equal values.
pub trait Endpoint: Sized {
    /// `self` lies strictly before `other`.
    spec fn before(&self, other: &Self) -> bool;

    /// `before` is irreflexive and transitive, and any two different points are ordered.
    proof fn lemma_strict_total_order(a: Self, b: Self, c: Self)
        ensures
            !a.before(&a),
            a.before(&b) && b.before(&c) ==> a.before(&c),
            a.before(&b) || b.before(&a) || a == b,
    ;

    fn is_before(&self, other: &Self) -> (r: bool)
        ensures
            r == self.before(other),
    ;

    fn is_same(&self, other: &Self) -> (r: bool)
        ensures
            r == (*self == *other),
    ;
}

/// Whether the boundary point of an interval belongs to it (`Closed`) or not (`Open`).
#[derive(Debug, PartialEq, Eq, Clone, Copy, Structural)]
pub enum IntervalEdge {
    Closed,
    Open,
}

/// The points from `from` to `till`, each boundary with its own edge.
#[derive(Debug, Clone, Copy)]
pub struct Interval<T> {
    pub from: T,
    pub till: T,
    pub fromedge: IntervalEdge,
    pub tilledge: IntervalEdge,
}

/// The boundaries that were refused for an interval, because `from` lies after `till`.
#[derive(Debug, Clone, Copy)]
pub struct InvalidInterval<T> {
    pub from: T,
    pub till: T,
}

impl<T: Endpoint> Interval<T> {
    /// The boundaries are in order.
    pub open spec fn wf(&self) -> bool {
        !self.till.before(&self.from)
    }

    /// What `new` gives for these boundaries and edges.
    pub open spec fn made(from: T, till: T, fromedge: IntervalEdge, tilledge: IntervalEdge)
        -> Result<Interval<T>, InvalidInterval<T>> {
        if till.before(&from) {
            Err(InvalidInterval { from, till })
        } else {
            Ok(Interval { from, till, fromedge, tilledge })
        }
    }

    /// What `interval_from_opt` gives: no interval unless both boundaries are there.
    pub open spec fn made_from_opt(
        optfrom: Option<T>,
        opttill: Option<T>,
        fromedge: IntervalEdge,
        tilledge: IntervalEdge,
    ) -> Result<Option<Interval<T>>, InvalidInterval<T>> {
        match (optfrom, opttill) {
            (Some(from), Some(till)) => match Self::made(from, till, fromedge, tilledge) {
                Ok(interval) => Ok(Some(interval)),
                Err(refused) => Err(refused),
            },
            _ => Ok(None),
        }
    }

    /// The interval from `from` to `till` with the given edges. It is refused, with the two
    /// boundaries, exactly when `from` lies after `till`.
    pub fn new(from: T, till: T, fromedge: IntervalEdge, tilledge: IntervalEdge) -> (r: Result<
        Interval<T>,
        InvalidInterval<T>,
    >)
        ensures
            r == Self::made(from, till, fromedge, tilledge),
            from.before(&till) || from == till ==> r is Ok,
            till.before(&from) ==> r is Err,
            r matches Ok(interval) ==> interval.wf(),
    {
        proof {
            T::lemma_strict_total_order(from, till, from);
        }
        if till.is_before(&from) {
            Err(InvalidInterval { from, till })
        } else {
            Ok(Interval { from, till, fromedge, tilledge })
        }
    }

    /// The closed interval `[from, till]`.
    pub fn closed_interval(from: T, till: T) -> (r: Result<Interval<T>, InvalidInterval<T>>)
        ensures
            r == Self::made(from, till, IntervalEdge::Closed, IntervalEdge::Closed),
    {
        Interval::new(from, till, IntervalEdge::Closed, IntervalEdge::Closed)
    }

    /// The open interval `(from, till)`.
    pub fn open_interval(from: T, till: T) -> (r: Result<Interval<T>, InvalidInterval<T>>)
        ensures
            r == Self::made(from, till, IntervalEdge::Open, IntervalEdge::Open),
    {
        Interval::new(from, till, IntervalEdge::Open, IntervalEdge::Open)
    }

    /// The interval between two boundaries that may be missing: none where either is
    /// missing, else as `new` gives it.
    pub fn interval_from_opt(
        optfrom: Option<T>,
        opttill: Option<T>,
        fromedge: IntervalEdge,
        tilledge: IntervalEdge,
    ) -> (r: Result<Option<Interval<T>>, InvalidInterval<T>>)
        ensures
            r == Self::made_from_opt(optfrom, opttill, fromedge, tilledge),
            optfrom is None || opttill is None ==> r == Ok::<
                Option<Interval<T>>,
                InvalidInterval<T>,
            >(None),
            r matches Ok(Some(interval)) ==> interval.wf(),
    {
        match (optfrom, opttill) {
            (Some(from), Some(till)) => match Interval::new(from, till, fromedge, tilledge) {
                Ok(interval) => Ok(Some(interval)),
                Err(refused) => Err(refused),
            },
            _ => Ok(None),
        }
    }

    pub fn open_interval_from_opt(optfrom: Option<T>, opttill: Option<T>) -> (r: Result<
        Option<Interval<T>>,
        InvalidInterval<T>,
    >)
        ensures
            r == Self::made_from_opt(optfrom, opttill, IntervalEdge::Open, IntervalEdge::Open),
    {
        Interval::interval_from_opt(optfrom, opttill, IntervalEdge::Open, IntervalEdge::Open)
    }

    pub fn closed_interval_from_opt(optfrom: Option<T>, opttill: Option<T>) -> (r: Result<
        Option<Interval<T>>,
        InvalidInterval<T>,
    >)
        ensures
            r == Self::made_from_opt(optfrom, opttill, IntervalEdge::Closed, IntervalEdge::Closed),
    {
        Interval::interval_from_opt(optfrom, opttill, IntervalEdge::Closed, IntervalEdge::Closed)
    }

    /// The interval holds the boundary `value` of another interval whose edge there is
    /// `edge`: `value` lies strictly inside, or it is one of this interval's boundaries and
    /// the edge there is the same.
    pub open spec fn holds_boundary(&self, value: T, edge: IntervalEdge) -> bool {
        ||| self.from.before(&value) && value.before(&self.till)
        ||| value == self.from && self.fromedge == edge
        ||| value == self.till && self.tilledge == edge
    }

    /// The interval holds both boundaries of `other`.
    pub open spec fn holds(&self, other: &Interval<T>) -> bool {
        self.holds_boundary(other.from, other.fromedge) && self.holds_boundary(
            other.till,
            other.tilledge,
        )
    }

    /// The interval holds `other`, or lies strictly inside it.
    pub open spec fn meets(&self, other: &Interval<T>) -> bool {
        self.holds(other) || (other.from.before(&self.from) && self.till.before(&other.till))
    }

    /// Both edges are closed.
    pub open spec fn closed(&self) -> bool {
        self.fromedge == IntervalEdge::Closed && self.tilledge == IntervalEdge::Closed
    }

    /// The boundaries are one point, which an open edge leaves out: the interval holds no
    /// point.
    pub open spec fn empty(&self) -> bool {
        self.from == self.till && !self.closed()
    }

    /// The boundaries are one point and both edges are closed: the interval holds that
    /// point alone.
    pub open spec fn point(&self) -> bool {
        self.from == self.till && self.closed()
    }

    fn contains_value(&self, value: &T, edge: &IntervalEdge) -> (r: bool)
        ensures
            r == self.holds_boundary(*value, *edge),
    {
        if self.from.is_before(value) && value.is_before(&self.till) {
            true
        } else if value.is_same(&self.from) && self.fromedge == *edge {
            true
        } else {
            value.is_same(&self.till) && self.tilledge == *edge
        }
    }

    pub fn contains(&self, interval: &Interval<T>) -> (r: bool)
        ensures
            r == self.holds(interval),
    {
        self.contains_value(&interval.from, &interval.fromedge) && self.contains_value(
            &interval.till,
            &interval.tilledge,
        )
    }

    pub fn intersects(&self, other: &Interval<T>) -> (r: bool)
        ensures
            r == self.meets(other),
    {
        self.contains(other) || (other.from.is_before(&self.from) && self.till.is_before(
            &other.till,
        ))
    }

    pub fn is_pointinterval(&self) -> (r: bool)
        ensures
            r == self.point(),
    {
        self.from.is_same(&self.till) && self.is_closed()
    }

    pub fn is_from_closed(&self) -> (r: bool)
        ensures
            r == (self.fromedge == IntervalEdge::Closed),
    {
        self.fromedge == IntervalEdge::Closed
    }

    pub fn is_from_open(&self) -> (r: bool)
        ensures
            r == (self.fromedge == IntervalEdge::Open),
    {
        self.fromedge == IntervalEdge::Open
    }

    pub fn is_till_closed(&self) -> (r: bool)
        ensures
            r == (self.tilledge == IntervalEdge::Closed),
    {
        self.tilledge == IntervalEdge::Closed
    }

    pub fn is_till_open(&self) -> (r: bool)
        ensures
            r == (self.tilledge == IntervalEdge::Open),
    {
        self.tilledge == IntervalEdge::Open
    }

    pub fn is_closed(&self) -> (r: bool)
        ensures
            r == self.closed(),
    {
        self.is_from_closed() && self.is_till_closed()
    }

    pub fn is_open(&self) -> (r: bool)
        ensures
            r == (self.fromedge == IntervalEdge::Open && self.tilledge == IntervalEdge::Open),
    {
        self.is_from_open() && self.is_till_open()
    }

    pub fn isempty(&self) -> (r: bool)
        ensures
            r == self.empty(),
    {
        self.from.is_same(&self.till) && !self.is_closed()
    }

    /// An interval whose boundaries are one point is either empty or a point interval, and
    /// never both; an interval with two different boundaries is neither.
    pub proof fn lemma_empty_or_point(interval: Interval<T>)
        ensures
            interval.from == interval.till ==> interval.empty() != interval.point(),
            interval.from != interval.till ==> !interval.empty() && !interval.point(),
    {
    }

    /// Every interval holds itself.
    pub proof fn lemma_holds_itself(interval: Interval<T>)
        ensures
            interval.holds(&interval),
            interval.meets(&interval),
    {
    }

    /// An interval whose boundaries lie strictly inside another meets it, whichever of the
    /// two is asked: `meets` is true both ways round.
    pub proof fn lemma_meets_when_strictly_inside(outer: Interval<T>, inner: Interval<T>)
        requires
            inner.wf(),
            outer.from.before(&inner.from),
            inner.till.before(&outer.till),
        ensures
            outer.meets(&inner),
            inner.meets(&outer),
    {
        T::lemma_strict_total_order(outer.from, inner.from, inner.till);
        T::lemma_strict_total_order(inner.from, inner.till, outer.till);
        T::lemma_strict_total_order(outer.from, inner.till, outer.till);
        T::lemma_strict_total_order(outer.from, inner.from, outer.till);
    }
}

impl<T: Endpoint> PartialEq for Interval<T> {
    fn eq(&self, other: &Interval<T>) -> (r: bool) {
        self.from.is_same(&other.from) && self.till.is_same(&other.till) && self.fromedge
            == other.fromedge && self.tilledge == other.tilledge
    }
}

impl<T: Endpoint> PartialEqSpecImpl for Interval<T> {
    open spec fn obeys_eq_spec() -> bool {
        true
    }

    open spec fn eq_spec(&self, other: &Interval<T>) -> bool {
        self.from == other.from && self.till == other.till && self.fromedge == other.fromedge
            && self.tilledge == other.tilledge
    }
}

} // verus!
