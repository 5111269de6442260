//! Intervals from the ranges of the standard library.

use crate::bound::Bound;
use crate::convert::IntervalIsEmpty;
use crate::inclusion::Exclusive;
use crate::inclusion::Inclusive;
use crate::interval::valid_bounds;
use crate::interval::Interval;
use std::ops::Range;
use std::ops::RangeInclusive;
use vstd::prelude::*;
use vstd::std_specs::convert::TryFromSpecImpl;

verus! {

/// `RangeInclusive::into_inner` of the standard library, which hands out
/// the two ends that the range was made with.
pub assume_specification<Idx>[ RangeInclusive::<Idx>::into_inner ](range: RangeInclusive<Idx>) -> (ends: (
    Idx,
    Idx,
))
    ensures
        ends.0 == range@.start,
        ends.1 == range@.end,
;

/// The range `a..b` is the interval *[a, b)*, where it is not empty.
impl<T: Ord> TryFrom<Range<T>> for Interval<T, Inclusive, Exclusive> {
    type Error = IntervalIsEmpty;

    fn try_from(range: Range<T>) -> (r: Result<Self, IntervalIsEmpty>)
        ensures
            r matches Ok(i) ==> {
                &&& i.left()@ == (Bound { limit: range.start, bound_type: Inclusive })
                &&& i.right()@ == (Bound { limit: range.end, bound_type: Exclusive })
            },
    {
        let r = Interval::new(
            Bound { limit: range.start, bound_type: Inclusive },
            Bound { limit: range.end, bound_type: Exclusive },
        );
        proof {
            if r is Ok {
                r->Ok_0.lemma_from_bounds();
                assert(r == Ok::<Self, IntervalIsEmpty>(
                    Interval::from_bounds(r->Ok_0.left()@, r->Ok_0.right()@),
                ));
            } else {
                assert(r->Err_0 == IntervalIsEmpty);
                assert(r == Err::<Self, IntervalIsEmpty>(IntervalIsEmpty));
            }
        }
        r
    }
}

impl<T: Ord> TryFromSpecImpl<Range<T>> for Interval<T, Inclusive, Exclusive> {
    open spec fn obeys_try_from_spec() -> bool {
        vstd::laws_cmp::obeys_cmp::<T>()
    }

    open spec fn try_from_spec(range: Range<T>) -> Result<Self, IntervalIsEmpty> {
        let lower = Bound { limit: range.start, bound_type: Inclusive };
        let upper = Bound { limit: range.end, bound_type: Exclusive };
        if valid_bounds(lower, upper) {
            Ok(Interval::from_bounds(lower, upper))
        } else {
            Err(IntervalIsEmpty)
        }
    }
}

/// The range `a..=b` is the interval *[a, b]*, where it is not empty.
impl<T: Ord> TryFrom<RangeInclusive<T>> for Interval<T, Inclusive> {
    type Error = IntervalIsEmpty;

    fn try_from(range: RangeInclusive<T>) -> (r: Result<Self, IntervalIsEmpty>)
        ensures
            r matches Ok(i) ==> {
                &&& i.left()@ == (Bound { limit: range@.start, bound_type: Inclusive })
                &&& i.right()@ == (Bound { limit: range@.end, bound_type: Inclusive })
            },
    {
        let (start, end) = range.into_inner();
        let r = Interval::new(
            Bound { limit: start, bound_type: Inclusive },
            Bound { limit: end, bound_type: Inclusive },
        );
        proof {
            if r is Ok {
                r->Ok_0.lemma_from_bounds();
                assert(r == Ok::<Self, IntervalIsEmpty>(
                    Interval::from_bounds(r->Ok_0.left()@, r->Ok_0.right()@),
                ));
            } else {
                assert(r->Err_0 == IntervalIsEmpty);
                assert(r == Err::<Self, IntervalIsEmpty>(IntervalIsEmpty));
            }
        }
        r
    }
}

impl<T: Ord> TryFromSpecImpl<RangeInclusive<T>> for Interval<T, Inclusive> {
    open spec fn obeys_try_from_spec() -> bool {
        vstd::laws_cmp::obeys_cmp::<T>()
    }

    open spec fn try_from_spec(range: RangeInclusive<T>) -> Result<Self, IntervalIsEmpty> {
        let lower = Bound { limit: range@.start, bound_type: Inclusive };
        let upper = Bound { limit: range@.end, bound_type: Inclusive };
        if valid_bounds(lower, upper) {
            Ok(Interval::from_bounds(lower, upper))
        } else {
            Err(IntervalIsEmpty)
        }
    }
}

} // verus!
