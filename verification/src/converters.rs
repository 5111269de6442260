//! Conversions between intervals, and from a single value.

use crate::bound::Bound;
use crate::inclusion::BoundType;
use crate::inclusion::Exclusive;
use crate::inclusion::Inclusive;
use crate::interval::Interval;
use vstd::prelude::*;
use vstd::std_specs::convert::FromSpecImpl;

verus! {

/// A single value is the closed interval from itself to itself.
impl<T: Ord + Copy> From<T> for Interval<T, Inclusive> {
    fn from(t: T) -> (r: Self)
        ensures
            r.left()@ == (Bound { limit: t, bound_type: Inclusive }),
            r.right()@ == (Bound { limit: t, bound_type: Inclusive }),
    {
        proof {
            Interval::<T, Inclusive>::lemma_bounds_of(
                Bound { limit: t, bound_type: Inclusive },
                Bound { limit: t, bound_type: Inclusive },
            );
        }
        Interval::<T, Inclusive>::of_point(t)
    }
}

impl<T: Ord + Copy> FromSpecImpl<T> for Interval<T, Inclusive> {
    open spec fn obeys_from_spec() -> bool {
        true
    }

    open spec fn from_spec(t: T) -> Self {
        Interval::from_bounds(
            Bound { limit: t, bound_type: Inclusive },
            Bound { limit: t, bound_type: Inclusive },
        )
    }
}

/// A closed interval as one whose kinds are chosen at run time.
impl<T: Ord> From<Interval<T, Inclusive>> for Interval<T, BoundType> {
    fn from(i: Interval<T, Inclusive>) -> (r: Self)
        ensures
            r.left()@ == (Bound { limit: i.left()@.limit, bound_type: BoundType::Inclusive }),
            r.right()@ == (Bound { limit: i.right()@.limit, bound_type: BoundType::Inclusive }),
    {
        proof {
            Interval::<T, BoundType>::lemma_bounds_of(
                Bound {
                    limit: i.left()@.limit,
                    bound_type: crate::interval::spec_general_kind(i.left()@.bound_type),
                },
                Bound {
                    limit: i.right()@.limit,
                    bound_type: crate::interval::spec_general_kind(i.right()@.bound_type),
                },
            );
        }
        i.into_general()
    }
}

impl<T: Ord> FromSpecImpl<Interval<T, Inclusive>> for Interval<T, BoundType> {
    open spec fn obeys_from_spec() -> bool {
        true
    }

    open spec fn from_spec(i: Interval<T, Inclusive>) -> Self {
        Interval::from_bounds(
            Bound { limit: i.left()@.limit, bound_type: BoundType::Inclusive },
            Bound { limit: i.right()@.limit, bound_type: BoundType::Inclusive },
        )
    }
}

/// An open interval as one whose kinds are chosen at run time.
impl<T: Ord> From<Interval<T, Exclusive>> for Interval<T, BoundType> {
    fn from(i: Interval<T, Exclusive>) -> (r: Self)
        ensures
            r.left()@ == (Bound { limit: i.left()@.limit, bound_type: BoundType::Exclusive }),
            r.right()@ == (Bound { limit: i.right()@.limit, bound_type: BoundType::Exclusive }),
    {
        proof {
            Interval::<T, BoundType>::lemma_bounds_of(
                Bound {
                    limit: i.left()@.limit,
                    bound_type: crate::interval::spec_general_kind(i.left()@.bound_type),
                },
                Bound {
                    limit: i.right()@.limit,
                    bound_type: crate::interval::spec_general_kind(i.right()@.bound_type),
                },
            );
        }
        i.into_general()
    }
}

impl<T: Ord> FromSpecImpl<Interval<T, Exclusive>> for Interval<T, BoundType> {
    open spec fn obeys_from_spec() -> bool {
        true
    }

    open spec fn from_spec(i: Interval<T, Exclusive>) -> Self {
        Interval::from_bounds(
            Bound { limit: i.left()@.limit, bound_type: BoundType::Exclusive },
            Bound { limit: i.right()@.limit, bound_type: BoundType::Exclusive },
        )
    }
}

/// A right half-open interval as one whose kinds are chosen at run time.
impl<T: Ord> From<Interval<T, Inclusive, Exclusive>> for Interval<T, BoundType> {
    fn from(i: Interval<T, Inclusive, Exclusive>) -> (r: Self)
        ensures
            r.left()@ == (Bound { limit: i.left()@.limit, bound_type: BoundType::Inclusive }),
            r.right()@ == (Bound { limit: i.right()@.limit, bound_type: BoundType::Exclusive }),
    {
        proof {
            Interval::<T, BoundType>::lemma_bounds_of(
                Bound {
                    limit: i.left()@.limit,
                    bound_type: crate::interval::spec_general_kind(i.left()@.bound_type),
                },
                Bound {
                    limit: i.right()@.limit,
                    bound_type: crate::interval::spec_general_kind(i.right()@.bound_type),
                },
            );
        }
        i.into_general()
    }
}

impl<T: Ord> FromSpecImpl<Interval<T, Inclusive, Exclusive>> for Interval<T, BoundType> {
    open spec fn obeys_from_spec() -> bool {
        true
    }

    open spec fn from_spec(i: Interval<T, Inclusive, Exclusive>) -> Self {
        Interval::from_bounds(
            Bound { limit: i.left()@.limit, bound_type: BoundType::Inclusive },
            Bound { limit: i.right()@.limit, bound_type: BoundType::Exclusive },
        )
    }
}

/// A left half-open interval as one whose kinds are chosen at run time.
impl<T: Ord> From<Interval<T, Exclusive, Inclusive>> for Interval<T, BoundType> {
    fn from(i: Interval<T, Exclusive, Inclusive>) -> (r: Self)
        ensures
            r.left()@ == (Bound { limit: i.left()@.limit, bound_type: BoundType::Exclusive }),
            r.right()@ == (Bound { limit: i.right()@.limit, bound_type: BoundType::Inclusive }),
    {
        proof {
            Interval::<T, BoundType>::lemma_bounds_of(
                Bound {
                    limit: i.left()@.limit,
                    bound_type: crate::interval::spec_general_kind(i.left()@.bound_type),
                },
                Bound {
                    limit: i.right()@.limit,
                    bound_type: crate::interval::spec_general_kind(i.right()@.bound_type),
                },
            );
        }
        i.into_general()
    }
}

impl<T: Ord> FromSpecImpl<Interval<T, Exclusive, Inclusive>> for Interval<T, BoundType> {
    open spec fn obeys_from_spec() -> bool {
        true
    }

    open spec fn from_spec(i: Interval<T, Exclusive, Inclusive>) -> Self {
        Interval::from_bounds(
            Bound { limit: i.left()@.limit, bound_type: BoundType::Exclusive },
            Bound { limit: i.right()@.limit, bound_type: BoundType::Inclusive },
        )
    }
}

} // verus!
