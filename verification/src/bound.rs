//! A single endpoint: a limit and the kind of boundary at it.

use crate::inclusion::Exclusive;
use crate::inclusion::Inclusive;
use crate::traits::Flip;
use crate::traits::IntoGeneral;
use vstd::prelude::*;
use vstd::std_specs::cmp::PartialEqSpec;
use vstd::std_specs::convert::FromSpecImpl;

verus! {

/// An endpoint of a range: the scalar `limit`, and in `bound_type` whether
/// the range includes it.
#[derive(Debug)]
pub struct Bound<T, B> {
    pub limit: T,
    pub bound_type: B,
}

impl<T: Clone, B: Clone> Clone for Bound<T, B> {
    fn clone(&self) -> (r: Self)
        ensures
            cloned(self.limit, r.limit),
            cloned(self.bound_type, r.bound_type),
    {
        Bound { limit: self.limit.clone(), bound_type: self.bound_type.clone() }
    }
}

impl<T: Copy, B: Copy> Copy for Bound<T, B> {

}

impl<T: PartialEq, B: PartialEq> PartialEq for Bound<T, B> {
    fn eq(&self, other: &Self) -> (r: bool) {
        self.limit == other.limit && self.bound_type == other.bound_type
    }
}

impl<T: PartialEq, B: PartialEq> vstd::std_specs::cmp::PartialEqSpecImpl for Bound<T, B> {
    open spec fn obeys_eq_spec() -> bool {
        T::obeys_eq_spec() && B::obeys_eq_spec()
    }

    open spec fn eq_spec(&self, other: &Self) -> bool {
        self.limit.eq_spec(&other.limit) && self.bound_type.eq_spec(&other.bound_type)
    }
}

impl<T: Eq, B: Eq> Eq for Bound<T, B> {

}

impl<T, B: Flip> Bound<T, B> {
    /// The bound at the same limit with the opposite boundary kind.
    pub open spec fn flipped(self) -> Bound<T, B::Flip> {
        Bound { limit: self.limit, bound_type: self.bound_type.flipped() }
    }

    /// Keeps the limit and flips the boundary kind. Read on the other side,
    /// the result bounds exactly what `self` leaves out.
    pub fn flip(self) -> (r: Bound<T, B::Flip>)
        ensures
            r == self.flipped(),
    {
        Bound { limit: self.limit, bound_type: self.bound_type.flip() }
    }
}

impl<T, B: IntoGeneral> IntoGeneral for Bound<T, B> {
    type General = Bound<T, B::General>;

    open spec fn generalized(self) -> Bound<T, B::General> {
        Bound { limit: self.limit, bound_type: self.bound_type.generalized() }
    }

    fn into_general(self) -> Bound<T, B::General> {
        Bound { limit: self.limit, bound_type: self.bound_type.into_general() }
    }
}

impl<T> From<T> for Bound<T, Inclusive> {
    fn from(t: T) -> (r: Self) {
        Bound { limit: t, bound_type: Inclusive }
    }
}

impl<T> FromSpecImpl<T> for Bound<T, Inclusive> {
    open spec fn obeys_from_spec() -> bool {
        true
    }

    open spec fn from_spec(t: T) -> Self {
        Bound { limit: t, bound_type: Inclusive }
    }
}

impl<T> From<T> for Bound<T, Exclusive> {
    fn from(t: T) -> (r: Self) {
        Bound { limit: t, bound_type: Exclusive }
    }
}

impl<T> FromSpecImpl<T> for Bound<T, Exclusive> {
    open spec fn obeys_from_spec() -> bool {
        true
    }

    open spec fn from_spec(t: T) -> Self {
        Bound { limit: t, bound_type: Exclusive }
    }
}

} // verus!
