pub mod bound;
pub mod convert;
pub mod converters;
pub mod discrete;
pub mod half;
pub mod inclusion;
pub mod interval;
pub mod laws;
pub mod ndim;
pub mod order;
pub mod std_range;
pub mod traits;

pub use bound::Bound;
pub use convert::Error;
pub use convert::IntervalIsEmpty;
pub use convert::OrdFrom;
pub use half::HalfBounded;
pub use half::LeftBounded;
pub use half::RightBounded;
pub use inclusion::BoundType;
pub use inclusion::Bounding;
pub use inclusion::Exclusive;
pub use inclusion::Inclusive;
pub use inclusion::Left;
pub use inclusion::Right;
pub use interval::Interval;

pub use interval::IntervalUnion;
pub use ndim::NDim;
pub use traits::Boundary;
pub use traits::BoundaryOf;
pub use traits::Flip;
pub use traits::Maximum;
pub use traits::Minimum;

use convert::converts;
use ordered_float::FloatIsNan;
use ordered_float::NotNan;
use vstd::laws_cmp::obeys_cmp;
use vstd::prelude::*;

verus! {

impl Inclusive {
    /// The inclusive bound at `t`.
    pub fn at<T>(self, t: T) -> (b: Bound<T, Self>)
        ensures
            b == (Bound { limit: t, bound_type: self }),
    {
        Bound { limit: t, bound_type: self }
    }
}

impl Exclusive {
    /// The exclusive bound at `t`.
    pub fn at<T>(self, t: T) -> (b: Bound<T, Self>)
        ensures
            b == (Bound { limit: t, bound_type: self }),
    {
        Bound { limit: t, bound_type: self }
    }
}

impl Bounding {
    /// The bound at `t` of the kind that `self` names.
    pub fn at<T>(self, t: T) -> (b: Bound<T, Self>)
        ensures
            b == (Bound { limit: t, bound_type: self }),
    {
        Bound { limit: t, bound_type: self }
    }
}

impl<T: Ord, B: BoundaryOf<Left>> Bound<T, B> {
    /// The interval from this bound up to `right`, or the error where
    /// nothing lies between them.
    pub fn to<R: BoundaryOf<Right>>(self, right: Bound<T, R>) -> (r: Result<
        Interval<T, B, R>,
        IntervalIsEmpty,
    >)
        ensures
            obeys_cmp::<T>() ==> (r.is_ok() <==> interval::valid_bounds(self, right)),
            r matches Ok(i) ==> i.left()@ == self && i.right()@ == right,
    {
        Interval::new(self, right)
    }
}

impl<T, B: BoundaryOf<Left>> Bound<T, B> where NotNan<T>: Ord + TryFrom<T, Error = FloatIsNan> {
    /// The interval of floats from this bound up to `right`: fails where a
    /// limit is NaN, and where nothing lies between the bounds.
    pub fn float_to<R: BoundaryOf<Right>>(self, right: Bound<T, R>) -> (r: Result<
        Interval<NotNan<T>, B, R>,
        Error,
    >)
        ensures
            exists|l: Result<NotNan<T>, FloatIsNan>, h: Result<NotNan<T>, FloatIsNan>|
                {
                    &&& #[trigger] converts(self.limit, l)
                    &&& #[trigger] converts(right.limit, h)
                    &&& Interval::<NotNan<T>, B, R>::assembled(l, self.bound_type, h, right.bound_type, r)
                },
    {
        Interval::float_new(self, right)
    }
}

/// An interval that holds both its limits: *[a, b]*.
pub type ClosedInterval<T> = Interval<T, Inclusive>;

/// An interval that holds neither of its limits: *(a, b)*.
pub type OpenInterval<T> = Interval<T, Exclusive>;

/// An interval that holds its lower limit only: *[a, b)*.
pub type RightHalfOpenInterval<T> = Interval<T, Inclusive, Exclusive>;

/// An interval that holds its upper limit only: *(a, b]*.
pub type LeftHalfOpenInterval<T> = Interval<T, Exclusive, Inclusive>;

/// An interval of floats.
pub type IntervalF<T, L, R> = Interval<NotNan<T>, L, R>;

/// A closed interval of floats.
pub type ClosedIntervalF<T> = ClosedInterval<NotNan<T>>;

/// An open interval of floats.
pub type OpenIntervalF<T> = OpenInterval<NotNan<T>>;

/// A right half-open interval of floats.
pub type RightHalfOpenIntervalF<T> = RightHalfOpenInterval<NotNan<T>>;

/// A left half-open interval of floats.
pub type LeftHalfOpenIntervalF<T> = LeftHalfOpenInterval<NotNan<T>>;

/// `N` intervals, one for each axis.
pub type IntervalN<const N: usize, T, L = Bounding, R = L> = NDim<N, Interval<T, L, R>>;

/// A rectangle of intervals.
pub type Interval2<T, L = Bounding, R = L> = IntervalN<2, T, L, R>;

/// A cuboid of intervals.
pub type Interval3<T, L = Bounding, R = L> = IntervalN<3, T, L, R>;

/// Intervals on four axes.
pub type Interval4<T, L = Bounding, R = L> = IntervalN<4, T, L, R>;

/// A box of closed float intervals on `N` axes.
pub type BoxN<const N: usize, T> = IntervalN<N, NotNan<T>, Inclusive>;

} // verus!
