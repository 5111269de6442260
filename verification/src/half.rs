//! One-sided ranges: everything from a bound upwards, or everything up to
//! a bound.

use crate::bound::Bound;
use crate::convert::converts;
use crate::convert::turns_into;
use crate::convert::wraps;
use crate::convert::Error;
use crate::convert::OrdFrom;
use crate::discrete::Discrete;
use crate::inclusion::BoundType;
use crate::inclusion::Exclusive;
use crate::inclusion::Inclusive;
use crate::inclusion::tie_rank;
use crate::inclusion::Left;
use crate::inclusion::Right;
use crate::order::gt;
use crate::order::le;
use crate::order::same;
use crate::traits::admits;
use crate::traits::Boundary;
use crate::traits::BoundaryOf;
use crate::traits::Flip;
use crate::traits::IntoGeneral;
use crate::traits::Maximum;
use crate::traits::Minimum;
use crate::traits::Side;
use std::cmp::Ordering;
use std::marker::PhantomData;
use vstd::laws_cmp::obeys_cmp;
use vstd::laws_cmp::obeys_cmp_partial_ord;
use vstd::prelude::*;
use vstd::std_specs::cmp::PartialEqSpec;
use vstd::std_specs::cmp::PartialOrdSpec;
use vstd::std_specs::convert::FromSpecImpl;
use vstd::std_specs::ops::AddSpec;
use vstd::std_specs::ops::SubSpec;

verus! {

/// A range bounded on one side only, the side that `LR` names. Its view is
/// the bound it is anchored at.
#[derive(Debug)]
pub struct HalfBounded<T, B, LR>(pub(crate) Bound<T, B>, pub(crate) PhantomData<LR>);

/// Everything above a bound.
pub type LeftBounded<T, B> = HalfBounded<T, B, Left>;

/// Everything below a bound.
pub type RightBounded<T, B> = HalfBounded<T, B, Right>;

impl<T, B, LR> View for HalfBounded<T, B, LR> {
    type V = Bound<T, B>;

    closed spec fn view(&self) -> Bound<T, B> {
        self.0
    }
}

impl<T: Clone, B: Clone, LR> Clone for HalfBounded<T, B, LR> {
    fn clone(&self) -> (r: Self)
        ensures
            cloned(self@.limit, r@.limit),
            cloned(self@.bound_type, r@.bound_type),
    {
        HalfBounded(self.0.clone(), PhantomData)
    }
}

impl<T: Copy, B: Copy, LR> Copy for HalfBounded<T, B, LR> {

}

impl<T, B, LR> HalfBounded<T, B, LR> {
    /// The range that is anchored at `bound`.
    pub closed spec fn of(bound: Bound<T, B>) -> Self {
        HalfBounded(bound, PhantomData)
    }

    /// The view of the range that is anchored at a bound is that bound.
    pub proof fn lemma_of(bound: Bound<T, B>)
        ensures
            Self::of(bound)@ == bound,
    {
    }

    /// The range that is anchored at `bound`.
    pub fn new(bound: Bound<T, B>) -> (r: Self)
        ensures
            r == Self::of(bound),
            r@ == bound,
    {
        HalfBounded(bound, PhantomData)
    }

    /// A one-sided range is nothing but its bound.
    pub proof fn lemma_view_decides(self, other: Self)
        requires
            self@ == other@,
        ensures
            self == other,
    {
    }

    /// The bound that the range is anchored at.
    pub fn into_bound(self) -> (b: Bound<T, B>)
        ensures
            b == self@,
    {
        self.0
    }
}

impl<T, B, LR> std::ops::Deref for HalfBounded<T, B, LR> {
    type Target = Bound<T, B>;

    fn deref(&self) -> (r: &Bound<T, B>)
        ensures
            *r == self@,
    {
        &self.0
    }
}

impl<T, B, LR> From<Bound<T, B>> for HalfBounded<T, B, LR> {
    fn from(b: Bound<T, B>) -> (r: Self)
        ensures
            r@ == b,
    {
        HalfBounded::new(b)
    }
}

impl<T, B, LR> FromSpecImpl<Bound<T, B>> for HalfBounded<T, B, LR> {
    open spec fn obeys_from_spec() -> bool {
        true
    }

    open spec fn from_spec(b: Bound<T, B>) -> Self {
        Self::of(b)
    }
}

impl<T: Eq, B: Eq, LR> PartialEq for HalfBounded<T, B, LR> {
    fn eq(&self, other: &Self) -> (r: bool) {
        self.0 == other.0
    }
}

impl<T: Eq, B: Eq, LR> vstd::std_specs::cmp::PartialEqSpecImpl for HalfBounded<T, B, LR> {
    open spec fn obeys_eq_spec() -> bool {
        T::obeys_eq_spec() && B::obeys_eq_spec()
    }

    open spec fn eq_spec(&self, other: &Self) -> bool {
        self@.limit.eq_spec(&other@.limit) && self@.bound_type.eq_spec(&other@.bound_type)
    }
}

impl<T: Eq, B: Eq, LR> Eq for HalfBounded<T, B, LR> {

}

impl<T: Ord, B: BoundaryOf<LR> + Eq, LR: Side> PartialOrd for HalfBounded<T, B, LR> {
    /// Orders by limit first; bounds at one limit by their place on the
    /// side, so that the bound which reaches further down comes first.
    fn partial_cmp(&self, other: &Self) -> (r: Option<Ordering>) {
        match self.0.limit.partial_cmp(&other.0.limit) {
            Some(Ordering::Equal) => {
                let a: crate::inclusion::SideInclusion<B, LR> = self.0.bound_type.into_ordered();
                let b: crate::inclusion::SideInclusion<B, LR> = other.0.bound_type.into_ordered();
                a.partial_cmp(&b)
            },
            o => o,
        }
    }
}

impl<T: Ord, B: BoundaryOf<LR> + Eq, LR: Side> vstd::std_specs::cmp::PartialOrdSpecImpl for HalfBounded<T, B, LR> {
    open spec fn obeys_partial_cmp_spec() -> bool {
        T::obeys_partial_cmp_spec()
    }

    open spec fn partial_cmp_spec(&self, other: &Self) -> Option<Ordering> {
        match self@.limit.partial_cmp_spec(&other@.limit) {
            Some(Ordering::Equal) => if self.rank() < other.rank() {
                Some(Ordering::Less)
            } else if self.rank() == other.rank() {
                Some(Ordering::Equal)
            } else {
                Some(Ordering::Greater)
            },
            o => o,
        }
    }
}

impl<T: Ord, B: Boundary, LR: Side> HalfBounded<T, B, LR> {
    /// The place of this bound among the bounds of its side at one limit.
    pub open spec fn rank(self) -> int {
        tie_rank(LR::is_left(), self@.bound_type.polarity())
    }

    /// Whether `t` lies in the range: on the right side of the limit, the
    /// limit itself only where the bound is inclusive.
    pub open spec fn admits(self, t: T) -> bool {
        if LR::is_left() {
            admits(self@.bound_type.polarity(), self@.limit, t)
        } else {
            admits(self@.bound_type.polarity(), t, self@.limit)
        }
    }
}

impl<T: Ord, B: BoundaryOf<LR>, LR: Side> HalfBounded<T, B, LR> {
    /// `self` comes strictly after `other` in the order of the side.
    pub open spec fn follows(self, other: Self) -> bool {
        ||| gt(self@.limit, other@.limit)
        ||| same(self@.limit, other@.limit) && self.rank() > other.rank()
    }

    /// The one of the two that comes later, `other` where they tie.
    pub open spec fn later(self, other: Self) -> Self {
        if self.follows(other) {
            self
        } else {
            other
        }
    }

    /// The one of the two that comes earlier, `self` where they tie.
    pub open spec fn earlier(self, other: Self) -> Self {
        if self.follows(other) {
            other
        } else {
            self
        }
    }

    fn comes_after(&self, other: &Self) -> (r: bool)
        ensures
            obeys_cmp::<T>() ==> r == self.follows(*other),
    {
        proof {
            reveal(obeys_cmp_partial_ord);
        }
        match self.0.limit.partial_cmp(&other.0.limit) {
            Some(Ordering::Greater) => true,
            Some(Ordering::Equal) => {
                let a: crate::inclusion::SideInclusion<B, LR> = self.0.bound_type.into_ordered();
                let b: crate::inclusion::SideInclusion<B, LR> = other.0.bound_type.into_ordered();
                a > b
            },
            _ => false,
        }
    }

    pub(crate) fn max(self, other: Self) -> (r: Self)
        ensures
            obeys_cmp::<T>() ==> r == self.later(other),
    {
        proof {
            reveal(obeys_cmp_partial_ord);
        }
        if self.comes_after(&other) {
            self
        } else {
            other
        }
    }

    pub(crate) fn max_ref<'a>(&'a self, other: &'a Self) -> (r: &'a Self)
        ensures
            obeys_cmp::<T>() ==> *r == self.later(*other),
    {
        proof {
            reveal(obeys_cmp_partial_ord);
        }
        if self.comes_after(other) {
            self
        } else {
            other
        }
    }

    pub(crate) fn min_ref<'a>(&'a self, other: &'a Self) -> (r: &'a Self)
        ensures
            obeys_cmp::<T>() ==> *r == self.earlier(*other),
    {
        proof {
            reveal(obeys_cmp_partial_ord);
        }
        if self.comes_after(other) {
            other
        } else {
            self
        }
    }

    pub(crate) fn min(self, other: Self) -> (r: Self)
        ensures
            obeys_cmp::<T>() ==> r == self.earlier(other),
    {
        proof {
            reveal(obeys_cmp_partial_ord);
        }
        if self.comes_after(&other) {
            other
        } else {
            self
        }
    }
}

impl<T, B: Flip, LR: Flip> HalfBounded<T, B, LR> {
    /// The range on the other side that is anchored at the flipped bound.
    pub closed spec fn flipped(self) -> HalfBounded<T, B::Flip, LR::Flip> {
        HalfBounded(self.0.flipped(), PhantomData)
    }

    /// The view of a flipped range is the flipped bound.
    pub proof fn lemma_flipped_view(self)
        ensures
            self.flipped()@ == self@.flipped(),
    {
    }

    /// The complement of the range: the range on the other side of the same
    /// limit that holds exactly what `self` leaves out.
    pub fn flip(self) -> (r: HalfBounded<T, B::Flip, LR::Flip>)
        ensures
            r == self.flipped(),
            r@ == self@.flipped(),
    {
        HalfBounded(self.0.flip(), PhantomData)
    }
}

impl<T, B: IntoGeneral, LR> IntoGeneral for HalfBounded<T, B, LR> {
    type General = HalfBounded<T, B::General, LR>;

    closed spec fn generalized(self) -> HalfBounded<T, B::General, LR> {
        HalfBounded(self.0.generalized(), PhantomData)
    }

    fn into_general(self) -> (g: HalfBounded<T, B::General, LR>)
        ensures
            g@ == self@.generalized(),
    {
        HalfBounded(self.0.into_general(), PhantomData)
    }
}

impl<T: Ord, B: BoundaryOf<Left>> LeftBounded<T, B> {
    /// Whether `self` reaches at least as far down as `other`: its limit is
    /// at most the other's.
    pub fn includes(&self, other: &Self) -> (r: bool)
        ensures
            obeys_cmp::<T>() ==> r == le(self@.limit, other@.limit),
    {
        proof {
            reveal(obeys_cmp_partial_ord);
        }
        self.0.limit <= other.0.limit
    }

    /// Whether `t` lies above the bound.
    pub fn contains(&self, t: &T) -> (r: bool)
        ensures
            obeys_cmp::<T>() ==> r == self.admits(*t),
    {
        self.0.bound_type.less(&self.0.limit, t)
    }

    /// The more restrictive of two lower bounds: the later one.
    pub fn intersection(self, other: Self) -> (r: Self)
        ensures
            obeys_cmp::<T>() ==> r == self.later(other),
    {
        self.max(other)
    }

    /// The less restrictive of two lower bounds: the earlier one.
    pub fn union(self, other: Self) -> (r: Self)
        ensures
            obeys_cmp::<T>() ==> r == self.earlier(other),
    {
        self.min(other)
    }

    /// Moves the bound down by `delta`, which widens the range.
    pub fn dilate(self, delta: T) -> (r: Self) where T: std::ops::Sub<Output = T>
        requires
            self@.limit.sub_req(delta),
        ensures
            T::obeys_sub_spec() ==> r@.limit == self@.limit.sub_spec(delta),
            r@.bound_type == self@.bound_type,
    {
        HalfBounded::new(Bound { limit: self.0.limit - delta, bound_type: self.0.bound_type })
    }

    /// Moves the bound down by `delta`, computing in the raw domain `X`:
    /// the limit is turned into an `X`, `delta` is taken off, and the
    /// difference is converted back, which may fail.
    pub fn try_dilate<X>(self, delta: X) -> (r: Result<Self, Error>) where
        T: OrdFrom<X> + Into<X>,
        X: std::ops::Sub<Output = X>,
        Error: From<T::Error>,

        requires
            forall|x: X| #[trigger] turns_into(self@.limit, x) ==> x.sub_req(delta),
        ensures
            exists|x: X, y: X, c: Result<T, T::Error>|
                {
                    &&& #[trigger] turns_into(self@.limit, x)
                    &&& X::obeys_sub_spec() ==> y == x.sub_spec(delta)
                    &&& #[trigger] converts(y, c)
                    &&& match c {
                        Ok(v) => r matches Ok(h) && h@.limit == v && h@.bound_type
                            == self@.bound_type,
                        Err(e) => r matches Err(x) && wraps(e, x),
                    }
                },
    {
        let x: X = self.0.limit.into();
        let y = x - delta;
        let c = T::ord_from(y);
        proof {
            assert(turns_into(self@.limit, x));
            assert(converts(y, c));
        }
        match c {
            Ok(v) => Ok(HalfBounded::new(Bound { limit: v, bound_type: self.0.bound_type })),
            Err(e) => Err(Error::from(e)),
        }
    }
}

impl<T: Ord, B: BoundaryOf<Right>> RightBounded<T, B> {
    /// Whether `self` reaches at least as far up as `other`: its limit is at
    /// least the other's.
    pub fn includes(&self, other: &Self) -> (r: bool)
        ensures
            obeys_cmp::<T>() ==> r == le(other@.limit, self@.limit),
    {
        proof {
            reveal(obeys_cmp_partial_ord);
        }
        other.0.limit <= self.0.limit
    }

    /// Whether `t` lies below the bound.
    pub fn contains(&self, t: &T) -> (r: bool)
        ensures
            obeys_cmp::<T>() ==> r == self.admits(*t),
    {
        self.0.bound_type.less(t, &self.0.limit)
    }

    /// The more restrictive of two upper bounds: the earlier one.
    pub fn intersection(self, other: Self) -> (r: Self)
        ensures
            obeys_cmp::<T>() ==> r == self.earlier(other),
    {
        self.min(other)
    }

    /// The less restrictive of two upper bounds: the later one.
    pub fn union(self, other: Self) -> (r: Self)
        ensures
            obeys_cmp::<T>() ==> r == self.later(other),
    {
        self.max(other)
    }

    /// Moves the bound up by `delta`, which widens the range.
    pub fn dilate(self, delta: T) -> (r: Self) where T: std::ops::Add<Output = T>
        requires
            self@.limit.add_req(delta),
        ensures
            T::obeys_add_spec() ==> r@.limit == self@.limit.add_spec(delta),
            r@.bound_type == self@.bound_type,
    {
        HalfBounded::new(Bound { limit: self.0.limit + delta, bound_type: self.0.bound_type })
    }

    /// Moves the bound up by `delta`, computing in the raw domain `X`:
    /// the limit is turned into an `X`, `delta` is added, and the
    /// sum is converted back, which may fail.
    pub fn try_dilate<X>(self, delta: X) -> (r: Result<Self, Error>) where
        T: OrdFrom<X> + Into<X>,
        X: std::ops::Add<Output = X>,
        Error: From<T::Error>,

        requires
            forall|x: X| #[trigger] turns_into(self@.limit, x) ==> x.add_req(delta),
        ensures
            exists|x: X, y: X, c: Result<T, T::Error>|
                {
                    &&& #[trigger] turns_into(self@.limit, x)
                    &&& X::obeys_add_spec() ==> y == x.add_spec(delta)
                    &&& #[trigger] converts(y, c)
                    &&& match c {
                        Ok(v) => r matches Ok(h) && h@.limit == v && h@.bound_type
                            == self@.bound_type,
                        Err(e) => r matches Err(x) && wraps(e, x),
                    }
                },
    {
        let x: X = self.0.limit.into();
        let y = x + delta;
        let c = T::ord_from(y);
        proof {
            assert(turns_into(self@.limit, x));
            assert(converts(y, c));
        }
        match c {
            Ok(v) => Ok(HalfBounded::new(Bound { limit: v, bound_type: self.0.bound_type })),
            Err(e) => Err(Error::from(e)),
        }
    }
}

/// The other name of [`LeftBounded`].
pub type Lower<T, B> = HalfBounded<T, B, Left>;

/// The other name of [`RightBounded`].
pub type Upper<T, B> = HalfBounded<T, B, Right>;

impl<T: Copy, B: Flip + Copy> Lower<T, B> {
    /// The range of everything that `self` leaves out: what lies below the
    /// bound.
    pub fn complement(&self) -> (r: Upper<T, B::Flip>)
        ensures
            r@ == self@.flipped(),
    {
        HalfBounded(self.0.flip(), PhantomData)
    }
}

impl<T: Copy, B: Flip + Copy> Upper<T, B> {
    /// The range of everything that `self` leaves out: what lies above the
    /// bound.
    pub fn complement(&self) -> (r: Lower<T, B::Flip>)
        ensures
            r@ == self@.flipped(),
    {
        HalfBounded(self.0.flip(), PhantomData)
    }
}

impl<T: Copy, B: Boundary> LeftBounded<T, B> {
    /// The infimum of the range: its limit, whether or not it belongs to
    /// the range.
    pub fn inf(&self) -> (r: T)
        ensures
            r == self@.limit,
    {
        self.0.limit
    }

    /// The range with its limit taken in.
    pub fn closure(self) -> (r: LeftBounded<T, Inclusive>)
        ensures
            r@ == (Bound { limit: self@.limit, bound_type: Inclusive }),
    {
        HalfBounded::new(Bound { limit: self.0.limit, bound_type: Inclusive })
    }

    /// The range with its limit left out.
    pub fn interior(self) -> (r: LeftBounded<T, Exclusive>)
        ensures
            r@ == (Bound { limit: self@.limit, bound_type: Exclusive }),
    {
        HalfBounded::new(Bound { limit: self.0.limit, bound_type: Exclusive })
    }
}

impl<T: Copy, B: Boundary> RightBounded<T, B> {
    /// The supremum of the range: its limit, whether or not it belongs to
    /// the range.
    pub fn sup(&self) -> (r: T)
        ensures
            r == self@.limit,
    {
        self.0.limit
    }

    /// The range with its limit taken in.
    pub fn closure(self) -> (r: RightBounded<T, Inclusive>)
        ensures
            r@ == (Bound { limit: self@.limit, bound_type: Inclusive }),
    {
        HalfBounded::new(Bound { limit: self.0.limit, bound_type: Inclusive })
    }

    /// The range with its limit left out.
    pub fn interior(self) -> (r: RightBounded<T, Exclusive>)
        ensures
            r@ == (Bound { limit: self@.limit, bound_type: Exclusive }),
    {
        HalfBounded::new(Bound { limit: self.0.limit, bound_type: Exclusive })
    }
}

impl<T: Copy> Minimum<T> for LeftBounded<T, Inclusive> {
    open spec fn has_minimum(&self) -> bool {
        true
    }

    open spec fn least(&self) -> T {
        self@.limit
    }

    fn minimum(&self) -> T {
        self.0.limit
    }
}

impl<T: Copy> Maximum<T> for RightBounded<T, Inclusive> {
    open spec fn has_maximum(&self) -> bool {
        true
    }

    open spec fn greatest(&self) -> T {
        self@.limit
    }

    fn maximum(&self) -> T {
        self.0.limit
    }
}

impl<T: Discrete> Minimum<T> for LeftBounded<T, Exclusive> {
    open spec fn has_minimum(&self) -> bool {
        self@.limit.has_successor()
    }

    open spec fn least(&self) -> T {
        self@.limit.successor()
    }

    fn minimum(&self) -> T {
        self.0.limit.succ()
    }
}

impl<T: Discrete> Maximum<T> for RightBounded<T, Exclusive> {
    open spec fn has_maximum(&self) -> bool {
        self@.limit.has_predecessor()
    }

    open spec fn greatest(&self) -> T {
        self@.limit.predecessor()
    }

    fn maximum(&self) -> T {
        self.0.limit.pred()
    }
}

impl<T: Discrete> Minimum<T> for LeftBounded<T, BoundType> {
    open spec fn has_minimum(&self) -> bool {
        self@.bound_type is Exclusive ==> self@.limit.has_successor()
    }

    open spec fn least(&self) -> T {
        match self@.bound_type {
            BoundType::Inclusive => self@.limit,
            BoundType::Exclusive => self@.limit.successor(),
        }
    }

    fn minimum(&self) -> T {
        match self.0.bound_type {
            BoundType::Inclusive => self.0.limit,
            BoundType::Exclusive => self.0.limit.succ(),
        }
    }
}

impl<T: Discrete> Maximum<T> for RightBounded<T, BoundType> {
    open spec fn has_maximum(&self) -> bool {
        self@.bound_type is Exclusive ==> self@.limit.has_predecessor()
    }

    open spec fn greatest(&self) -> T {
        match self@.bound_type {
            BoundType::Inclusive => self@.limit,
            BoundType::Exclusive => self@.limit.predecessor(),
        }
    }

    fn maximum(&self) -> T {
        match self.0.bound_type {
            BoundType::Inclusive => self.0.limit,
            BoundType::Exclusive => self.0.limit.pred(),
        }
    }
}

} // verus!
