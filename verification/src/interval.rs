//! Two-sided intervals and their algebra.

use crate::bound::Bound;
use crate::discrete::Discrete;
use crate::half::LeftBounded;
use crate::half::RightBounded;
use crate::inclusion::BoundType;
use crate::inclusion::Exclusive;
use crate::inclusion::Inclusive;
use crate::inclusion::Left;
use crate::inclusion::Right;
use crate::order::le;
use crate::order::lt;
use crate::order::lemma_total_order;
use crate::traits::admits;
use crate::traits::Boundary;
use crate::traits::BoundaryOf;
use crate::traits::Flip;
use crate::traits::Maximum;
use crate::traits::Minimum;
use crate::traits::Tag;
use crate::convert::converts;
use crate::convert::turns_into;
use crate::convert::wraps;
use crate::convert::Error;
use crate::convert::IntervalIsEmpty;
use crate::convert::OrdFrom;
use ordered_float::FloatIsNan;
use ordered_float::NotNan;
use vstd::laws_cmp::obeys_cmp;
use vstd::prelude::*;
use vstd::std_specs::cmp::PartialEqSpec;
use vstd::std_specs::ops::SubSpec;

verus! {

/// Whether a lower and an upper bound leave anything between them: each
/// must admit the other's limit. Two inclusive bounds may share a limit;
/// with an exclusive bound among them the lower limit must be strictly
/// below the upper one.
pub open spec fn valid_bounds<T: Ord, L: Tag, R: Tag>(left: Bound<T, L>, right: Bound<T, R>) -> bool {
    &&& admits(left.bound_type.polarity(), left.limit, right.limit)
    &&& admits(right.bound_type.polarity(), left.limit, right.limit)
}

/// The return type of `Interval::union`: the enclosure of the two
/// intervals, and the gap between them where they are apart.
#[derive(Debug)]
pub struct IntervalUnion<T: Ord, L: BoundaryOf<Left>, R: BoundaryOf<Right>> where
    L::Flip: BoundaryOf<Right>,
    R::Flip: BoundaryOf<Left>,
 {
    pub enclosure: Interval<T, L, R>,
    pub gap: Option<Interval<T, R::Flip, L::Flip>>,
}

impl<T: Ord, L: BoundaryOf<Left>, R: BoundaryOf<Right>> IntervalUnion<T, L, R> where
    L::Flip: BoundaryOf<Right> + Flip<Flip = L>,
    R::Flip: BoundaryOf<Left> + Flip<Flip = R>,
 {
    /// The bounds of the two intervals that the union falls into where it
    /// has a gap: the enclosure cut at the flipped bounds of the gap.
    /// `None` where there is no gap, or where a cut would leave nothing.
    pub open spec fn pieces(self) -> Option<((Bound<T, L>, Bound<T, R>), (Bound<T, L>, Bound<T, R>))> {
        match self.gap {
            Some(gap) => {
                let first = (self.enclosure.left()@, gap.left()@.flipped());
                let second = (gap.right()@.flipped(), self.enclosure.right()@);
                if valid_bounds(first.0, first.1) && valid_bounds(second.0, second.1) {
                    Some((first, second))
                } else {
                    None
                }
            },
            None => None,
        }
    }

    /// Whether `s` holds the intervals that make up the union, from the
    /// lower to the upper one: the two pieces, or the enclosure alone.
    pub open spec fn falls_into(self, s: Seq<Interval<T, L, R>>) -> bool {
        match self.pieces() {
            Some((first, second)) => {
                &&& s.len() == 2
                &&& s[0].left()@ == first.0
                &&& s[0].right()@ == first.1
                &&& s[1].left()@ == second.0
                &&& s[1].right()@ == second.1
            },
            None => s =~= seq![self.enclosure],
        }
    }

    /// The intervals that make up the union, from the lower to the upper
    /// one: the two sides of the gap, or the enclosure alone.
    pub fn into_vec(self) -> (v: Vec<Interval<T, L, R>>)
        ensures
            obeys_cmp::<T>() ==> self.falls_into(v@),
    {
        let IntervalUnion { enclosure, gap } = self;
        match gap {
            Some(gap) => {
                let cut = valid_parts(
                    enclosure.left.bound_type,
                    &enclosure.left.limit,
                    gap.left.bound_type.flip(),
                    &gap.left.limit,
                ) && valid_parts(
                    gap.right.bound_type.flip(),
                    &gap.right.limit,
                    enclosure.right.bound_type,
                    &enclosure.right.limit,
                );
                if cut {
                    let first = Interval { left: enclosure.left, right: gap.left.flip() };
                    let second = Interval { left: gap.right.flip(), right: enclosure.right };
                    vec![first, second]
                } else {
                    vec![enclosure]
                }
            },
            None => vec![enclosure],
        }
    }
}

impl<T: Ord, L: BoundaryOf<Left>, R: BoundaryOf<Right>> IntoIterator for IntervalUnion<T, L, R> where
    L::Flip: BoundaryOf<Right> + Flip<Flip = L>,
    R::Flip: BoundaryOf<Left> + Flip<Flip = R>,
 {
    type Item = Interval<T, L, R>;

    type IntoIter = std::vec::IntoIter<Interval<T, L, R>>;

    /// Goes through the intervals that make up the union.
    fn into_iter(self) -> (r: std::vec::IntoIter<Interval<T, L, R>>)
        ensures
            exists|v: Vec<Interval<T, L, R>>|
                r == #[trigger] v.into_iter() && (obeys_cmp::<T>() ==> self.falls_into(v@)),
    {
        let v = self.into_vec();
        let r = v.into_iter();
        proof {
            assert(r == v.into_iter());
        }
        r
    }
}

fn valid_parts<T: Ord, A: Boundary, B: Boundary>(lk: A, l: &T, rk: B, r: &T) -> (v: bool)
    ensures
        obeys_cmp::<T>() ==> v == valid_bounds(
            Bound { limit: *l, bound_type: lk },
            Bound { limit: *r, bound_type: rk },
        ),
{
    lk.less(l, r) && rk.less(l, r)
}

fn is_valid_interval<T, L, R>(left: &LeftBounded<T, L>, right: &RightBounded<T, R>) -> (r: bool) where
    T: Ord,
    L: BoundaryOf<Left>,
    R: BoundaryOf<Right>,

    ensures
        obeys_cmp::<T>() ==> r == valid_bounds(left@, right@),
{
    left.contains(&right.limit) && right.contains(&left.limit)
}

/// An interval like *[a, b]*, *(a, b)*, *[a, b)* or *(a, b]* over any
/// ordered scalar type.
///
/// `L` and `R` are the boundary kinds of the left and the right end:
/// `Inclusive`, `Exclusive`, or `BoundType` where the kind is chosen at run
/// time. An interval is never empty: its two bounds always satisfy
/// [`valid_bounds`], which every way of making one checks.
#[derive(Debug)]
pub struct Interval<T: Ord, L: BoundaryOf<Left> = BoundType, R: BoundaryOf<Right> = L> {
    pub(crate) left: LeftBounded<T, L>,
    pub(crate) right: RightBounded<T, R>,
}

impl<T: Ord + Copy, L: BoundaryOf<Left>, R: BoundaryOf<Right>> Clone for Interval<T, L, R> {
    fn clone(&self) -> (r: Self)
        ensures
            r == *self,
    {
        *self
    }
}

impl<T: Ord + Copy, L: BoundaryOf<Left>, R: BoundaryOf<Right>> Copy for Interval<T, L, R> {

}

impl<T: Ord, L: BoundaryOf<Left>, R: BoundaryOf<Right>> Interval<T, L, R> {
    #[verifier::type_invariant]
    spec fn well_formed(self) -> bool {
        obeys_cmp::<T>() ==> valid_bounds(self.left@, self.right@)
    }

    /// The lower half of the interval.
    pub closed spec fn spec_left(&self) -> &LeftBounded<T, L> {
        &self.left
    }

    /// The upper half of the interval.
    pub closed spec fn spec_right(&self) -> &RightBounded<T, R> {
        &self.right
    }

    /// The interval between two bounds, as a value to speak of: it may be
    /// one that no call of this crate returns.
    pub closed spec fn from_bounds(left: Bound<T, L>, right: Bound<T, R>) -> Self {
        Interval { left: LeftBounded::<T, L>::of(left), right: RightBounded::<T, R>::of(right) }
    }

    /// An interval is the interval between its two bounds.
    pub proof fn lemma_from_bounds(self)
        ensures
            self == Self::from_bounds(self.left()@, self.right()@),
    {
        LeftBounded::<T, L>::lemma_of(self.left()@);
        RightBounded::<T, R>::lemma_of(self.right()@);
        self.left.lemma_view_decides(LeftBounded::<T, L>::of(self.left()@));
        self.right.lemma_view_decides(RightBounded::<T, R>::of(self.right()@));
    }

    /// The bounds of the interval between two bounds are these bounds.
    pub proof fn lemma_bounds_of(left: Bound<T, L>, right: Bound<T, R>)
        ensures
            Self::from_bounds(left, right).left()@ == left,
            Self::from_bounds(left, right).right()@ == right,
    {
        LeftBounded::<T, L>::lemma_of(left);
        RightBounded::<T, R>::lemma_of(right);
    }

    /// Whether the two bounds leave anything between them, as they do in
    /// every interval that was made by this crate.
    pub open spec fn is_valid(self) -> bool {
        valid_bounds(self.left()@, self.right()@)
    }

    /// Whether `t` lies between the two bounds.
    pub open spec fn admits(self, t: T) -> bool {
        self.left().admits(t) && self.right().admits(t)
    }

    /// Whether `self` reaches at least as far as `other` on both sides.
    pub open spec fn encloses(self, other: Self) -> bool {
        le(self.left()@.limit, other.left()@.limit) && le(other.right()@.limit, self.right()@.limit)
    }

    /// Whether each of the two intervals begins before the other ends.
    pub open spec fn meets(self, other: Self) -> bool {
        valid_bounds(self.left()@, other.right()@) && valid_bounds(other.left()@, self.right()@)
    }

    #[verifier::when_used_as_spec(spec_left)]
    pub fn left(&self) -> (r: &LeftBounded<T, L>)
        ensures
            r == self.left(),
            obeys_cmp::<T>() ==> self.is_valid(),
    {
        proof {
            use_type_invariant(self);
        }
        &self.left
    }

    #[verifier::when_used_as_spec(spec_right)]
    pub fn right(&self) -> (r: &RightBounded<T, R>)
        ensures
            r == self.right(),
            obeys_cmp::<T>() ==> self.is_valid(),
    {
        proof {
            use_type_invariant(self);
        }
        &self.right
    }

    fn new_(left: LeftBounded<T, L>, right: RightBounded<T, R>) -> (r: Option<Self>)
        ensures
            obeys_cmp::<T>() ==> (r.is_some() <==> valid_bounds(left@, right@)),
            r matches Some(i) ==> *i.left() == left && *i.right() == right,
    {
        if is_valid_interval(&left, &right) {
            Some(Self { left, right })
        } else {
            None
        }
    }

    /// Makes the interval between two bounds, or fails where nothing lies
    /// between them.
    pub fn new(left: Bound<T, L>, right: Bound<T, R>) -> (r: Result<Self, IntervalIsEmpty>)
        ensures
            obeys_cmp::<T>() ==> (r.is_ok() <==> valid_bounds(left, right)),
            r matches Ok(i) ==> i.left()@ == left && i.right()@ == right,
    {
        match Self::new_(LeftBounded::new(left), RightBounded::new(right)) {
            Some(i) => Ok(i),
            None => Err(IntervalIsEmpty),
        }
    }

    /// What `try_from_parts` returns for two converted limits: the error of
    /// the left limit, else that of the right one, else what `new` returns
    /// for the two bounds.
    pub open spec fn assembled<E>(
        left: Result<T, E>,
        left_kind: L,
        right: Result<T, E>,
        right_kind: R,
        r: Result<Self, Error>,
    ) -> bool where Error: From<E> {
        match (left, right) {
            (Err(e), _) => r matches Err(x) && wraps(e, x),
            (Ok(_), Err(e)) => r matches Err(x) && wraps(e, x),
            (Ok(l), Ok(h)) => {
                let lower = Bound { limit: l, bound_type: left_kind };
                let upper = Bound { limit: h, bound_type: right_kind };
                &&& r matches Ok(i) ==> i.left()@ == lower && i.right()@ == upper
                &&& r matches Err(x) ==> x is IntervalIsEmpty
                &&& obeys_cmp::<T>() ==> (r.is_ok() <==> valid_bounds(lower, upper))
            },
        }
    }

    /// Makes an interval from two limits that a conversion has returned:
    /// passes on the first error among them, and else makes the interval
    /// between the bounds, or fails where nothing lies between them.
    pub fn try_from_parts<E>(left: Result<T, E>, left_kind: L, right: Result<T, E>, right_kind: R) -> (r:
        Result<Self, Error>) where Error: From<E>
        ensures
            Self::assembled(left, left_kind, right, right_kind, r),
    {
        let l = match left {
            Ok(l) => l,
            Err(e) => {
                return Err(Error::from(e));
            },
        };
        let h = match right {
            Ok(h) => h,
            Err(e) => {
                return Err(Error::from(e));
            },
        };
        let lower = Bound { limit: l, bound_type: left_kind };
        let upper = Bound { limit: h, bound_type: right_kind };
        match Self::new(lower, upper) {
            Ok(i) => Ok(i),
            Err(e) => Err(Error::IntervalIsEmpty(e)),
        }
    }

    /// Makes an interval from bounds whose limits are still raw values:
    /// converts both limits into the scalar domain, then makes the interval.
    /// Fails where a limit is refused, and where nothing lies between the
    /// bounds.
    pub fn try_new<T2>(left: Bound<T2, L>, right: Bound<T2, R>) -> (r: Result<Self, Error>) where
        T: OrdFrom<T2>,
        Error: From<T::Error>,

        ensures
            exists|l: Result<T, T::Error>, h: Result<T, T::Error>|
                {
                    &&& #[trigger] converts(left.limit, l)
                    &&& #[trigger] converts(right.limit, h)
                    &&& Self::assembled(l, left.bound_type, h, right.bound_type, r)
                },
    {
        let l = T::ord_from(left.limit);
        let h = T::ord_from(right.limit);
        proof {
            assert(converts(left.limit, l));
            assert(converts(right.limit, h));
        }
        Self::try_from_parts(l, left.bound_type, h, right.bound_type)
    }

    /// Makes the interval between two limits, with the boundary kinds that
    /// the type of the interval fixes.
    pub fn between(left: T, right: T) -> (r: Result<Self, IntervalIsEmpty>) where
        T: Into<Bound<T, L>> + Into<Bound<T, R>>,

        ensures
            exists|lower: Bound<T, L>, upper: Bound<T, R>|
                {
                    &&& #[trigger] turns_into(left, lower)
                    &&& #[trigger] turns_into(right, upper)
                    &&& r matches Ok(i) ==> i.left()@ == lower && i.right()@ == upper
                    &&& obeys_cmp::<T>() ==> (r.is_ok() <==> valid_bounds(lower, upper))
                },
    {
        let lower: Bound<T, L> = left.into();
        let upper: Bound<T, R> = right.into();
        proof {
            assert(turns_into(left, lower));
            assert(turns_into(right, upper));
        }
        Self::new(lower, upper)
    }

    /// Makes the interval between two raw limits, with the boundary kinds
    /// that the type of the interval fixes: converts both limits into the
    /// scalar domain, then makes the interval as `between` does.
    pub fn try_between<T2>(left: T2, right: T2) -> (r: Result<Self, Error>) where
        T: OrdFrom<T2> + Into<Bound<T, L>> + Into<Bound<T, R>>,
        Error: From<T::Error>,

        ensures
            exists|l: Result<T, T::Error>, h: Result<T, T::Error>|
                {
                    &&& #[trigger] converts(left, l)
                    &&& #[trigger] converts(right, h)
                    &&& match (l, h) {
                        (Err(e), _) => r matches Err(x) && wraps(e, x),
                        (Ok(_), Err(e)) => r matches Err(x) && wraps(e, x),
                        (Ok(a), Ok(b)) => exists|lower: Bound<T, L>, upper: Bound<T, R>|
                            {
                                &&& #[trigger] turns_into(a, lower)
                                &&& #[trigger] turns_into(b, upper)
                                &&& r matches Ok(i) ==> i.left()@ == lower && i.right()@ == upper
                                &&& r matches Err(x) ==> x is IntervalIsEmpty
                                &&& obeys_cmp::<T>() ==> (r.is_ok() <==> valid_bounds(lower, upper))
                            },
                    }
                },
    {
        let l = T::ord_from(left);
        let h = T::ord_from(right);
        proof {
            assert(converts(left, l));
            assert(converts(right, h));
        }
        let a = match l {
            Ok(a) => a,
            Err(e) => {
                return Err(Error::from(e));
            },
        };
        let b = match h {
            Ok(b) => b,
            Err(e) => {
                return Err(Error::from(e));
            },
        };
        let lower: Bound<T, L> = a.into();
        let upper: Bound<T, R> = b.into();
        proof {
            assert(turns_into(a, lower));
            assert(turns_into(b, upper));
        }
        match Self::new(lower, upper) {
            Ok(i) => Ok(i),
            Err(e) => Err(Error::IntervalIsEmpty(e)),
        }
    }

    /// The lower half of the interval, under its other name.
    pub fn lower(&self) -> (r: &LeftBounded<T, L>)
        ensures
            r == self.left(),
    {
        &self.left
    }

    /// The upper half of the interval, under its other name.
    pub fn upper(&self) -> (r: &RightBounded<T, R>)
        ensures
            r == self.right(),
    {
        &self.right
    }

    /// The enclosure of two intervals, under its other name.
    pub fn union_interval(self, other: Self) -> (r: Self)
        ensures
            obeys_cmp::<T>() ==> *r.left() == self.left().earlier(*other.left()),
            obeys_cmp::<T>() ==> *r.right() == self.right().later(*other.right()),
    {
        self.enclosure(other)
    }

    /// The length of the interval: the upper limit less the lower one.
    pub fn measure(&self) -> (r: T) where T: Copy + std::ops::Sub<Output = T>
        requires
            self.right()@.limit.sub_req(self.left()@.limit),
        ensures
            T::obeys_sub_spec() ==> r == self.right()@.limit.sub_spec(self.left()@.limit),
    {
        self.right.limit - self.left.limit
    }

    /// Everything below the interval: the complement of its lower half.
    pub fn lower_bound(&self) -> (r: RightBounded<T, L::Flip>) where T: Copy
        ensures
            r@ == self.left()@.flipped(),
    {
        self.left.flip()
    }

    /// Everything above the interval: the complement of its upper half.
    pub fn upper_bound(&self) -> (r: LeftBounded<T, R::Flip>) where T: Copy
        ensures
            r@ == self.right()@.flipped(),
    {
        self.right.flip()
    }

    /// The infimum of the interval: its lower limit.
    pub fn inf(&self) -> (r: T) where T: Copy
        ensures
            r == self.left()@.limit,
    {
        self.left.inf()
    }

    /// The supremum of the interval: its upper limit.
    pub fn sup(&self) -> (r: T) where T: Copy
        ensures
            r == self.right()@.limit,
    {
        self.right.sup()
    }

    /// The interval with both limits taken in.
    pub fn closure(self) -> (r: Interval<T, Inclusive>) where T: Copy
        ensures
            r.left()@ == (Bound { limit: self.left()@.limit, bound_type: Inclusive }),
            r.right()@ == (Bound { limit: self.right()@.limit, bound_type: Inclusive }),
    {
        proof {
            use_type_invariant(&self);
            if obeys_cmp::<T>() {
                lemma_total_order::<T>();
            }
        }
        Interval { left: self.left.closure(), right: self.right.closure() }
    }

    /// The interval with both limits left out, or `None` where nothing
    /// remains, as of a single point.
    pub fn interior(self) -> (r: Option<Interval<T, Exclusive>>) where T: Copy
        ensures
            obeys_cmp::<T>() ==> (r.is_some() <==> lt(self.left()@.limit, self.right()@.limit)),
            r matches Some(i) ==> {
                &&& i.left()@ == (Bound { limit: self.left()@.limit, bound_type: Exclusive })
                &&& i.right()@ == (Bound { limit: self.right()@.limit, bound_type: Exclusive })
            },
    {
        Interval::<T, Exclusive>::new_(self.left.interior(), self.right.interior())
    }

    /// The lower bound of the enclosure of the intervals of `s`, taken from
    /// the first to the last.
    pub open spec fn hull_left(s: Seq<Self>) -> LeftBounded<T, L>
        decreases s.len(),
    {
        if s.len() <= 1 {
            *s[0].left()
        } else {
            Self::hull_left(s.drop_last()).earlier(*s.last().left())
        }
    }

    /// The upper bound of the enclosure of the intervals of `s`, taken from
    /// the first to the last.
    pub open spec fn hull_right(s: Seq<Self>) -> RightBounded<T, R>
        decreases s.len(),
    {
        if s.len() <= 1 {
            *s[0].right()
        } else {
            Self::hull_right(s.drop_last()).later(*s.last().right())
        }
    }

    /// The smallest interval that holds all of `items`, each of which is
    /// first turned into an interval; `None` where there are no items.
    pub fn enclosure_of_items<A: Into<Self>>(items: Vec<A>) -> (r: Option<Self>)
        ensures
            items.len() == 0 ==> r is None,
            items.len() > 0 ==> exists|c: Seq<Self>|
                {
                    &&& c.len() == items.len()
                    &&& forall|k: int| 0 <= k < c.len() ==> #[trigger] turns_into(items[k], c[k])
                    &&& r matches Some(e) && (obeys_cmp::<T>() ==> *e.left() == Self::hull_left(c)
                        && *e.right() == Self::hull_right(c))
                },
    {
        let ghost mut c: Seq<Self> = Seq::empty();
        let mut acc: Option<Self> = None;
        for item in iter: items.into_iter()
            invariant
                iter.seq() == items@,
                c.len() == iter.index(),
                forall|k: int| 0 <= k < c.len() ==> #[trigger] turns_into(items[k], c[k]),
                c.len() == 0 ==> acc is None,
                c.len() > 0 ==> (acc matches Some(e) && (obeys_cmp::<T>() ==> *e.left()
                    == Self::hull_left(c) && *e.right() == Self::hull_right(c))),
        {
            let next: Self = item.into();
            let ghost before = c;
            proof {
                assert(turns_into(item, next));
                c = c.push(next);
                assert(c.drop_last() =~= before);
                assert(c.last() == next);
                assert(c[0] == if before.len() == 0 {
                    next
                } else {
                    before[0]
                });
            }
            acc = match acc {
                None => Some(next),
                Some(e) => Some(e.enclosure(next)),
            };
        }
        acc
    }

    /// The least element of the interval.
    pub fn min(&self) -> (m: T) where LeftBounded<T, L>: Minimum<T>
        requires
            self.left().has_minimum(),
        ensures
            m == self.left().least(),
    {
        self.left.minimum()
    }

    /// The greatest element of the interval.
    pub fn max(&self) -> (m: T) where RightBounded<T, R>: Maximum<T>
        requires
            self.right().has_maximum(),
        ensures
            m == self.right().greatest(),
    {
        self.right.maximum()
    }

    /// Whether `t` lies in the interval.
    pub fn contains(&self, t: &T) -> (r: bool)
        ensures
            obeys_cmp::<T>() ==> r == self.admits(*t),
    {
        self.left.contains(t) && self.right.contains(t)
    }

    /// Whether the two intervals have anything in common.
    pub fn overlaps(&self, other: &Self) -> (r: bool)
        ensures
            obeys_cmp::<T>() ==> r == self.meets(*other),
    {
        let left = self.left.max_ref(&other.left);
        let right = self.right.min_ref(&other.right);
        proof {
            use_type_invariant(self);
            use_type_invariant(other);
            if obeys_cmp::<T>() {
                Self::lemma_meets(*self, *other);
            }
        }
        is_valid_interval(left, right)
    }

    /// What the two intervals have in common, if anything: the interval
    /// from the later of the lower bounds to the earlier of the upper ones.
    pub fn intersection(self, other: Self) -> (r: Option<Self>)
        ensures
            obeys_cmp::<T>() ==> (r.is_some() <==> valid_bounds(
                self.left().later(*other.left())@,
                self.right().earlier(*other.right())@,
            )),
            obeys_cmp::<T>() ==> (r matches Some(i) ==> *i.left() == self.left().later(
                *other.left(),
            ) && *i.right() == self.right().earlier(*other.right())),
    {
        Self::new_(self.left.intersection(other.left), self.right.intersection(other.right))
    }

    /// The smallest interval that holds both intervals: from the earlier of
    /// the lower bounds to the later of the upper ones.
    pub fn enclosure(self, other: Self) -> (r: Self)
        ensures
            obeys_cmp::<T>() ==> *r.left() == self.left().earlier(*other.left()),
            obeys_cmp::<T>() ==> *r.right() == self.right().later(*other.right()),
    {
        proof {
            use_type_invariant(&self);
            use_type_invariant(&other);
            if obeys_cmp::<T>() {
                Self::lemma_enclosure_valid(self, other);
            }
        }
        Self { left: self.left.union(other.left), right: self.right.union(other.right) }
    }

    /// The bounds of the gap between two intervals: from the flipped upper
    /// bound of the one that lies below to the flipped lower bound of the
    /// one that lies above, where these leave anything between them.
    pub open spec fn gap_bounds(self, other: Self) -> Option<(Bound<T, R::Flip>, Bound<T, L::Flip>)> {
        if valid_bounds(self.right()@.flipped(), other.left()@.flipped()) {
            Some((self.right()@.flipped(), other.left()@.flipped()))
        } else if valid_bounds(other.right()@.flipped(), self.left()@.flipped()) {
            Some((other.right()@.flipped(), self.left()@.flipped()))
        } else {
            None
        }
    }

    /// The interval strictly between two intervals that are apart: what
    /// lies above the one and below the other. `None` where they overlap or
    /// touch.
    pub fn gap(self, other: Self) -> (r: Option<Interval<T, R::Flip, L::Flip>>) where
        L::Flip: BoundaryOf<Right>,
        R::Flip: BoundaryOf<Left>,

        ensures
            obeys_cmp::<T>() ==> match (r, self.gap_bounds(other)) {
                (Some(g), Some(b)) => g.left()@ == b.0 && g.right()@ == b.1,
                (None, None) => true,
                _ => false,
            },
    {
        let first = Interval::new_(self.right.flip(), other.left.flip());
        let second = Interval::new_(other.right.flip(), self.left.flip());
        match first {
            Some(g) => Some(g),
            None => second,
        }
    }

    /// The enclosure of two intervals together with the gap between them.
    pub fn union(self, other: Self) -> (r: IntervalUnion<T, L, R>) where
        T: Copy,
        L::Flip: BoundaryOf<Right>,
        R::Flip: BoundaryOf<Left>,

        ensures
            obeys_cmp::<T>() ==> *r.enclosure.left() == self.left().earlier(*other.left()),
            obeys_cmp::<T>() ==> *r.enclosure.right() == self.right().later(*other.right()),
            obeys_cmp::<T>() ==> match (r.gap, self.gap_bounds(other)) {
                (Some(g), Some(b)) => g.left()@ == b.0 && g.right()@ == b.1,
                (None, None) => true,
                _ => false,
            },
    {
        IntervalUnion { gap: self.gap(other), enclosure: self.enclosure(other) }
    }

    /// The later lower bound and the earlier upper bound of two intervals
    /// leave something between them exactly where each interval begins
    /// before the other ends.
    pub proof fn lemma_meets(i: Self, j: Self)
        requires
            obeys_cmp::<T>(),
            i.is_valid(),
            j.is_valid(),
        ensures
            valid_bounds(i.left().later(*j.left())@, i.right().earlier(*j.right())@) <==> i.meets(j),
    {
        lemma_total_order::<T>();
    }

    /// The earlier lower bound and the later upper bound of two intervals
    /// always leave something between them.
    pub proof fn lemma_enclosure_valid(i: Self, j: Self)
        requires
            obeys_cmp::<T>(),
            i.is_valid(),
            j.is_valid(),
        ensures
            valid_bounds(i.left().earlier(*j.left())@, i.right().later(*j.right())@),
    {
        lemma_total_order::<T>();
    }

    /// Whether `self` is a superset of `other`, judged by the limits.
    pub fn includes(&self, other: &Self) -> (r: bool)
        ensures
            obeys_cmp::<T>() ==> r == self.encloses(*other),
    {
        self.left.includes(&other.left) && self.right.includes(&other.right)
    }
}

impl<T: Ord, L: BoundaryOf<Left>, R: BoundaryOf<Right>> Minimum<T> for Interval<T, L, R> where
    LeftBounded<T, L>: Minimum<T>,
 {
    open spec fn has_minimum(&self) -> bool {
        self.left().has_minimum()
    }

    open spec fn least(&self) -> T {
        self.left().least()
    }

    fn minimum(&self) -> T {
        self.left.minimum()
    }
}

impl<T: Ord, L: BoundaryOf<Left>, R: BoundaryOf<Right>> Maximum<T> for Interval<T, L, R> where
    RightBounded<T, R>: Maximum<T>,
 {
    open spec fn has_maximum(&self) -> bool {
        self.right().has_maximum()
    }

    open spec fn greatest(&self) -> T {
        self.right().greatest()
    }

    fn maximum(&self) -> T {
        self.right.maximum()
    }
}

impl<T, L: BoundaryOf<Left>, R: BoundaryOf<Right>> Interval<NotNan<T>, L, R> where
    NotNan<T>: Ord + TryFrom<T, Error = FloatIsNan>,
 {
    /// Makes an interval of floats: turns both limits into `NotNan`, which
    /// fails on NaN, then makes the interval, which fails where nothing
    /// lies between the bounds.
    pub fn float_new(left: Bound<T, L>, right: Bound<T, R>) -> (r: Result<Self, Error>)
        ensures
            exists|l: Result<NotNan<T>, FloatIsNan>, h: Result<NotNan<T>, FloatIsNan>|
                {
                    &&& #[trigger] converts(left.limit, l)
                    &&& #[trigger] converts(right.limit, h)
                    &&& Self::assembled(l, left.bound_type, h, right.bound_type, r)
                },
    {
        Self::try_new(left, right)
    }

    /// Makes the interval of floats between two limits, with the boundary
    /// kinds that the type of the interval fixes.
    pub fn float_between(left: T, right: T) -> (r: Result<Self, Error>) where
        T: Into<Bound<T, L>> + Into<Bound<T, R>>,

        ensures
            exists|lower: Bound<T, L>, upper: Bound<T, R>|
                {
                    &&& #[trigger] turns_into(left, lower)
                    &&& #[trigger] turns_into(right, upper)
                    &&& exists|l: Result<NotNan<T>, FloatIsNan>, h: Result<NotNan<T>, FloatIsNan>|
                        {
                            &&& #[trigger] converts(lower.limit, l)
                            &&& #[trigger] converts(upper.limit, h)
                            &&& Self::assembled(l, lower.bound_type, h, upper.bound_type, r)
                        }
                },
    {
        let lower: Bound<T, L> = left.into();
        let upper: Bound<T, R> = right.into();
        proof {
            assert(turns_into(left, lower));
            assert(turns_into(right, upper));
        }
        Self::float_new(lower, upper)
    }
}

impl<T: Ord, L: BoundaryOf<Left>, R: BoundaryOf<Right>> Interval<T, L, R> {
    /// The closed interval that holds `t` and nothing else.
    pub(crate) fn of_point(t: T) -> (r: Interval<T, Inclusive>) where T: Copy
        ensures
            r == Interval::<T, Inclusive>::from_bounds(
                Bound { limit: t, bound_type: Inclusive },
                Bound { limit: t, bound_type: Inclusive },
            ),
    {
        proof {
            if obeys_cmp::<T>() {
                lemma_total_order::<T>();
            }
        }
        let r = Interval {
            left: LeftBounded::new(Bound { limit: t, bound_type: Inclusive }),
            right: RightBounded::new(Bound { limit: t, bound_type: Inclusive }),
        };
        proof {
            r.lemma_from_bounds();
        }
        r
    }

    /// The same interval with its boundary kinds as run-time variants.
    pub fn into_general(self) -> (g: Interval<T, BoundType, BoundType>)
        ensures
            g == Interval::<T, BoundType, BoundType>::from_bounds(
                Bound {
                    limit: self.left()@.limit,
                    bound_type: spec_general_kind(self.left()@.bound_type),
                },
                Bound {
                    limit: self.right()@.limit,
                    bound_type: spec_general_kind(self.right()@.bound_type),
                },
            ),
            g.left()@.limit == self.left()@.limit,
            g.right()@.limit == self.right()@.limit,
            g.left()@.bound_type.polarity() == self.left()@.bound_type.polarity(),
            g.right()@.bound_type.polarity() == self.right()@.bound_type.polarity(),
    {
        proof {
            use_type_invariant(&self);
        }
        let Interval { left, right } = self;
        let left = left.into_bound();
        let right = right.into_bound();
        let lower = Bound { limit: left.limit, bound_type: general_kind(left.bound_type) };
        let upper = Bound { limit: right.limit, bound_type: general_kind(right.bound_type) };
        let g = Interval { left: LeftBounded::new(lower), right: RightBounded::new(upper) };
        proof {
            g.lemma_from_bounds();
        }
        g
    }
}

/// The run-time variant that stands for a boundary kind.
pub open spec fn spec_general_kind<B: Boundary>(kind: B) -> BoundType {
    if kind.polarity() {
        BoundType::Inclusive
    } else {
        BoundType::Exclusive
    }
}

fn general_kind<B: Boundary>(kind: B) -> (g: BoundType)
    ensures
        g == spec_general_kind(kind),
{
    if kind.inclusive() {
        BoundType::Inclusive
    } else {
        BoundType::Exclusive
    }
}

impl<T: Ord, L: BoundaryOf<Left>, R: BoundaryOf<Right>> Interval<T, L, R> {
    /// Whether `==` holds of two intervals: their limits are equal, and so
    /// are their boundary kinds.
    pub open spec fn same_as(self, other: Self) -> bool {
        &&& self.left()@.limit.eq_spec(&other.left()@.limit)
        &&& self.left()@.bound_type.polarity() == other.left()@.bound_type.polarity()
        &&& self.right()@.limit.eq_spec(&other.right()@.limit)
        &&& self.right()@.bound_type.polarity() == other.right()@.bound_type.polarity()
    }
}

impl<T: Ord, L: BoundaryOf<Left>, R: BoundaryOf<Right>> PartialEq for Interval<T, L, R> {
    fn eq(&self, other: &Self) -> (r: bool) {
        self.left.limit == other.left.limit && self.left.bound_type.inclusive()
            == other.left.bound_type.inclusive() && self.right.limit == other.right.limit
            && self.right.bound_type.inclusive() == other.right.bound_type.inclusive()
    }
}

impl<T: Ord, L: BoundaryOf<Left>, R: BoundaryOf<Right>> vstd::std_specs::cmp::PartialEqSpecImpl for Interval<T, L, R> {
    open spec fn obeys_eq_spec() -> bool {
        T::obeys_eq_spec()
    }

    open spec fn eq_spec(&self, other: &Self) -> bool {
        self.same_as(*other)
    }
}

impl<T: Ord, L: BoundaryOf<Left>, R: BoundaryOf<Right>> Eq for Interval<T, L, R> {

}

impl<T: Discrete, L: BoundaryOf<Left>, R: BoundaryOf<Right>> Interval<T, L, R> {
    /// The index of the least element: the lower limit, or the value one
    /// above it where the lower bound is exclusive.
    pub open spec fn first_index(self) -> int {
        if self.left()@.bound_type.polarity() {
            self.left()@.limit.index()
        } else {
            self.left()@.limit.index() + 1
        }
    }

    /// The index of the greatest element: the upper limit, or the value one
    /// below it where the upper bound is exclusive.
    pub open spec fn last_index(self) -> int {
        if self.right()@.bound_type.polarity() {
            self.right()@.limit.index()
        } else {
            self.right()@.limit.index() - 1
        }
    }

    /// The least element of an interval over a discrete domain. It is above
    /// the greatest one where the interval holds no value at all, as *(3, 4)*
    /// does over the integers.
    pub fn first(&self) -> (m: T)
        ensures
            m.index() == self.first_index(),
    {
        proof {
            use_type_invariant(self);
            T::lemma_discrete(self.left()@.limit, self.right()@.limit);
            T::lemma_discrete(self.right()@.limit, self.left()@.limit);
            lemma_total_order::<T>();
        }
        if self.left.bound_type.inclusive() {
            self.left.limit
        } else {
            self.left.limit.succ()
        }
    }

    /// The greatest element of an interval over a discrete domain.
    pub fn last(&self) -> (m: T)
        ensures
            m.index() == self.last_index(),
    {
        proof {
            use_type_invariant(self);
            T::lemma_discrete(self.left()@.limit, self.right()@.limit);
            T::lemma_discrete(self.right()@.limit, self.left()@.limit);
            lemma_total_order::<T>();
        }
        if self.right.bound_type.inclusive() {
            self.right.limit
        } else {
            self.right.limit.pred()
        }
    }

    /// The elements of the interval from the least to the greatest.
    pub fn to_vec(&self) -> (v: Vec<T>)
        requires
            self.last_index() - self.first_index() < usize::MAX,
        ensures
            v.len() == if self.first_index() <= self.last_index() {
                self.last_index() - self.first_index() + 1
            } else {
                0
            },
            forall|k: int| 0 <= k < v.len() ==> (#[trigger] v[k]).index() == self.first_index() + k,
    {
        let first = self.first();
        let last = self.last();
        let mut v: Vec<T> = Vec::new();
        proof {
            T::lemma_discrete(first, last);
            T::lemma_discrete(last, first);
            lemma_total_order::<T>();
        }
        if first > last {
            return v;
        }
        let mut t = first;
        v.push(t);
        while t < last
            invariant
                first.index() <= t.index() <= last.index(),
                last.index() - first.index() < usize::MAX,
                v.len() == t.index() - first.index() + 1,
                forall|k: int| 0 <= k < v.len() ==> (#[trigger] v[k]).index() == first.index() + k,
            decreases last.index() - t.index(),
        {
            proof {
                T::lemma_discrete(t, last);
                T::lemma_discrete(last, t);
                lemma_total_order::<T>();
            }
            t = t.succ();
            v.push(t);
        }
        proof {
            T::lemma_discrete(t, last);
            T::lemma_discrete(last, t);
            lemma_total_order::<T>();
        }
        v
    }
}

impl<T: Discrete, L: BoundaryOf<Left>, R: BoundaryOf<Right>> IntoIterator for Interval<T, L, R> where
    std::ops::RangeInclusive<T>: Iterator<Item = T>,
 {
    type Item = T;

    type IntoIter = std::ops::RangeInclusive<T>;

    /// The range from the least to the greatest element.
    fn into_iter(self) -> (r: std::ops::RangeInclusive<T>)
        ensures
            r@.start.index() == self.first_index(),
            r@.end.index() == self.last_index(),
            !r@.exhausted,
    {
        std::ops::RangeInclusive::new(self.first(), self.last())
    }
}

} // verus!
