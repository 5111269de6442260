//! Laws of the interval algebra, proved of every lawful scalar type.

use crate::bound::Bound;
use crate::discrete::Discrete;
use crate::half::HalfBounded;
use crate::inclusion::BoundType;
use crate::inclusion::Exclusive;
use crate::inclusion::Inclusive;
use crate::inclusion::Left;
use crate::inclusion::Right;
use crate::interval::valid_bounds;
use crate::interval::Interval;
use crate::interval::IntervalUnion;
use crate::order::le;
use crate::order::lemma_total_order;
use crate::order::same;
use crate::traits::admits;
use crate::traits::BoundaryOf;
use crate::traits::Flip;
use crate::traits::Maximum;
use crate::traits::Minimum;
use crate::traits::Tag;
use vstd::laws_cmp::obeys_cmp;
use vstd::prelude::*;

verus! {

/// Whether `t` lies between a lower and an upper bound.
pub open spec fn lies_between<T: Ord, A: Tag, B: Tag>(left: Bound<T, A>, right: Bound<T, B>, t: T) -> bool {
    admits(left.bound_type.polarity(), left.limit, t) && admits(
        right.bound_type.polarity(),
        t,
        right.limit,
    )
}

/// Flipping a bound twice gives the bound back.
pub proof fn lemma_bound_flip_involution<T, B: Flip>(b: Bound<T, B>) where B::Flip: Flip<Flip = B>
    ensures
        b.flipped().flipped() == b,
{
    b.bound_type.lemma_flipped();
    b.bound_type.flipped().lemma_flipped();
    B::lemma_polarity_decides(b.bound_type.flipped().flipped(), b.bound_type);
}

/// Flipping a one-sided range twice gives the range back.
pub proof fn lemma_half_flip_involution<T, B: Flip, LR: Flip>(h: HalfBounded<T, B, LR>) where
    B::Flip: Flip<Flip = B>,
    LR::Flip: Flip<Flip = LR>,

    ensures
        h.flipped().flipped()@ == h@,
{
    h.lemma_flipped_view();
    h.flipped().lemma_flipped_view();
    lemma_bound_flip_involution(h@);
}

/// The least element of an interval that is closed below is its lower
/// limit, which the interval holds.
pub proof fn lemma_inclusive_minimum<T: Ord + Copy, R: BoundaryOf<Right>>(i: Interval<T, Inclusive, R>)
    requires
        obeys_cmp::<T>(),
        i.is_valid(),
    ensures
        i.has_minimum(),
        i.admits(i.least()),
        forall|t: T| i.admits(t) ==> le(i.least(), t),
{
    lemma_total_order::<T>();
}

/// The greatest element of an interval that is closed above is its upper
/// limit, which the interval holds.
pub proof fn lemma_inclusive_maximum<T: Ord + Copy, L: BoundaryOf<Left>>(i: Interval<T, L, Inclusive>)
    requires
        obeys_cmp::<T>(),
        i.is_valid(),
    ensures
        i.has_maximum(),
        i.admits(i.greatest()),
        forall|t: T| i.admits(t) ==> le(t, i.greatest()),
{
    lemma_total_order::<T>();
}

/// Over a discrete domain an interval that is open below has a least
/// element, which it holds as soon as it holds anything.
pub proof fn lemma_exclusive_minimum<T: Discrete, R: BoundaryOf<Right>>(i: Interval<T, Exclusive, R>, t: T)
    requires
        i.is_valid(),
    ensures
        i.has_minimum(),
        i.admits(t) ==> i.admits(i.least()) && le(i.least(), t),
{
    lemma_discrete_order::<T>(i.left()@.limit, i.right()@.limit, t, i.least());
    lemma_total_order::<T>();
}

/// Over a discrete domain an interval that is open above has a greatest
/// element, which it holds as soon as it holds anything.
pub proof fn lemma_exclusive_maximum<T: Discrete, L: BoundaryOf<Left>>(i: Interval<T, L, Exclusive>, t: T)
    requires
        i.is_valid(),
    ensures
        i.has_maximum(),
        i.admits(t) ==> i.admits(i.greatest()) && le(t, i.greatest()),
{
    lemma_discrete_order::<T>(i.left()@.limit, i.right()@.limit, t, i.greatest());
    lemma_total_order::<T>();
}

/// Over a discrete domain an interval whose lower kind is chosen at run
/// time has a least element, which it holds as soon as it holds anything.
pub proof fn lemma_bound_type_minimum<T: Discrete, R: BoundaryOf<Right>>(i: Interval<T, BoundType, R>, t: T)
    requires
        i.is_valid(),
    ensures
        i.has_minimum(),
        i.admits(t) ==> i.admits(i.least()) && le(i.least(), t),
{
    lemma_discrete_order::<T>(i.left()@.limit, i.right()@.limit, t, i.least());
    lemma_total_order::<T>();
}

/// Over a discrete domain an interval whose upper kind is chosen at run
/// time has a greatest element, which it holds as soon as it holds
/// anything.
pub proof fn lemma_bound_type_maximum<T: Discrete, L: BoundaryOf<Left>>(i: Interval<T, L, BoundType>, t: T)
    requires
        i.is_valid(),
    ensures
        i.has_maximum(),
        i.admits(t) ==> i.admits(i.greatest()) && le(t, i.greatest()),
{
    lemma_discrete_order::<T>(i.left()@.limit, i.right()@.limit, t, i.greatest());
    lemma_total_order::<T>();
}

/// The order of four values of a discrete domain, read off their indices.
proof fn lemma_discrete_order<T: Discrete>(a: T, b: T, c: T, d: T)
    ensures
        obeys_cmp::<T>(),
        le(a, b) <==> a.index() <= b.index(),
        le(b, a) <==> b.index() <= a.index(),
        le(a, c) <==> a.index() <= c.index(),
        le(c, a) <==> c.index() <= a.index(),
        le(a, d) <==> a.index() <= d.index(),
        le(d, a) <==> d.index() <= a.index(),
        le(b, c) <==> b.index() <= c.index(),
        le(c, b) <==> c.index() <= b.index(),
        le(b, d) <==> b.index() <= d.index(),
        le(d, b) <==> d.index() <= b.index(),
        le(c, d) <==> c.index() <= d.index(),
        le(d, c) <==> d.index() <= c.index(),
        a.has_successor() ==> a.successor().index() == a.index() + 1,
        b.has_predecessor() ==> b.predecessor().index() == b.index() - 1,
        a.index() < b.index() ==> a.has_successor() && b.has_predecessor(),
{
    T::lemma_discrete(a, b);
    T::lemma_discrete(b, a);
    T::lemma_discrete(a, c);
    T::lemma_discrete(c, a);
    T::lemma_discrete(a, d);
    T::lemma_discrete(d, a);
    T::lemma_discrete(b, c);
    T::lemma_discrete(c, b);
    T::lemma_discrete(b, d);
    T::lemma_discrete(d, b);
    T::lemma_discrete(c, d);
    T::lemma_discrete(d, c);
}

/// Two intervals overlap exactly where they have an intersection.
pub proof fn lemma_overlaps_iff_intersection<T: Ord, L: BoundaryOf<Left>, R: BoundaryOf<Right>>(
    i: Interval<T, L, R>,
    j: Interval<T, L, R>,
)
    requires
        obeys_cmp::<T>(),
        i.is_valid(),
        j.is_valid(),
    ensures
        i.meets(j) <==> valid_bounds(i.left().later(*j.left())@, i.right().earlier(*j.right())@),
{
    Interval::lemma_meets(i, j);
}

/// Two intervals include each other exactly where their limits are equal;
/// with equal boundary kinds as well, that is where `==` holds of them.
pub proof fn lemma_mutual_inclusion<T: Ord, L: BoundaryOf<Left>, R: BoundaryOf<Right>>(
    i: Interval<T, L, R>,
    j: Interval<T, L, R>,
)
    requires
        obeys_cmp::<T>(),
    ensures
        i.encloses(j) && j.encloses(i) <==> same(i.left()@.limit, j.left()@.limit) && same(
            i.right()@.limit,
            j.right()@.limit,
        ),
        i.same_as(j) <==> {
            &&& i.encloses(j)
            &&& j.encloses(i)
            &&& i.left()@.bound_type.polarity() == j.left()@.bound_type.polarity()
            &&& i.right()@.bound_type.polarity() == j.right()@.bound_type.polarity()
        },
{
    lemma_total_order::<T>();
}

/// An interval meets itself in itself, and encloses with itself nothing
/// but itself.
pub proof fn lemma_idempotence<T: Ord, L: BoundaryOf<Left>, R: BoundaryOf<Right>>(i: Interval<T, L, R>)
    requires
        obeys_cmp::<T>(),
        i.is_valid(),
    ensures
        i.left().later(*i.left()) == *i.left(),
        i.right().earlier(*i.right()) == *i.right(),
        valid_bounds(i.left().later(*i.left())@, i.right().earlier(*i.right())@),
        i.left().earlier(*i.left()) == *i.left(),
        i.right().later(*i.right()) == *i.right(),
{
    lemma_total_order::<T>();
}

/// The gap between two intervals has nothing in common with either.
pub proof fn lemma_gap_disjoint<T: Ord, L: BoundaryOf<Left>, R: BoundaryOf<Right>>(
    i: Interval<T, L, R>,
    j: Interval<T, L, R>,
    t: T,
) where L::Flip: BoundaryOf<Right>, R::Flip: BoundaryOf<Left>
    requires
        obeys_cmp::<T>(),
        i.is_valid(),
        j.is_valid(),
        i.gap_bounds(j) is Some,
    ensures
        ({
            let g = i.gap_bounds(j).unwrap();
            lies_between(g.0, g.1, t) ==> !i.admits(t) && !j.admits(t)
        }),
{
    lemma_total_order::<T>();
    i.left()@.bound_type.lemma_flipped();
    i.right()@.bound_type.lemma_flipped();
    j.left()@.bound_type.lemma_flipped();
    j.right()@.bound_type.lemma_flipped();
}

/// Two intervals with a gap between them lie apart.
pub proof fn lemma_gap_apart<T: Ord, L: BoundaryOf<Left>, R: BoundaryOf<Right>>(
    i: Interval<T, L, R>,
    j: Interval<T, L, R>,
) where L::Flip: BoundaryOf<Right>, R::Flip: BoundaryOf<Left>
    requires
        obeys_cmp::<T>(),
        i.is_valid(),
        j.is_valid(),
        i.gap_bounds(j) is Some,
    ensures
        !i.meets(j),
{
    lemma_total_order::<T>();
    i.left()@.bound_type.lemma_flipped();
    i.right()@.bound_type.lemma_flipped();
    j.left()@.bound_type.lemma_flipped();
    j.right()@.bound_type.lemma_flipped();
}

/// Where the gap between two intervals is an interval of their own type,
/// enclosing the one, the gap and the other gives what enclosing the two
/// gives.
pub proof fn lemma_gap_enclosure<T: Ord, L, R>(i: Interval<T, L, R>, g: Interval<T, L, R>, j: Interval<T, L, R>) where
    L: BoundaryOf<Left> + Flip<Flip = R>,
    R: BoundaryOf<Right> + Flip<Flip = L>,

    requires
        obeys_cmp::<T>(),
        i.is_valid(),
        j.is_valid(),
        i.gap_bounds(j) == Some((g.left()@, g.right()@)),
    ensures
        i.left().earlier(*g.left()).earlier(*j.left())@ == i.left().earlier(*j.left())@,
        i.right().later(*g.right()).later(*j.right())@ == i.right().later(*j.right())@,
{
    lemma_total_order::<T>();
    i.left()@.bound_type.lemma_flipped();
    i.right()@.bound_type.lemma_flipped();
    j.left()@.bound_type.lemma_flipped();
    j.right()@.bound_type.lemma_flipped();
}

/// The intersection of two intervals holds exactly what both hold.
pub proof fn lemma_intersection_members<T: Ord, L: BoundaryOf<Left>, R: BoundaryOf<Right>>(
    i: Interval<T, L, R>,
    j: Interval<T, L, R>,
    t: T,
)
    requires
        obeys_cmp::<T>(),
    ensures
        lies_between(i.left().later(*j.left())@, i.right().earlier(*j.right())@, t) <==> i.admits(t)
            && j.admits(t),
{
    lemma_total_order::<T>();
}

/// The enclosure of two intervals holds whatever either of them holds.
pub proof fn lemma_enclosure_members<T: Ord, L: BoundaryOf<Left>, R: BoundaryOf<Right>>(
    i: Interval<T, L, R>,
    j: Interval<T, L, R>,
    t: T,
)
    requires
        obeys_cmp::<T>(),
        i.admits(t) || j.admits(t),
    ensures
        lies_between(i.left().earlier(*j.left())@, i.right().later(*j.right())@, t),
{
    lemma_total_order::<T>();
}

/// What lies between two intervals that are apart is exactly what their
/// enclosure holds and neither of them does.
pub proof fn lemma_gap_members<T: Ord, L: BoundaryOf<Left>, R: BoundaryOf<Right>>(
    i: Interval<T, L, R>,
    j: Interval<T, L, R>,
    t: T,
) where L::Flip: BoundaryOf<Right>, R::Flip: BoundaryOf<Left>
    requires
        obeys_cmp::<T>(),
        i.is_valid(),
        j.is_valid(),
        i.gap_bounds(j) is Some,
    ensures
        ({
            let g = i.gap_bounds(j).unwrap();
            lies_between(g.0, g.1, t) <==> !i.admits(t) && !j.admits(t) && lies_between(
                i.left().earlier(*j.left())@,
                i.right().later(*j.right())@,
                t,
            )
        }),
{
    lemma_total_order::<T>();
    i.left()@.bound_type.lemma_flipped();
    i.right()@.bound_type.lemma_flipped();
    j.left()@.bound_type.lemma_flipped();
    j.right()@.bound_type.lemma_flipped();
}

/// The union of two intervals that are apart falls into the two intervals
/// themselves, the lower one first.
pub proof fn lemma_union_pieces<T: Ord, L, R>(
    i: Interval<T, L, R>,
    j: Interval<T, L, R>,
    u: IntervalUnion<T, L, R>,
) where
    L: BoundaryOf<Left>,
    R: BoundaryOf<Right>,
    L::Flip: BoundaryOf<Right> + Flip<Flip = L>,
    R::Flip: BoundaryOf<Left> + Flip<Flip = R>,

    requires
        obeys_cmp::<T>(),
        i.is_valid(),
        j.is_valid(),
        *u.enclosure.left() == i.left().earlier(*j.left()),
        *u.enclosure.right() == i.right().later(*j.right()),
        u.gap is Some,
        i.gap_bounds(j) == Some((u.gap.unwrap().left()@, u.gap.unwrap().right()@)),
    ensures
        u.pieces() == Some(
            if valid_bounds(i.right()@.flipped(), j.left()@.flipped()) {
                ((i.left()@, i.right()@), (j.left()@, j.right()@))
            } else {
                ((j.left()@, j.right()@), (i.left()@, i.right()@))
            },
        ),
{
    lemma_total_order::<T>();
    i.left()@.bound_type.lemma_flipped();
    i.right()@.bound_type.lemma_flipped();
    j.left()@.bound_type.lemma_flipped();
    j.right()@.bound_type.lemma_flipped();
    lemma_bound_flip_involution(i.left()@);
    lemma_bound_flip_involution(i.right()@);
    lemma_bound_flip_involution(j.left()@);
    lemma_bound_flip_involution(j.right()@);
}

} // verus!
