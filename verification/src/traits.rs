//! The capabilities that boundary kinds, side markers and scalar domains
//! bring to the interval types.

use crate::inclusion::SideInclusion;
use crate::order::le;
use crate::order::lt;
use vstd::laws_cmp::obeys_cmp;
use vstd::prelude::*;

verus! {

/// A marker that is in one of two states.
///
/// For a boundary kind the state says whether the bound includes its limit;
/// for a side marker it says whether the side is the left one.
pub trait Tag: Sized {
    /// The state of the marker.
    spec fn polarity(self) -> bool;

    /// A marker holds nothing but its state.
    proof fn lemma_polarity_decides(a: Self, b: Self)
        requires
            a.polarity() == b.polarity(),
        ensures
            a == b,
    ;
}

/// A marker that can be turned into the marker of the opposite state.
pub trait Flip: Tag {
    type Flip: Tag;

    /// The marker of the opposite state.
    spec fn flipped(self) -> Self::Flip;

    /// Flipping inverts the state.
    proof fn lemma_flipped(self)
        ensures
            self.flipped().polarity() == !self.polarity(),
    ;

    fn flip(self) -> (r: Self::Flip)
        ensures
            r == self.flipped(),
    ;
}

/// The side of an interval that a bound stands on.
pub trait Side: Flip {
    /// Whether this is the left (lower) side.
    spec fn is_left() -> bool;

    /// The marker's own state agrees with its type.
    proof fn lemma_side(s: Self)
        ensures
            s.polarity() == Self::is_left(),
    ;

    fn left() -> (b: bool)
        ensures
            b == Self::is_left(),
    ;
}

/// Whether a bound at `limit`, inclusive or not, lets `t` pass when the
/// bound is read as a lower one: `limit <= t`, or `limit < t`.
pub open spec fn admits<T: Ord>(inclusive: bool, limit: T, t: T) -> bool {
    if inclusive {
        le(limit, t)
    } else {
        lt(limit, t)
    }
}

/// A boundary kind: inclusive, exclusive, or one of the two chosen at run
/// time. Its `polarity` is `true` where it includes the limit.
pub trait Boundary: Flip + Copy {
    fn inclusive(&self) -> (b: bool)
        ensures
            b == self.polarity(),
    ;

    /// Compares `this` with `t` as this kind of bound does: with `<=` where
    /// it includes the limit, with `<` where it does not.
    fn less<T: Ord>(&self, this: &T, t: &T) -> (b: bool)
        ensures
            obeys_cmp::<T>() ==> b == admits(self.polarity(), *this, *t),
    ;
}

/// A boundary kind as used on the side `LR`, where it can be ordered against
/// other bounds of that side.
pub trait BoundaryOf<LR: Side>: Boundary {
    fn into_ordered(self) -> (o: SideInclusion<Self, LR>)
        ensures
            o.kind() == self,
    ;
}

/// A range that has a least element.
pub trait Minimum<T> {
    /// Whether the least element exists as a value of `T`.
    spec fn has_minimum(&self) -> bool;

    /// The least element.
    spec fn least(&self) -> T;

    fn minimum(&self) -> (m: T)
        requires
            self.has_minimum(),
        ensures
            m == self.least(),
    ;
}

/// A range that has a greatest element.
pub trait Maximum<T> {
    /// Whether the greatest element exists as a value of `T`.
    spec fn has_maximum(&self) -> bool;

    /// The greatest element.
    spec fn greatest(&self) -> T;

    fn maximum(&self) -> (m: T)
        requires
            self.has_maximum(),
        ensures
            m == self.greatest(),
    ;
}

/// Turns a value with a fixed boundary kind into the same value with the
/// kind as a run-time variant.
pub trait IntoGeneral {
    type General;

    spec fn generalized(self) -> Self::General;

    fn into_general(self) -> (g: Self::General)
        ensures
            g == self.generalized(),
    ;
}

} // verus!
