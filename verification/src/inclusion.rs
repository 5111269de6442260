//! Boundary kinds and side markers.

use crate::traits::Boundary;
use crate::traits::BoundaryOf;
use crate::traits::Flip;
use crate::traits::IntoGeneral;
use crate::traits::Side;
use crate::traits::Tag;
use std::cmp::Ordering;
use std::marker::PhantomData;
use vstd::laws_cmp::obeys_cmp_partial_ord;
use vstd::prelude::*;

verus! {

/// The kind of a bound that includes its limit.
#[derive(Debug, Clone, Copy, Eq, PartialOrd, Ord, Default)]
pub struct Inclusive;

/// The kind of a bound that excludes its limit.
#[derive(Debug, Clone, Copy, Eq, PartialOrd, Ord, Default)]
pub struct Exclusive;

/// A boundary kind chosen at run time.
#[derive(Debug, Clone, Copy, Eq, PartialOrd, Ord)]
pub enum BoundType {
    Inclusive,
    Exclusive,
}

/// The other name of [`BoundType`].
pub type Bounding = BoundType;

/// Marks the left (lower) side of an interval.
#[derive(Debug, Clone, Copy)]
pub struct Left;

/// Marks the right (upper) side of an interval.
#[derive(Debug, Clone, Copy)]
pub struct Right;

impl PartialEq for Inclusive {
    fn eq(&self, other: &Self) -> (r: bool) {
        true
    }
}

impl vstd::std_specs::cmp::PartialEqSpecImpl for Inclusive {
    open spec fn obeys_eq_spec() -> bool {
        true
    }

    open spec fn eq_spec(&self, other: &Self) -> bool {
        true
    }
}

impl PartialEq for Exclusive {
    fn eq(&self, other: &Self) -> (r: bool) {
        true
    }
}

impl vstd::std_specs::cmp::PartialEqSpecImpl for Exclusive {
    open spec fn obeys_eq_spec() -> bool {
        true
    }

    open spec fn eq_spec(&self, other: &Self) -> bool {
        true
    }
}

impl PartialEq for BoundType {
    fn eq(&self, other: &Self) -> (r: bool) {
        match (self, other) {
            (BoundType::Inclusive, BoundType::Inclusive) => true,
            (BoundType::Exclusive, BoundType::Exclusive) => true,
            _ => false,
        }
    }
}

impl vstd::std_specs::cmp::PartialEqSpecImpl for BoundType {
    open spec fn obeys_eq_spec() -> bool {
        true
    }

    open spec fn eq_spec(&self, other: &Self) -> bool {
        *self == *other
    }
}

impl Tag for Inclusive {
    open spec fn polarity(self) -> bool {
        true
    }

    proof fn lemma_polarity_decides(a: Self, b: Self) {
    }
}

impl Tag for Exclusive {
    open spec fn polarity(self) -> bool {
        false
    }

    proof fn lemma_polarity_decides(a: Self, b: Self) {
    }
}

impl Tag for BoundType {
    open spec fn polarity(self) -> bool {
        self is Inclusive
    }

    proof fn lemma_polarity_decides(a: Self, b: Self) {
    }
}

impl Tag for Left {
    open spec fn polarity(self) -> bool {
        true
    }

    proof fn lemma_polarity_decides(a: Self, b: Self) {
    }
}

impl Tag for Right {
    open spec fn polarity(self) -> bool {
        false
    }

    proof fn lemma_polarity_decides(a: Self, b: Self) {
    }
}

impl Flip for Inclusive {
    type Flip = Exclusive;

    open spec fn flipped(self) -> Exclusive {
        Exclusive
    }

    proof fn lemma_flipped(self) {
        assert(!Exclusive.polarity());
        assert(self.polarity());
    }

    fn flip(self) -> Exclusive {
        Exclusive
    }
}

impl Flip for Exclusive {
    type Flip = Inclusive;

    open spec fn flipped(self) -> Inclusive {
        Inclusive
    }

    proof fn lemma_flipped(self) {
        assert(Inclusive.polarity());
        assert(!self.polarity());
    }

    fn flip(self) -> Inclusive {
        Inclusive
    }
}

impl Flip for BoundType {
    type Flip = Self;

    open spec fn flipped(self) -> Self {
        match self {
            Self::Inclusive => Self::Exclusive,
            Self::Exclusive => Self::Inclusive,
        }
    }

    proof fn lemma_flipped(self) {
    }

    fn flip(self) -> Self {
        match self {
            Self::Inclusive => Self::Exclusive,
            Self::Exclusive => Self::Inclusive,
        }
    }
}

impl Flip for Left {
    type Flip = Right;

    open spec fn flipped(self) -> Right {
        Right
    }

    proof fn lemma_flipped(self) {
        assert(!Right.polarity());
        assert(self.polarity());
    }

    fn flip(self) -> Right {
        Right
    }
}

impl Flip for Right {
    type Flip = Left;

    open spec fn flipped(self) -> Left {
        Left
    }

    proof fn lemma_flipped(self) {
        assert(Left.polarity());
        assert(!self.polarity());
    }

    fn flip(self) -> Left {
        Left
    }
}

impl Side for Left {
    open spec fn is_left() -> bool {
        true
    }

    proof fn lemma_side(s: Self) {
    }

    fn left() -> bool {
        true
    }
}

impl Side for Right {
    open spec fn is_left() -> bool {
        false
    }

    proof fn lemma_side(s: Self) {
    }

    fn left() -> bool {
        false
    }
}

impl Boundary for Inclusive {
    fn inclusive(&self) -> bool {
        true
    }

    fn less<T: Ord>(&self, this: &T, t: &T) -> bool {
        proof {
            reveal(obeys_cmp_partial_ord);
        }
        *this <= *t
    }
}

impl Boundary for Exclusive {
    fn inclusive(&self) -> bool {
        false
    }

    fn less<T: Ord>(&self, this: &T, t: &T) -> bool {
        proof {
            reveal(obeys_cmp_partial_ord);
        }
        *this < *t
    }
}

impl Boundary for BoundType {
    fn inclusive(&self) -> bool {
        match self {
            BoundType::Inclusive => true,
            BoundType::Exclusive => false,
        }
    }

    fn less<T: Ord>(&self, s: &T, t: &T) -> bool {
        proof {
            reveal(obeys_cmp_partial_ord);
        }
        match self {
            BoundType::Inclusive => *s <= *t,
            BoundType::Exclusive => *s < *t,
        }
    }
}

/// A boundary kind together with the side it is used on: the key by which
/// bounds that share a limit are ordered.
#[derive(Debug)]
pub struct SideInclusion<B, S>(B, PhantomData<S>);

impl<B: Copy, S> Clone for SideInclusion<B, S> {
    fn clone(&self) -> (r: Self)
        ensures
            r == *self,
    {
        SideInclusion(self.0, PhantomData)
    }
}

impl<B: Copy, S> Copy for SideInclusion<B, S> {

}

/// The place of a bound among the bounds of one side that share its limit.
///
/// On the left an inclusive bound reaches further down than an exclusive
/// one, so it comes first; on the right an exclusive bound stops earlier
/// than an inclusive one, so it comes first.
pub open spec fn tie_rank(is_left: bool, inclusive: bool) -> int {
    if is_left == inclusive {
        0
    } else {
        1
    }
}

impl<B, S> SideInclusion<B, S> {
    /// The boundary kind that the key was made of.
    pub closed spec fn kind(self) -> B {
        self.0
    }
}

impl<B: Boundary, S: Side> SideInclusion<B, S> {
    /// The place of the key among the keys of its side.
    pub open spec fn rank(self) -> int {
        tie_rank(S::is_left(), self.kind().polarity())
    }

    fn rank_of(&self) -> (r: u8)
        ensures
            r == self.rank(),
    {
        if S::left() == self.0.inclusive() {
            0
        } else {
            1
        }
    }
}

impl<B: Boundary, S: Side> PartialEq for SideInclusion<B, S> {
    fn eq(&self, other: &Self) -> (r: bool) {
        self.0.inclusive() == other.0.inclusive()
    }
}

impl<B: Boundary, S: Side> vstd::std_specs::cmp::PartialEqSpecImpl for SideInclusion<B, S> {
    open spec fn obeys_eq_spec() -> bool {
        true
    }

    open spec fn eq_spec(&self, other: &Self) -> bool {
        self.kind().polarity() == other.kind().polarity()
    }
}

impl<B: Boundary, S: Side> PartialOrd for SideInclusion<B, S> {
    fn partial_cmp(&self, other: &Self) -> (r: Option<Ordering>) {
        let a = self.rank_of();
        let b = other.rank_of();
        if a < b {
            Some(Ordering::Less)
        } else if a == b {
            Some(Ordering::Equal)
        } else {
            Some(Ordering::Greater)
        }
    }
}

impl<B: Boundary, S: Side> vstd::std_specs::cmp::PartialOrdSpecImpl for SideInclusion<B, S> {
    open spec fn obeys_partial_cmp_spec() -> bool {
        true
    }

    open spec fn partial_cmp_spec(&self, other: &Self) -> Option<Ordering> {
        if self.rank() < other.rank() {
            Some(Ordering::Less)
        } else if self.rank() == other.rank() {
            Some(Ordering::Equal)
        } else {
            Some(Ordering::Greater)
        }
    }
}

impl<LR: Side> BoundaryOf<LR> for Inclusive {
    fn into_ordered(self) -> SideInclusion<Self, LR> {
        SideInclusion(self, PhantomData)
    }
}

impl<LR: Side> BoundaryOf<LR> for Exclusive {
    fn into_ordered(self) -> SideInclusion<Self, LR> {
        SideInclusion(self, PhantomData)
    }
}

impl<LR: Side> BoundaryOf<LR> for BoundType {
    fn into_ordered(self) -> SideInclusion<Self, LR> {
        SideInclusion(self, PhantomData)
    }
}

impl IntoGeneral for Inclusive {
    type General = BoundType;

    open spec fn generalized(self) -> BoundType {
        BoundType::Inclusive
    }

    fn into_general(self) -> BoundType {
        BoundType::Inclusive
    }
}

impl IntoGeneral for Exclusive {
    type General = BoundType;

    open spec fn generalized(self) -> BoundType {
        BoundType::Exclusive
    }

    fn into_general(self) -> BoundType {
        BoundType::Exclusive
    }
}

} // verus!
