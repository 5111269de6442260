//! Scalar domains whose values are consecutive integers.

use crate::order::le;
use vstd::laws_cmp::obeys_cmp;
use vstd::prelude::*;

verus! {

/// A scalar type that stands for a range of the integers, so that a value
/// has a next and a previous one.
pub trait Discrete: Ord + Copy {
    /// The integer that the value stands for.
    spec fn index(self) -> int;

    /// Whether the type has a value one above `self`.
    spec fn has_successor(self) -> bool;

    /// Whether the type has a value one below `self`.
    spec fn has_predecessor(self) -> bool;

    /// The value one above `self`, where there is one.
    spec fn successor(self) -> Self;

    /// The value one below `self`, where there is one.
    spec fn predecessor(self) -> Self;

    /// The type is ordered as the integers are, no two values stand for the
    /// same integer, and a value below another has a successor, as a value
    /// above another has a predecessor.
    proof fn lemma_discrete(a: Self, b: Self)
        ensures
            obeys_cmp::<Self>(),
            le(a, b) <==> a.index() <= b.index(),
            a.index() == b.index() ==> a == b,
            a.index() < b.index() ==> a.has_successor() && b.has_predecessor(),
            a.has_successor() ==> a.successor().index() == a.index() + 1,
            a.has_predecessor() ==> a.predecessor().index() == a.index() - 1,
    ;

    fn succ(self) -> (r: Self)
        requires
            self.has_successor(),
        ensures
            r == self.successor(),
    ;

    fn pred(self) -> (r: Self)
        requires
            self.has_predecessor(),
        ensures
            r == self.predecessor(),
    ;
}

impl Discrete for i8 {
    open spec fn index(self) -> int {
        self as int
    }

    open spec fn has_successor(self) -> bool {
        self < i8::MAX
    }

    open spec fn has_predecessor(self) -> bool {
        self > i8::MIN
    }

    open spec fn successor(self) -> i8 {
        if self < i8::MAX {
            (self + 1) as i8
        } else {
            self
        }
    }

    open spec fn predecessor(self) -> i8 {
        if self > i8::MIN {
            (self - 1) as i8
        } else {
            self
        }
    }

    proof fn lemma_discrete(a: Self, b: Self) {
        broadcast use vstd::laws_cmp::group_laws_cmp;

    }

    fn succ(self) -> i8 {
        self + 1
    }

    fn pred(self) -> i8 {
        self - 1
    }
}

impl Discrete for i16 {
    open spec fn index(self) -> int {
        self as int
    }

    open spec fn has_successor(self) -> bool {
        self < i16::MAX
    }

    open spec fn has_predecessor(self) -> bool {
        self > i16::MIN
    }

    open spec fn successor(self) -> i16 {
        if self < i16::MAX {
            (self + 1) as i16
        } else {
            self
        }
    }

    open spec fn predecessor(self) -> i16 {
        if self > i16::MIN {
            (self - 1) as i16
        } else {
            self
        }
    }

    proof fn lemma_discrete(a: Self, b: Self) {
        broadcast use vstd::laws_cmp::group_laws_cmp;

    }

    fn succ(self) -> i16 {
        self + 1
    }

    fn pred(self) -> i16 {
        self - 1
    }
}

impl Discrete for i32 {
    open spec fn index(self) -> int {
        self as int
    }

    open spec fn has_successor(self) -> bool {
        self < i32::MAX
    }

    open spec fn has_predecessor(self) -> bool {
        self > i32::MIN
    }

    open spec fn successor(self) -> i32 {
        if self < i32::MAX {
            (self + 1) as i32
        } else {
            self
        }
    }

    open spec fn predecessor(self) -> i32 {
        if self > i32::MIN {
            (self - 1) as i32
        } else {
            self
        }
    }

    proof fn lemma_discrete(a: Self, b: Self) {
        broadcast use vstd::laws_cmp::group_laws_cmp;

    }

    fn succ(self) -> i32 {
        self + 1
    }

    fn pred(self) -> i32 {
        self - 1
    }
}

impl Discrete for i64 {
    open spec fn index(self) -> int {
        self as int
    }

    open spec fn has_successor(self) -> bool {
        self < i64::MAX
    }

    open spec fn has_predecessor(self) -> bool {
        self > i64::MIN
    }

    open spec fn successor(self) -> i64 {
        if self < i64::MAX {
            (self + 1) as i64
        } else {
            self
        }
    }

    open spec fn predecessor(self) -> i64 {
        if self > i64::MIN {
            (self - 1) as i64
        } else {
            self
        }
    }

    proof fn lemma_discrete(a: Self, b: Self) {
        broadcast use vstd::laws_cmp::group_laws_cmp;

    }

    fn succ(self) -> i64 {
        self + 1
    }

    fn pred(self) -> i64 {
        self - 1
    }
}

impl Discrete for i128 {
    open spec fn index(self) -> int {
        self as int
    }

    open spec fn has_successor(self) -> bool {
        self < i128::MAX
    }

    open spec fn has_predecessor(self) -> bool {
        self > i128::MIN
    }

    open spec fn successor(self) -> i128 {
        if self < i128::MAX {
            (self + 1) as i128
        } else {
            self
        }
    }

    open spec fn predecessor(self) -> i128 {
        if self > i128::MIN {
            (self - 1) as i128
        } else {
            self
        }
    }

    proof fn lemma_discrete(a: Self, b: Self) {
        broadcast use vstd::laws_cmp::group_laws_cmp;

    }

    fn succ(self) -> i128 {
        self + 1
    }

    fn pred(self) -> i128 {
        self - 1
    }
}

impl Discrete for isize {
    open spec fn index(self) -> int {
        self as int
    }

    open spec fn has_successor(self) -> bool {
        self < isize::MAX
    }

    open spec fn has_predecessor(self) -> bool {
        self > isize::MIN
    }

    open spec fn successor(self) -> isize {
        if self < isize::MAX {
            (self + 1) as isize
        } else {
            self
        }
    }

    open spec fn predecessor(self) -> isize {
        if self > isize::MIN {
            (self - 1) as isize
        } else {
            self
        }
    }

    proof fn lemma_discrete(a: Self, b: Self) {
        broadcast use vstd::laws_cmp::group_laws_cmp;

    }

    fn succ(self) -> isize {
        self + 1
    }

    fn pred(self) -> isize {
        self - 1
    }
}

impl Discrete for u8 {
    open spec fn index(self) -> int {
        self as int
    }

    open spec fn has_successor(self) -> bool {
        self < u8::MAX
    }

    open spec fn has_predecessor(self) -> bool {
        self > u8::MIN
    }

    open spec fn successor(self) -> u8 {
        if self < u8::MAX {
            (self + 1) as u8
        } else {
            self
        }
    }

    open spec fn predecessor(self) -> u8 {
        if self > u8::MIN {
            (self - 1) as u8
        } else {
            self
        }
    }

    proof fn lemma_discrete(a: Self, b: Self) {
        broadcast use vstd::laws_cmp::group_laws_cmp;

    }

    fn succ(self) -> u8 {
        self + 1
    }

    fn pred(self) -> u8 {
        self - 1
    }
}

impl Discrete for u16 {
    open spec fn index(self) -> int {
        self as int
    }

    open spec fn has_successor(self) -> bool {
        self < u16::MAX
    }

    open spec fn has_predecessor(self) -> bool {
        self > u16::MIN
    }

    open spec fn successor(self) -> u16 {
        if self < u16::MAX {
            (self + 1) as u16
        } else {
            self
        }
    }

    open spec fn predecessor(self) -> u16 {
        if self > u16::MIN {
            (self - 1) as u16
        } else {
            self
        }
    }

    proof fn lemma_discrete(a: Self, b: Self) {
        broadcast use vstd::laws_cmp::group_laws_cmp;

    }

    fn succ(self) -> u16 {
        self + 1
    }

    fn pred(self) -> u16 {
        self - 1
    }
}

impl Discrete for u32 {
    open spec fn index(self) -> int {
        self as int
    }

    open spec fn has_successor(self) -> bool {
        self < u32::MAX
    }

    open spec fn has_predecessor(self) -> bool {
        self > u32::MIN
    }

    open spec fn successor(self) -> u32 {
        if self < u32::MAX {
            (self + 1) as u32
        } else {
            self
        }
    }

    open spec fn predecessor(self) -> u32 {
        if self > u32::MIN {
            (self - 1) as u32
        } else {
            self
        }
    }

    proof fn lemma_discrete(a: Self, b: Self) {
        broadcast use vstd::laws_cmp::group_laws_cmp;

    }

    fn succ(self) -> u32 {
        self + 1
    }

    fn pred(self) -> u32 {
        self - 1
    }
}

impl Discrete for u64 {
    open spec fn index(self) -> int {
        self as int
    }

    open spec fn has_successor(self) -> bool {
        self < u64::MAX
    }

    open spec fn has_predecessor(self) -> bool {
        self > u64::MIN
    }

    open spec fn successor(self) -> u64 {
        if self < u64::MAX {
            (self + 1) as u64
        } else {
            self
        }
    }

    open spec fn predecessor(self) -> u64 {
        if self > u64::MIN {
            (self - 1) as u64
        } else {
            self
        }
    }

    proof fn lemma_discrete(a: Self, b: Self) {
        broadcast use vstd::laws_cmp::group_laws_cmp;

    }

    fn succ(self) -> u64 {
        self + 1
    }

    fn pred(self) -> u64 {
        self - 1
    }
}

impl Discrete for u128 {
    open spec fn index(self) -> int {
        self as int
    }

    open spec fn has_successor(self) -> bool {
        self < u128::MAX
    }

    open spec fn has_predecessor(self) -> bool {
        self > u128::MIN
    }

    open spec fn successor(self) -> u128 {
        if self < u128::MAX {
            (self + 1) as u128
        } else {
            self
        }
    }

    open spec fn predecessor(self) -> u128 {
        if self > u128::MIN {
            (self - 1) as u128
        } else {
            self
        }
    }

    proof fn lemma_discrete(a: Self, b: Self) {
        broadcast use vstd::laws_cmp::group_laws_cmp;

    }

    fn succ(self) -> u128 {
        self + 1
    }

    fn pred(self) -> u128 {
        self - 1
    }
}

impl Discrete for usize {
    open spec fn index(self) -> int {
        self as int
    }

    open spec fn has_successor(self) -> bool {
        self < usize::MAX
    }

    open spec fn has_predecessor(self) -> bool {
        self > usize::MIN
    }

    open spec fn successor(self) -> usize {
        if self < usize::MAX {
            (self + 1) as usize
        } else {
            self
        }
    }

    open spec fn predecessor(self) -> usize {
        if self > usize::MIN {
            (self - 1) as usize
        } else {
            self
        }
    }

    proof fn lemma_discrete(a: Self, b: Self) {
        broadcast use vstd::laws_cmp::group_laws_cmp;

    }

    fn succ(self) -> usize {
        self + 1
    }

    fn pred(self) -> usize {
        self - 1
    }
}

} // verus!
