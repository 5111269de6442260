//! A fixed number of values of one type, one for each axis.

use vstd::prelude::*;
use vstd::std_specs::cmp::PartialEqSpec;
use vstd::std_specs::iter::IteratorSpec;

verus! {

/// `N` values of the same type, in the order of the axes.
#[derive(Debug)]
pub struct NDim<const N: usize, T>(pub [T; N]);

/// The two values of an `NDim<2, T>` by the names of their axes.
#[derive(Debug)]
pub struct Xy<T> {
    pub x: T,
    pub y: T,
}

/// The three values of an `NDim<3, T>` by the names of their axes.
#[derive(Debug)]
pub struct Xyz<T> {
    pub x: T,
    pub y: T,
    pub z: T,
}

/// The four values of an `NDim<4, T>` by the names of their axes.
#[derive(Debug)]
pub struct Xyzw<T> {
    pub x: T,
    pub y: T,
    pub z: T,
    pub w: T,
}

impl<const N: usize, T> NDim<N, T> {
    /// The values in the order of the axes.
    pub fn as_array(&self) -> (r: &[T; N])
        ensures
            *r == self.0,
    {
        &self.0
    }

    /// The values in the order of the axes, given up by the box.
    pub fn into_array(self) -> (r: [T; N])
        ensures
            r == self.0,
    {
        self.0
    }

    /// The values in the order of the axes, open to change.
    pub fn as_array_mut(&mut self) -> (r: &mut [T; N])
        ensures
            *r == old(self).0,
            final(self).0 == *final(r),
    {
        &mut self.0
    }

    /// The values one after the other, in the order of the axes.
    pub fn iter(&self) -> (r: std::slice::Iter<'_, T>)
        ensures
            r.remaining() == self.0@.as_ref(),
    {
        self.0.iter()
    }

    /// The value on axis `index`.
    pub fn get(&self, index: usize) -> (r: &T)
        requires
            index < N,
        ensures
            *r == self.0@[index as int],
    {
        &self.0[index]
    }
}

impl<T> NDim<2, T> {
    pub fn new(x: T, y: T) -> (r: Self)
        ensures
            r.0@ == seq![x, y],
    {
        Self([x, y])
    }
}

impl<T> NDim<3, T> {
    pub fn new(x: T, y: T, z: T) -> (r: Self)
        ensures
            r.0@ == seq![x, y, z],
    {
        Self([x, y, z])
    }
}

impl<T> NDim<4, T> {
    pub fn new(x: T, y: T, z: T, w: T) -> (r: Self)
        ensures
            r.0@ == seq![x, y, z, w],
    {
        Self([x, y, z, w])
    }
}

impl<T> NDim<2, T> {
    /// The two values by the names of their axes.
    pub fn as_xy(&self) -> (r: Xy<&T>)
        ensures
            *r.x == self.0@[0],
            *r.y == self.0@[1],
    {
        Xy { x: &self.0[0], y: &self.0[1] }
    }
}

impl<T> NDim<3, T> {
    /// The three values by the names of their axes.
    pub fn as_xyz(&self) -> (r: Xyz<&T>)
        ensures
            *r.x == self.0@[0],
            *r.y == self.0@[1],
            *r.z == self.0@[2],
    {
        Xyz { x: &self.0[0], y: &self.0[1], z: &self.0[2] }
    }
}

impl<T> NDim<4, T> {
    /// The four values by the names of their axes.
    pub fn as_xyzw(&self) -> (r: Xyzw<&T>)
        ensures
            *r.x == self.0@[0],
            *r.y == self.0@[1],
            *r.z == self.0@[2],
            *r.w == self.0@[3],
    {
        Xyzw { x: &self.0[0], y: &self.0[1], z: &self.0[2], w: &self.0[3] }
    }
}

impl<const N: usize, T> std::ops::Index<usize> for NDim<N, T> {
    type Output = T;

    /// The value on axis `index`, which must be one of the `N` axes.
    fn index(&self, index: usize) -> (r: &T)
        ensures
            *r == self.0@[index as int],
    {
        &self.0[index]
    }
}

impl<const N: usize, T> vstd::std_specs::core::IndexSpecImpl<usize> for NDim<N, T> {
    open spec fn index_req(&self, index: &usize) -> bool {
        *index < N
    }
}

impl<const N: usize, T> From<[T; N]> for NDim<N, T> {
    fn from(array: [T; N]) -> (r: Self) {
        Self(array)
    }
}

impl<const N: usize, T> vstd::std_specs::convert::FromSpecImpl<[T; N]> for NDim<N, T> {
    open spec fn obeys_from_spec() -> bool {
        true
    }

    open spec fn from_spec(array: [T; N]) -> Self {
        NDim(array)
    }
}

impl<const N: usize, T: PartialEq> PartialEq for NDim<N, T> {
    fn eq(&self, other: &Self) -> (r: bool) {
        let mut i: usize = 0;
        while i < N
            invariant
                i <= N,
                T::obeys_eq_spec() ==> forall|k: int| 0 <= k < i ==> (#[trigger] self.0@[k]).eq_spec(&other.0@[k]),
            decreases N - i,
        {
            if !(self.0[i] == other.0[i]) {
                return false;
            }
            i += 1;
        }
        true
    }
}

impl<const N: usize, T: PartialEq> vstd::std_specs::cmp::PartialEqSpecImpl for NDim<N, T> {
    open spec fn obeys_eq_spec() -> bool {
        T::obeys_eq_spec()
    }

    open spec fn eq_spec(&self, other: &Self) -> bool {
        forall|k: int| 0 <= k < N ==> (#[trigger] self.0@[k]).eq_spec(&other.0@[k])
    }
}

} // verus!
