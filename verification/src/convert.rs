//! Conversions of raw values into a scalar domain, and the errors of making
//! an interval.

use ordered_float::FloatIsNan;
use ordered_float::NotNan;
use std::convert::Infallible;
use vstd::prelude::*;
use vstd::std_specs::convert::FromSpecImpl;

verus! {

/// `ordered_float::NotNan`: a float that is known not to be NaN, which
/// makes its order total. Nothing is known here of what a value holds.
#[verifier::external_type_specification]
#[verifier::external_body]
#[verifier::reject_recursive_types(T)]
pub struct ExNotNan<T>(NotNan<T>);

/// `ordered_float::FloatIsNan`: the error of making a `NotNan` from NaN.
#[verifier::external_type_specification]
#[verifier::external_body]
pub struct ExFloatIsNan(FloatIsNan);

/// The conversion of a value into its own type, which the standard library
/// documents as handing the value back.
pub assume_specification<Value>[ <Value as std::convert::From<Value>>::from ](value: Value) -> (out: Value)
    ensures
        out == value,
;

/// The error of making an interval whose bounds leave nothing between them.
#[derive(Debug)]
pub struct IntervalIsEmpty;

/// What can go wrong when an interval is made from raw values.
#[derive(Debug)]
pub enum Error {
    /// Stands for a conversion that cannot fail; there is no such value.
    Infallible(Infallible),
    /// A limit was NaN.
    FloatIsNan(FloatIsNan),
    /// The bounds leave nothing between them.
    IntervalIsEmpty(IntervalIsEmpty),
}

impl From<Infallible> for Error {
    fn from(e: Infallible) -> (r: Self) {
        Error::Infallible(e)
    }
}

impl FromSpecImpl<Infallible> for Error {
    open spec fn obeys_from_spec() -> bool {
        true
    }

    open spec fn from_spec(e: Infallible) -> Self {
        Error::Infallible(e)
    }
}

impl From<FloatIsNan> for Error {
    fn from(e: FloatIsNan) -> (r: Self) {
        Error::FloatIsNan(e)
    }
}

impl FromSpecImpl<FloatIsNan> for Error {
    open spec fn obeys_from_spec() -> bool {
        true
    }

    open spec fn from_spec(e: FloatIsNan) -> Self {
        Error::FloatIsNan(e)
    }
}

impl From<IntervalIsEmpty> for Error {
    fn from(e: IntervalIsEmpty) -> (r: Self) {
        Error::IntervalIsEmpty(e)
    }
}

impl FromSpecImpl<IntervalIsEmpty> for Error {
    open spec fn obeys_from_spec() -> bool {
        true
    }

    open spec fn from_spec(e: IntervalIsEmpty) -> Self {
        Error::IntervalIsEmpty(e)
    }
}

/// A scalar domain whose values are made from raw values of type `T`, which
/// it may refuse.
pub trait OrdFrom<T>: Ord + Sized {
    type Error;

    fn ord_from(t: T) -> (r: Result<Self, Self::Error>);
}

/// Every ordered type is made from its own values, and refuses none.
impl<T: Ord> OrdFrom<T> for T {
    type Error = Infallible;

    fn ord_from(t: T) -> (r: Result<Self, Self::Error>)
        ensures
            r == Ok::<T, Infallible>(t),
    {
        Ok(t)
    }
}

/// A `NotNan` is made from a float by `ordered_float`'s own `TryFrom`, which
/// refuses NaN. What that returns for a given float is not known here; the
/// conversion hands on whatever it returns for `t`.
impl<T> OrdFrom<T> for NotNan<T> where NotNan<T>: Ord + TryFrom<T, Error = FloatIsNan> {
    type Error = FloatIsNan;

    fn ord_from(t: T) -> (r: Result<Self, Self::Error>)
        ensures
            tries_into(t, r),
    {
        NotNan::try_from(t)
    }
}

/// What `NotNan::try_from` may return for `t`.
pub open spec fn tries_into<T>(t: T, r: Result<NotNan<T>, FloatIsNan>) -> bool where
    NotNan<T>: TryFrom<T, Error = FloatIsNan>,
 {
    call_ensures(<NotNan<T> as TryFrom<T>>::try_from, (t,), r)
}

/// What `T::ord_from` may return for `t`.
pub open spec fn converts<T2, T: OrdFrom<T2>>(t: T2, r: Result<T, T::Error>) -> bool {
    call_ensures(T::ord_from, (t,), r)
}

/// What the conversion of `e` into an `Error` may return.
pub open spec fn wraps<E>(e: E, r: Error) -> bool where Error: From<E> {
    call_ensures(Error::from, (e,), r)
}

/// What `a.into()` may return.
pub open spec fn turns_into<A: Into<B>, B>(a: A, b: B) -> bool {
    call_ensures(A::into, (a,), b)
}

} // verus!
