//! The order on a scalar domain, as the contracts of this crate speak of it.
//!
//! Every scalar type `T` is compared through `Ord`. What a comparison returns
//! is known only for types whose `Ord` is lawful, which `obeys_cmp::<T>()`
//! says; the integer types are.

use std::cmp::Ordering;
use vstd::laws_cmp::obeys_cmp;
use vstd::laws_cmp::obeys_cmp_ord;
use vstd::laws_cmp::obeys_cmp_partial_ord;
use vstd::laws_cmp::obeys_partial_cmp_spec_properties;
use vstd::laws_eq::obeys_eq_spec_properties;
use vstd::prelude::*;
use vstd::std_specs::cmp::OrdSpec;
use vstd::std_specs::cmp::PartialEqSpec;
use vstd::std_specs::cmp::PartialOrdSpec;

verus! {

/// `a` is at most `b`.
pub open spec fn le<T: Ord>(a: T, b: T) -> bool {
    a.partial_cmp_spec(&b) == Some(Ordering::Less) || a.partial_cmp_spec(&b) == Some(
        Ordering::Equal,
    )
}

/// `a` is strictly below `b`.
pub open spec fn lt<T: Ord>(a: T, b: T) -> bool {
    a.partial_cmp_spec(&b) == Some(Ordering::Less)
}

/// `a` is strictly above `b`.
pub open spec fn gt<T: Ord>(a: T, b: T) -> bool {
    a.partial_cmp_spec(&b) == Some(Ordering::Greater)
}

/// `a` and `b` stand at the same place in the order.
pub open spec fn same<T: Ord>(a: T, b: T) -> bool {
    a.partial_cmp_spec(&b) == Some(Ordering::Equal)
}

/// The comparisons of a lawful `Ord` form a total order: every pair is
/// related exactly one way, and the relation is transitive.
pub proof fn lemma_total_order<T: Ord>()
    requires
        obeys_cmp::<T>(),
    ensures
        T::obeys_eq_spec(),
        T::obeys_partial_cmp_spec(),
        T::obeys_cmp_spec(),
        forall|a: T, b: T| #[trigger] a.partial_cmp_spec(&b) == Some(a.cmp_spec(&b)),
        forall|a: T, b: T| #[trigger] a.eq_spec(&b) <==> same(a, b),
        forall|a: T| #[trigger] same(a, a),
        forall|a: T, b: T| #[trigger] lt(a, b) <==> !le(b, a),
        forall|a: T, b: T| #[trigger] gt(a, b) <==> lt(b, a),
        forall|a: T, b: T| #[trigger] le(a, b) <==> lt(a, b) || same(a, b),
        forall|a: T, b: T| #[trigger] same(a, b) <==> le(a, b) && le(b, a),
        forall|a: T, b: T, c: T| #[trigger] le(a, b) && #[trigger] le(b, c) ==> le(a, c),
{
    reveal(obeys_eq_spec_properties);
    reveal(obeys_partial_cmp_spec_properties);
    reveal(obeys_cmp_partial_ord);
    reveal(obeys_cmp_ord);
    assert forall|a: T, b: T| #[trigger] lt(a, b) <==> !le(b, a) by {
        let _ = b.cmp_spec(&a);
        let _ = a.cmp_spec(&b);
    }
    assert forall|a: T| #[trigger] same(a, a) by {
        let _ = a.cmp_spec(&a);
        assert(lt(a, a) <==> !le(a, a));
    }
    assert forall|a: T, b: T| #[trigger] same(a, b) <==> le(a, b) && le(b, a) by {
        let _ = b.cmp_spec(&a);
        let _ = a.cmp_spec(&b);
        assert(lt(a, b) <==> !le(b, a));
        assert(lt(b, a) <==> !le(a, b));
        assert(a.eq_spec(&b) <==> b.eq_spec(&a));
    }
    assert forall|a: T, b: T, c: T| #[trigger] le(a, b) && #[trigger] le(b, c) implies le(
        a,
        c,
    ) by {
        lemma_le_transitive(a, b, c);
    }
}

proof fn lemma_le_transitive<T: Ord>(a: T, b: T, c: T)
    requires
        obeys_cmp::<T>(),
        le(a, b),
        le(b, c),
    ensures
        le(a, c),
{
    reveal(obeys_eq_spec_properties);
    reveal(obeys_partial_cmp_spec_properties);
    reveal(obeys_cmp_partial_ord);
    reveal(obeys_cmp_ord);
    let ab = a.cmp_spec(&b);
    let bc = b.cmp_spec(&c);
    let ac = a.cmp_spec(&c);
    let ca = c.cmp_spec(&a);
    let cb = c.cmp_spec(&b);
    let ba = b.cmp_spec(&a);
    assert(a.partial_cmp_spec(&b) == Some(ab));
    assert(b.partial_cmp_spec(&c) == Some(bc));
    assert(a.partial_cmp_spec(&c) == Some(ac));
    assert(c.partial_cmp_spec(&a) == Some(ca));
    assert(c.partial_cmp_spec(&b) == Some(cb));
    assert(b.partial_cmp_spec(&a) == Some(ba));
    assert(a.eq_spec(&b) <==> b.eq_spec(&a));
    assert(b.eq_spec(&c) <==> c.eq_spec(&b));
    assert(a.eq_spec(&c) <==> c.eq_spec(&a));
}

} // verus!
