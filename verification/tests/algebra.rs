use inter_val::BoundType;
use inter_val::Bound;
use inter_val::Error;
use inter_val::Exclusive;
use inter_val::Inclusive;
use inter_val::Interval;
use inter_val::LeftBounded;
use inter_val::Maximum;
use inter_val::Minimum;
use inter_val::NDim;
use inter_val::RightBounded;
use inter_val::Flip;
use ordered_float::NotNan;

fn ho(a: i32, b: i32) -> Interval<i32, Inclusive, Exclusive> {
    Inclusive.at(a).to(Exclusive.at(b)).unwrap()
}

fn general(lk: BoundType, a: i32, rk: BoundType, b: i32) -> Interval<i32> {
    lk.at(a).to(rk.at(b)).unwrap()
}

#[test]
fn contains_half_open() {
    let i = ho(0, 3);
    assert!(i.contains(&0));
    assert!(i.contains(&1));
    assert!(i.contains(&2));
    assert!(!i.contains(&3));
    assert!(!i.contains(&-1));
}

#[test]
fn tie_break_at_construction() {
    assert!(Interval::new(Inclusive.at(3), Exclusive.at(3)).is_err());
    assert!(Interval::new(Exclusive.at(3), Inclusive.at(3)).is_err());
    assert!(Interval::new(Exclusive.at(3), Exclusive.at(3)).is_err());
    assert!(Interval::new(Inclusive.at(3), Exclusive.at(0)).is_err());
    let point = Interval::new(Inclusive.at(3), Inclusive.at(3)).unwrap();
    assert!(point.contains(&3));
    assert!(!point.contains(&2));
    assert!(!point.contains(&4));
}

#[test]
fn intersection_of_overlapping() {
    assert_eq!(ho(0, 3).intersection(ho(1, 4)), Some(ho(1, 3)));
    assert_eq!(ho(0, 3).intersection(ho(0, 3)), Some(ho(0, 3)));
}

#[test]
fn intersection_of_touching_is_none() {
    assert_eq!(ho(0, 3).intersection(ho(3, 5)), None);
    assert!(!ho(0, 3).overlaps(&ho(3, 5)));
    assert!(!ho(3, 5).overlaps(&ho(0, 3)));
}

#[test]
fn overlaps_agrees_with_intersection() {
    let all = [ho(0, 3), ho(1, 4), ho(3, 5), ho(-2, 0), ho(2, 3), ho(0, 1)];
    for a in all.iter() {
        for b in all.iter() {
            assert_eq!(a.overlaps(b), a.intersection(*b).is_some());
        }
    }
}

#[test]
fn intersection_ties_take_the_exclusive_bound() {
    let a = general(BoundType::Inclusive, 0, BoundType::Inclusive, 5);
    let b = general(BoundType::Exclusive, 0, BoundType::Exclusive, 5);
    let c = a.intersection(b).unwrap();
    assert_eq!(c.left().bound_type, BoundType::Exclusive);
    assert_eq!(c.right().bound_type, BoundType::Exclusive);
    let d = b.intersection(a).unwrap();
    assert_eq!(d, c);
    let e = a.enclosure(b);
    assert_eq!(e.left().bound_type, BoundType::Inclusive);
    assert_eq!(e.right().bound_type, BoundType::Inclusive);
}

#[test]
fn includes_by_limits() {
    let a = ho(0, 3);
    let b = ho(0, 4);
    let c = ho(1, 4);
    assert!(a.includes(&a));
    assert!(!a.includes(&b) && b.includes(&a));
    assert!(!a.includes(&c) && !c.includes(&a));
}

#[test]
fn mutual_inclusion_is_equality() {
    let all = [ho(0, 3), ho(0, 4), ho(1, 4), ho(0, 3)];
    for a in all.iter() {
        for b in all.iter() {
            assert_eq!(a.includes(b) && b.includes(a), a == b);
        }
    }
}

#[test]
fn mutual_inclusion_ignores_the_kinds() {
    let a = general(BoundType::Inclusive, 0, BoundType::Inclusive, 3);
    let b = general(BoundType::Exclusive, 0, BoundType::Inclusive, 3);
    assert!(a.includes(&b) && b.includes(&a));
    assert!(a != b);
}

#[test]
fn enclosure_spans_both() {
    assert_eq!(ho(0, 3).enclosure(ho(5, 8)), ho(0, 8));
    assert_eq!(ho(5, 8).enclosure(ho(0, 3)), ho(0, 8));
    assert_eq!(ho(0, 3).enclosure(ho(0, 3)), ho(0, 3));
    assert_eq!(ho(0, 3).union_interval(ho(5, 8)), ho(0, 8));
}

#[test]
fn gap_between_disjoint() {
    assert_eq!(ho(0, 3).gap(ho(5, 8)), Some(ho(3, 5)));
    assert_eq!(ho(5, 8).gap(ho(0, 3)), Some(ho(3, 5)));
}

#[test]
fn gap_of_overlapping_or_touching_is_none() {
    assert_eq!(ho(0, 3).gap(ho(1, 4)), None);
    assert_eq!(ho(0, 3).gap(ho(3, 5)), None);
    assert_eq!(ho(0, 3).gap(ho(0, 3)), None);
}

#[test]
fn gap_is_disjoint_and_encloses() {
    let i = ho(0, 3);
    let j = ho(5, 8);
    let g = i.gap(j).unwrap();
    assert!(!g.overlaps(&i));
    assert!(!g.overlaps(&j));
    assert_eq!(i.enclosure(j), i.enclosure(g).enclosure(j));
    for t in -2..10 {
        assert!(!(g.contains(&t) && (i.contains(&t) || j.contains(&t))));
    }
}

#[test]
fn union_with_a_gap_yields_both() {
    let a = ho(0, 3);
    let b = ho(5, 8);
    let union = a.union(b);
    assert_eq!(union.enclosure, a.enclosure(b));
    assert_eq!(union.gap, a.gap(b));
    let parts: Vec<Interval<_, _, _>> = union.into_iter().collect();
    assert_eq!(parts.len(), 2);
    assert_eq!(parts[0], a);
    assert_eq!(parts[1], b);
}

#[test]
fn union_without_a_gap_yields_the_enclosure() {
    let a = ho(0, 3);
    let b = ho(2, 8);
    let union = a.union(b);
    assert_eq!(union.gap, None);
    let parts = union.into_vec();
    assert_eq!(parts.len(), 1);
    assert_eq!(parts[0], ho(0, 8));
}

#[test]
fn union_pieces_in_order_when_given_in_reverse() {
    let a = ho(5, 8);
    let b = ho(0, 3);
    let parts = a.union(b).into_vec();
    assert_eq!(parts.len(), 2);
    assert_eq!(parts[0], b);
    assert_eq!(parts[1], a);
}

#[test]
fn flip_twice_is_identity() {
    let b = Inclusive.at(3);
    assert_eq!(b.flip().flip(), b);
    assert_eq!(b.flip(), Exclusive.at(3));
    let c = BoundType::Exclusive.at(7);
    assert_eq!(c.flip().flip(), c);
    assert_eq!(c.flip(), BoundType::Inclusive.at(7));
    let h: LeftBounded<i32, Inclusive> = Inclusive.at(3).into();
    let back: LeftBounded<i32, Inclusive> = h.flip().flip();
    assert_eq!(back, h);
    let flipped: RightBounded<i32, Exclusive> = h.flip();
    assert!(flipped.contains(&2));
    assert!(!flipped.contains(&3));
    assert_eq!(BoundType::Inclusive.flip(), BoundType::Exclusive);
    assert_eq!(Inclusive.flip(), Exclusive);
}

#[test]
fn minimum_and_maximum_of_integers() {
    let a = Inclusive.at(4).to(Inclusive.at(7)).unwrap();
    let b = Exclusive.at(4).to(Inclusive.at(7)).unwrap();
    let c = Inclusive.at(4).to(Exclusive.at(7)).unwrap();
    assert_eq!(a.min(), 4);
    assert_eq!(b.min(), 5);
    assert_eq!(a.max(), 7);
    assert_eq!(c.max(), 6);
    assert_eq!(b.minimum(), 5);
    assert_eq!(c.maximum(), 6);
    let d = general(BoundType::Exclusive, 0, BoundType::Exclusive, 10);
    assert_eq!(d.min(), 1);
    assert_eq!(d.max(), 9);
    assert_eq!(d.first(), 1);
    assert_eq!(d.last(), 9);
    assert!(d.contains(&d.min()) && d.contains(&d.max()));
}

#[test]
fn minimum_of_a_float_interval_closed_below() {
    let c = Inclusive.at(1.23).float_to(Inclusive.at(4.56)).unwrap();
    assert_eq!(c.min().into_inner(), 1.23);
    assert_eq!(c.max().into_inner(), 4.56);
}

#[test]
fn empty_integer_interval_has_minimum_above_maximum() {
    let e = Exclusive.at(3).to(Exclusive.at(4)).unwrap();
    assert_eq!(e.min(), 4);
    assert_eq!(e.max(), 3);
    assert!(!e.contains(&e.min()));
    assert_eq!(e.to_vec(), Vec::<i32>::new());
}

#[test]
fn iteration_over_integers() {
    let items: Vec<_> = Exclusive.at(0).to(Inclusive.at(10)).unwrap().into_iter().collect();
    assert_eq!(items.len(), 10);
    assert_eq!(items[0], 1);
    assert_eq!(items.last().unwrap(), &10);
    assert_eq!(items, vec![1, 2, 3, 4, 5, 6, 7, 8, 9, 10]);

    let i = general(BoundType::Exclusive, 0, BoundType::Inclusive, 10);
    assert_eq!(i.min(), 1);
    assert_eq!(i.max(), 10);
    assert_eq!(i.to_vec(), vec![1, 2, 3, 4, 5, 6, 7, 8, 9, 10]);
    let items: Vec<_> = i.into_iter().collect();
    assert_eq!(items.len(), 10);
}

#[test]
fn enclosure_of_items_spans_them() {
    let span = Interval::<i32, Inclusive>::enclosure_of_items(vec![3, 9, 2, 5]).unwrap();
    assert_eq!(span.min(), 2);
    assert_eq!(span.max(), 9);
    assert!(Interval::<i32, Inclusive>::enclosure_of_items(Vec::<i32>::new()).is_none());
    let one = Interval::<i32, Inclusive>::enclosure_of_items(vec![7]).unwrap();
    assert_eq!(one, Inclusive.at(7).to(Inclusive.at(7)).unwrap());
}

#[test]
fn between_uses_the_kinds_of_the_type() {
    let a: Interval<i32, Inclusive, Exclusive> = Interval::between(-2, 5).unwrap();
    assert_eq!(a, ho(-2, 5));
    let b: Result<Interval<i32, Inclusive, Exclusive>, _> = Interval::between(5, 5);
    assert!(b.is_err());
    let c: Interval<i32, Inclusive, Exclusive> = Interval::try_between(-2, 5).unwrap();
    assert_eq!(c, ho(-2, 5));
}

#[test]
fn try_new_reports_each_error() {
    let ok = Interval::<i32, Inclusive, Exclusive>::try_new(Inclusive.at(0), Exclusive.at(3));
    assert_eq!(ok.unwrap(), ho(0, 3));
    let empty = Interval::<i32, Inclusive, Exclusive>::try_new(Inclusive.at(3), Exclusive.at(3));
    assert!(matches!(empty, Err(Error::IntervalIsEmpty(_))));
    let nan = Interval::<NotNan<f64>, Inclusive, Exclusive>::try_new(
        Inclusive.at(f64::NAN),
        Exclusive.at(1.0),
    );
    assert!(matches!(nan, Err(Error::FloatIsNan(_))));
    let nan = Interval::<NotNan<f64>, Inclusive, Exclusive>::float_new(
        Inclusive.at(0.0),
        Exclusive.at(f64::NAN),
    );
    assert!(matches!(nan, Err(Error::FloatIsNan(_))));
    let both = Inclusive.at(f64::NAN).float_to(Exclusive.at(f64::NAN));
    assert!(matches!(both, Err(Error::FloatIsNan(_))));
    let empty = Inclusive.at(2.0).float_to(Exclusive.at(1.0));
    assert!(matches!(empty, Err(Error::IntervalIsEmpty(_))));
    let fine = Inclusive.at(-1.0).float_to(Exclusive.at(1.0)).unwrap();
    assert!(fine.contains(&NotNan::new(-1.0).unwrap()));
    assert!(!fine.contains(&NotNan::new(1.0).unwrap()));
}

#[test]
fn try_from_parts_passes_on_the_first_error() {
    let left: Result<i32, std::convert::Infallible> = Ok(0);
    let right: Result<i32, std::convert::Infallible> = Ok(3);
    let i = Interval::try_from_parts(left, Inclusive, right, Exclusive).unwrap();
    assert_eq!(i, ho(0, 3));
    let bad = NotNan::new(f64::NAN);
    let good = NotNan::new(1.0);
    let r = Interval::try_from_parts(bad, Inclusive, good, Inclusive);
    assert!(matches!(r, Err(Error::FloatIsNan(_))));
    let r = Interval::try_from_parts(good, Inclusive, bad, Inclusive);
    assert!(matches!(r, Err(Error::FloatIsNan(_))));
    let r = Interval::try_from_parts(NotNan::new(2.0), Inclusive, good, Inclusive);
    assert!(matches!(r, Err(Error::IntervalIsEmpty(_))));
}

#[test]
fn float_between_uses_the_kinds_of_the_type() {
    let a: Interval<NotNan<f64>, Inclusive, Exclusive> = Interval::float_between(-1.0, 1.0).unwrap();
    assert!(a.contains(&NotNan::new(-1.0).unwrap()));
    assert!(!a.contains(&NotNan::new(1.0).unwrap()));
    assert_eq!(a, Inclusive.at(-1.0).float_to(Exclusive.at(1.0)).unwrap());
}

#[test]
fn dilate_moves_the_limit_outwards() {
    let l: LeftBounded<i32, Inclusive> = Inclusive.at(3).into();
    assert_eq!(l.dilate(2).limit, 1);
    let r: RightBounded<i32, Exclusive> = Exclusive.at(3).into();
    assert_eq!(r.dilate(2).limit, 5);
    let l: LeftBounded<i32, Inclusive> = Inclusive.at(3).into();
    assert_eq!(l.try_dilate(2).unwrap().limit, 1);
    let r: RightBounded<i32, Exclusive> = Exclusive.at(3).into();
    assert_eq!(r.try_dilate(2).unwrap().limit, 5);
}

#[test]
fn try_dilate_of_floats_reports_nan() {
    let l: LeftBounded<NotNan<f64>, Inclusive> = Inclusive.at(NotNan::new(f64::INFINITY).unwrap()).into();
    assert!(matches!(l.try_dilate(f64::INFINITY), Err(Error::FloatIsNan(_))));
    let l: LeftBounded<NotNan<f64>, Inclusive> = Inclusive.at(NotNan::new(1.5).unwrap()).into();
    assert_eq!(l.try_dilate(0.5).unwrap().limit.into_inner(), 1.0);
    let r: RightBounded<NotNan<f64>, Inclusive> = Inclusive.at(NotNan::new(1.5).unwrap()).into();
    assert_eq!(r.try_dilate(0.5).unwrap().limit.into_inner(), 2.0);
}

#[test]
fn half_bounded_algebra() {
    let a: LeftBounded<i32, BoundType> = BoundType::Inclusive.at(0).into();
    let b: LeftBounded<i32, BoundType> = BoundType::Exclusive.at(0).into();
    assert!(a.includes(&b) && b.includes(&a));
    assert!(a.contains(&0) && !b.contains(&0));
    assert_eq!(a.intersection(b), b);
    assert_eq!(a.union(b), a);
    let c: RightBounded<i32, BoundType> = BoundType::Inclusive.at(0).into();
    let d: RightBounded<i32, BoundType> = BoundType::Exclusive.at(0).into();
    assert!(c.contains(&0) && !d.contains(&0));
    assert_eq!(c.intersection(d), d);
    assert_eq!(c.union(d), c);
    let e: RightBounded<i32, BoundType> = BoundType::Inclusive.at(5).into();
    assert!(e.includes(&c) && !c.includes(&e));
    assert_eq!(e.intersection(c), c);
    assert_eq!(e.union(c), e);
    assert_eq!(c.sup(), 0);
    assert_eq!(a.inf(), 0);
    assert_eq!(a.complement(), d);
    assert_eq!(c.complement(), b);
}

#[test]
fn closure_and_interior() {
    let a = ho(0, 3);
    assert_eq!(a.closure(), Inclusive.at(0).to(Inclusive.at(3)).unwrap());
    assert_eq!(a.interior(), Some(Exclusive.at(0).to(Exclusive.at(3)).unwrap()));
    let point = Inclusive.at(3).to(Inclusive.at(3)).unwrap();
    assert_eq!(point.interior(), None);
    assert_eq!(point.closure(), point);
    assert_eq!(a.inf(), 0);
    assert_eq!(a.sup(), 3);
    assert_eq!(a.measure(), 3);
    assert_eq!(a.lower().limit, 0);
    assert_eq!(a.upper().limit, 3);
    let below: RightBounded<i32, Exclusive> = a.lower_bound();
    assert!(below.contains(&-1) && !below.contains(&0));
    let above: LeftBounded<i32, Inclusive> = a.upper_bound();
    assert!(above.contains(&3) && !above.contains(&2));
}

#[test]
fn widening_to_run_time_kinds() {
    let src: Interval<i32, Inclusive, Exclusive> = ho(0, 10);
    let dst: Interval<i32, BoundType> = src.into();
    assert_eq!(dst.left().bound_type, BoundType::Inclusive);
    assert_eq!(dst.right().bound_type, BoundType::Exclusive);
    assert_eq!(dst.left().limit, 0);
    assert_eq!(dst.right().limit, 10);
    let src: Interval<i32, Exclusive, Inclusive> = Exclusive.at(0).to(Inclusive.at(10)).unwrap();
    let dst: Interval<i32, BoundType> = src.into();
    assert_eq!(dst.left().bound_type, BoundType::Exclusive);
    assert_eq!(dst.right().bound_type, BoundType::Inclusive);
    let src: Interval<i32, Inclusive> = Inclusive.at(0).to(Inclusive.at(10)).unwrap();
    let dst: Interval<i32, BoundType> = src.into();
    assert_eq!(dst.left().bound_type, BoundType::Inclusive);
    assert_eq!(dst.right().bound_type, BoundType::Inclusive);
    let src: Interval<i32, Exclusive> = Exclusive.at(0).to(Exclusive.at(10)).unwrap();
    let dst: Interval<i32, BoundType> = src.into();
    assert_eq!(dst.left().bound_type, BoundType::Exclusive);
    assert_eq!(dst.right().bound_type, BoundType::Exclusive);
    assert_eq!(dst, src.into_general());
    let a: Interval<i32, Inclusive> = 3.into();
    assert_eq!(a.left().limit, 3);
    assert_eq!(a.right().limit, 3);
}

#[test]
fn bounds_from_values() {
    let b: Bound<i32, Inclusive> = 3.into();
    assert_eq!(b, Inclusive.at(3));
    let b: Bound<i32, Exclusive> = 3.into();
    assert_eq!(b, Exclusive.at(3));
    assert_eq!(b.limit, 3);
    assert!(Inclusive.at(3) != Inclusive.at(4));
}

#[test]
fn ranges_that_are_empty_are_refused() {
    let a: Result<Interval<i32, Inclusive, Exclusive>, _> = (3..3).try_into();
    assert!(a.is_err());
    let a: Result<Interval<i32, Inclusive, Inclusive>, _> = (3..=3).try_into();
    assert_eq!(a.unwrap(), Inclusive.at(3).to(Inclusive.at(3)).unwrap());
    let a: Result<Interval<i32, Inclusive, Inclusive>, _> = (4..=3).try_into();
    assert!(a.is_err());
    let a: Interval<i32, Inclusive, Exclusive> = (0..3).try_into().unwrap();
    assert_eq!(a, ho(0, 3));
    let a: Interval<i32, Inclusive, Inclusive> = (0..=3).try_into().unwrap();
    assert_eq!(a.left().limit, 0);
    assert_eq!(a.right().limit, 3);
    assert!(a.contains(&3));
}

#[test]
fn boxes_of_intervals() {
    let b = NDim::<2, _>::new(ho(0, 3), ho(1, 4));
    assert_eq!(b[0], ho(0, 3));
    assert_eq!(b[1], ho(1, 4));
    assert_eq!(*b.get(1), ho(1, 4));
    assert_eq!(b.as_xy().x, &ho(0, 3));
    assert_eq!(b.as_xy().y, &ho(1, 4));
    assert_eq!(b.as_array().len(), 2);
    assert_eq!(b.iter().count(), 2);
    let c: NDim<2, _> = [ho(0, 3), ho(1, 4)].into();
    assert!(b == c);
    let d = NDim::<3, i32>::new(1, 2, 3);
    assert_eq!(*d.as_xyz().z, 3);
    assert_eq!(d.into_array(), [1, 2, 3]);
    let mut e = NDim::<4, i32>::new(1, 2, 3, 4);
    e.as_array_mut()[3] = 9;
    assert_eq!(*e.as_xyzw().w, 9);
    assert!(e != NDim::<4, i32>::new(1, 2, 3, 4));
}
