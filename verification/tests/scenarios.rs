use inter_val::BoundType;
use inter_val::Exclusive;
use inter_val::Inclusive;
use inter_val::Interval;
use inter_val::LeftBounded;
use inter_val::RightBounded;
use ordered_float::NotNan;
use std::any::Any;
use std::any::TypeId;

fn nn(x: f64) -> NotNan<f64> {
    NotNan::new(x).unwrap()
}

fn assert_typeid<T: 'static>(a: &dyn Any) {
    assert_eq!(a.type_id(), TypeId::of::<T>());
}

#[test]
fn core_it_works() {
    let i = Interval::new(Inclusive.at(0), Exclusive.at(3)).unwrap();
    assert!(i.contains(&0));
    assert!(i.contains(&1));
    assert!(i.contains(&2));
    assert!(!i.contains(&3));
    assert!(!i.contains(&-1));
    assert_eq!(2 + 2, 4);
}

#[test]
fn tests_it_works() {
    let i = Inclusive.at(0).to(Exclusive.at(3)).unwrap();
    assert!(i.contains(&0));
    assert!(i.contains(&1));
    assert!(i.contains(&2));
    assert!(!i.contains(&3));
    assert!(!i.contains(&-1));

    let _i = Interval::<NotNan<f64>, Inclusive, Inclusive>::float_new((1.23).into(), (4.56).into());

    let i = Interval::<_, Inclusive>::enclosure_of_items(vec![3, 9, 2, 5]).unwrap();
    assert_eq!(i.left().limit, 2);
    assert_eq!(i.right().limit, 9);
}

#[test]
fn new_interval() {
    let a: Interval<i32, Inclusive, Exclusive> = Interval::new(0.into(), 3.into()).unwrap();
    assert!(a.contains(&0));
    assert!(a.contains(&1));
    assert!(a.contains(&2));
    assert!(!a.contains(&3));
    assert!(!a.contains(&-1));

    let a = Interval::new(BoundType::Exclusive.at(0), BoundType::Exclusive.at(3)).unwrap();
    assert_typeid::<Interval<i32, BoundType>>(&a);
    assert!(!a.contains(&0));
    assert!(a.contains(&1));
    assert!(!a.contains(&3));

    let a = Interval::<_, Exclusive, Inclusive>::float_new(1.23.into(), 4.56.into()).unwrap();
    assert!(!a.contains(&nn(1.23)));
    assert!(a.contains(&nn(1.23000000000001)));
    assert!(a.contains(&nn(4.56)));
}

#[test]
fn bound_to_bound() {
    let a = Inclusive.at(0).to(Exclusive.at(3)).unwrap();
    assert_typeid::<Interval<i32, Inclusive, Exclusive>>(&a);

    let a = Inclusive.at(1.23).float_to(Exclusive.at(4.56)).unwrap();
    assert_typeid::<Interval<NotNan<f64>, Inclusive, Exclusive>>(&a);
}

#[test]
fn range_into_interval() {
    let a: Interval<_, _, _> = (0..3).try_into().unwrap();
    assert_typeid::<Interval<i32, Inclusive, Exclusive>>(&a);

    let a: Interval<_, _, _> = (0..=3).try_into().unwrap();
    assert_typeid::<Interval<i32, Inclusive, Inclusive>>(&a);

    let a: Interval<_, _, _> = (nn(1.23)..nn(4.56)).try_into().unwrap();
    assert_typeid::<Interval<NotNan<f64>, Inclusive, Exclusive>>(&a);

    let a: Interval<_, _, _> = (nn(1.23)..=nn(4.56)).try_into().unwrap();
    assert_typeid::<Interval<NotNan<f64>, Inclusive, Inclusive>>(&a);
}

#[test]
fn ordering() {
    let a: LeftBounded<_, _> = BoundType::Inclusive.at(0).into();
    let b: LeftBounded<_, _> = BoundType::Exclusive.at(0).into();
    assert!(a < b);

    let a: RightBounded<_, _> = BoundType::Inclusive.at(0).into();
    let b: RightBounded<_, _> = BoundType::Exclusive.at(0).into();
    assert!(a > b);
}
