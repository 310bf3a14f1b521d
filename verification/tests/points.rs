use noframe::base::BaseVectorPoint;
use noframe::convert::{AsPoint, AsVector};
use noframe::fixed::Fixed;
use noframe::invert::Invert;
use noframe::point::Point;
use noframe::size::Size;
use noframe::vector::Vector;

fn u(n: i64) -> Fixed {
    Fixed::from_units(n)
}

#[test]
fn set_position() {
    let mut point = Point::new(u(0), u(0));
    let point_new = Point::new(u(10), u(20));
    point.set(&point_new);
    assert_eq!(point, point_new);
}

#[test]
fn add_position() {
    let mut point = Point::new(u(10), u(20));
    let point_add = Point::new(u(5), u(15));
    point.add(&point_add);
    assert_eq!(point.as_tup(), (u(15), u(35)));
}

#[test]
fn combine_multiple_points() {
    let points = vec![
        Point::new(u(5), u(10)),
        Point::new(u(15), u(7)),
        Point::new(u(42), u(24)),
        Point::new(u(-21), u(-22)),
    ];
    let point = Point::combine(points.iter().map(|p| p).collect());
    assert_eq!(point.as_tup(), (u(41), u(19)));
}

#[test]
fn combine_does_not_depend_on_the_order() {
    let a = Point::new(u(5), u(10));
    let b = Point::new(u(15), u(7));
    let c = Point::new(u(42), u(24));
    let fwd = Point::combine(vec![&a, &b, &c]);
    let rev = Point::combine(vec![&c, &a, &b]);
    assert_eq!(fwd, rev);
    assert_eq!(fwd, Point::new(u(62), u(41)));
}

#[test]
fn invert_vector() {
    let mut vector = Vector::new(u(10), u(20));
    vector.invert();
    assert_eq!(Vector::new(u(-10), u(-20)), vector);
}

#[test]
fn inverted_vector() {
    let vector = Vector::new(u(10), u(20));
    assert_eq!(Vector::new(u(-10), u(-20)), vector.inverted());
}

#[test]
fn invert_point() {
    let mut point = Point::new(u(10), u(20));
    point.invert();
    assert_eq!(Point::new(u(-10), u(-20)), point);
}

#[test]
fn inverted_point() {
    let point = Point::new(u(10), u(20));
    assert_eq!(Point::new(u(-10), u(-20)), point.inverted());
}

#[test]
fn inverting_twice_is_the_identity() {
    let vector = Vector::new(u(10), u(-20));
    assert_eq!(vector, vector.inverted().inverted());
    let point = Point::new(u(-3), u(7));
    assert_eq!(point, point.inverted().inverted());
}

#[test]
fn vector_to_point() {
    let vector = Vector::new(u(10), u(20));
    assert_eq!(Point::new(u(10), u(20)), vector.as_point());
}

#[test]
fn point_to_vector() {
    let point = Point::new(u(10), u(20));
    assert_eq!(Vector::new(u(10), u(20)), point.as_vector());
}

#[test]
fn component_access_matches_the_fields() {
    let mut vector = Vector::new(u(1), u(2));
    assert_eq!(vector.x(), u(1));
    assert_eq!(vector.y(), u(2));
    *vector.x_mut() = u(9);
    assert_eq!(vector, Vector::new(u(9), u(2)));
}

#[test]
fn center_of_size() {
    let size = Size::new(u(20), u(10));
    assert_eq!(size.center(), Vector::new(u(10), u(5)));
}

#[test]
fn mult_axes_scales_both_components() {
    let point = Point::new(u(3), u(-4));
    assert_eq!(point.mult_axes_by(u(2)), Point::new(u(6), u(-8)));
    let half = Fixed::from_raw(500);
    assert_eq!(
        point.mult_axes_by(half),
        Point::new(Fixed::from_raw(1500), u(-2))
    );
}

#[test]
fn round_goes_to_the_nearest_unit_ties_away_from_zero() {
    let mut p = Point::new(Fixed::from_raw(2500), Fixed::from_raw(-2500));
    p.round();
    assert_eq!(p, Point::new(u(3), u(-3)));
    let mut q = Point::new(Fixed::from_raw(2499), Fixed::from_raw(-1400));
    q.round();
    assert_eq!(q, Point::new(u(2), u(-1)));
}

#[test]
fn point_arithmetic_works_component_wise() {
    let a = Point::new(u(10), u(20));
    let b = Point::new(u(4), u(-5));
    assert_eq!(a.plus(&b), Point::new(u(14), u(15)));
    assert_eq!(a.sub(&b), Point::new(u(6), u(25)));
    assert_eq!(a.mul(&b), Point::new(u(40), u(-100)));
    assert_eq!(a.div(&b), Point::new(Fixed::from_raw(2500), u(-4)));
}

#[test]
fn size_from_a_pair() {
    let size = Size::from((u(20), u(10)));
    assert_eq!(size, Size::new(u(20), u(10)));
}

#[test]
fn fixed_division_truncates_towards_zero() {
    assert_eq!(u(7).divided_by(u(2)), Fixed::from_raw(3500));
    assert_eq!(u(-7).divided_by(u(2)), Fixed::from_raw(-3500));
    assert_eq!(u(1).divided_by(u(3)), Fixed::from_raw(333));
    assert_eq!(u(-1).divided_by(u(3)), Fixed::from_raw(-333));
}

#[test]
fn fixed_arithmetic_is_exact_in_thousandths() {
    assert_eq!(u(2).plus(Fixed::from_raw(500)), Fixed::from_raw(2500));
    assert_eq!(u(1).minus(u(3)), u(-2));
    assert_eq!(u(-7).negated(), u(7));
    assert_eq!(u(5).half(), Fixed::from_raw(2500));
    assert_eq!(Fixed::from_raw(2500).abs_units(), 2);
    assert_eq!(Fixed::from_raw(-2500).abs_units(), 2);
    assert_eq!(Fixed::from_raw(2500).rem_unit(), Fixed::from_raw(500));
    assert_eq!(Fixed::from_raw(-2500).rem_unit(), Fixed::from_raw(-500));
    assert_eq!(Fixed::from_raw(-2500).signum_unit(), u(-1));
    assert_eq!(u(3).times(Fixed::from_raw(1500)), Fixed::from_raw(4500));
    assert_eq!(Fixed::from_raw(-3600).trunc_units(), -3);
}
