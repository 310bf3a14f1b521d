use noframe::body::Body;
use noframe::fixed::Fixed;
use noframe::mask::{intersects, intersects_round, is_same, Mask};
use noframe::origin::Origin;
use noframe::point::Point;
use noframe::rect::Rect;
use noframe::size::Size;
use noframe::sides::Side;

fn u(n: i64) -> Fixed {
    Fixed::from_units(n)
}

fn body(x: i64, y: i64, w: i64, h: i64) -> Body {
    Body::new(
        Point::new(u(x), u(y)),
        Size::new(u(w), u(h)),
        Origin::TopLeft,
        Point::new(u(100), u(100)),
    )
}

fn get_not_intersecting_bodies() -> (Body, Body) {
    (body(10, 10, 10, 10), body(20, 20, 10, 10))
}

fn get_intersecting_bodies() -> (Body, Body) {
    (body(10, 10, 10, 10), body(15, 15, 10, 10))
}

#[test]
fn do_not_collide() {
    let bodies = get_not_intersecting_bodies();
    assert!(
        !intersects(&bodies.0, &bodies.1),
        "Should NOT collide:\n{:#?}\n",
        &bodies
    );
}

#[test]
fn do_collide() {
    let bodies = get_intersecting_bodies();
    assert!(
        intersects(&bodies.0, &bodies.1),
        "SHOULD collide:\n{:#?}\n",
        &bodies
    );
}

#[test]
fn disjoint_rectangles_do_not_intersect() {
    let a = Rect::new_simple(u(10), u(10), u(10), u(10));
    let b = Rect::new_simple(u(30), u(30), u(10), u(10));
    assert!(!intersects(&a, &b));
    assert!(!intersects(&b, &a));
}

#[test]
fn overlapping_rectangles_intersect() {
    let a = Rect::new_simple(u(10), u(10), u(10), u(10));
    let b = Rect::new_simple(u(15), u(15), u(10), u(10));
    assert!(intersects(&a, &b));
    assert!(intersects(&b, &a));
}

#[test]
fn edge_touching_rectangles_do_not_intersect() {
    let a = Rect::new_simple(u(10), u(10), u(10), u(10));
    let right_neighbour = Rect::new_simple(u(20), u(10), u(10), u(10));
    let below_neighbour = Rect::new_simple(u(10), u(20), u(10), u(10));
    assert!(!intersects(&a, &right_neighbour));
    assert!(!intersects(&a, &below_neighbour));
}

#[test]
fn is_same_is_reflexive() {
    let a = Rect::new_simple(u(10), u(10), u(10), u(10));
    assert!(is_same(&a, &a));
    assert!(intersects(&a, &a));
}

#[test]
fn is_same_is_symmetric_and_implies_intersects() {
    // The same rectangle described through two different origins.
    let a = Rect::new_simple(u(10), u(10), u(10), u(10));
    let b = Rect::new(
        Point::new(u(15), u(15)),
        Size::new(u(10), u(10)),
        Origin::Center,
    );
    assert_eq!(is_same(&a, &b), is_same(&b, &a));
    assert!(is_same(&a, &b));
    assert!(intersects(&a, &b));
    let c = Rect::new_simple(u(11), u(10), u(10), u(10));
    assert_eq!(is_same(&a, &c), is_same(&c, &a));
    assert!(!is_same(&a, &c));
}

#[test]
fn top_left_matches_the_offset_table() {
    let point = Point::new(u(10), u(5));
    let size = Size::new(u(4), u(2));
    let cases = [
        (Origin::TopLeft, 10, 5),
        (Origin::TopRight, 6, 5),
        (Origin::TopCenter, 8, 5),
        (Origin::BottomLeft, 10, 3),
        (Origin::BottomRight, 6, 3),
        (Origin::BottomCenter, 8, 3),
        (Origin::CenterLeft, 10, 4),
        (Origin::CenterRight, 6, 4),
        (Origin::Center, 8, 4),
    ];
    for (origin, x, y) in cases {
        let r = Rect::new(point, size, origin);
        assert_eq!(r.top_left(), Point::new(u(x), u(y)), "{:?}", origin);
    }
}

#[test]
fn top_left_with_zero_size_is_the_point_itself() {
    let point = Point::new(u(10), u(5));
    let size = Size::new(u(0), u(0));
    let origins = [
        Origin::TopLeft,
        Origin::TopRight,
        Origin::TopCenter,
        Origin::BottomLeft,
        Origin::BottomRight,
        Origin::BottomCenter,
        Origin::CenterLeft,
        Origin::CenterRight,
        Origin::Center,
    ];
    for origin in origins {
        let r = Rect::new(point, size, origin);
        assert_eq!(r.top_left(), point, "{:?}", origin);
    }
}

#[test]
fn sides_are_ordered_for_non_negative_sizes() {
    let origins = [Origin::TopLeft, Origin::Center, Origin::BottomRight];
    for origin in origins {
        let r = Rect::new(Point::new(u(-7), u(13)), Size::new(u(4), u(0)), origin);
        let s = r.sides();
        assert!(s.bottom.raw >= s.top.raw);
        assert!(s.right.raw >= s.left.raw);
    }
}

#[test]
fn sides_and_side_agree() {
    let r = Rect::new(Point::new(u(10), u(5)), Size::new(u(4), u(2)), Origin::Center);
    let s = r.sides();
    assert_eq!(s.top, r.side(Side::Top));
    assert_eq!(s.bottom, r.side(Side::Bottom));
    assert_eq!(s.left, r.side(Side::Left));
    assert_eq!(s.right, r.side(Side::Right));
    assert_eq!(s.top, u(4));
    assert_eq!(s.bottom, u(6));
    assert_eq!(s.left, u(8));
    assert_eq!(s.right, u(12));
}

#[test]
fn sides_entries_come_in_fixed_order() {
    let r = Rect::new_simple(u(10), u(20), u(4), u(2));
    let entries = r.sides().entries();
    assert_eq!(
        entries,
        vec![
            (Side::Top, u(20)),
            (Side::Bottom, u(22)),
            (Side::Left, u(10)),
            (Side::Right, u(14)),
        ]
    );
}

#[test]
fn side_collection_from_values_zero_fills() {
    let full = noframe::sides::SideCollection::from_values(&vec![u(1), u(2), u(3), u(4)]);
    assert_eq!(full, noframe::sides::SideCollection::new(u(1), u(2), u(3), u(4)));
    let partial = noframe::sides::SideCollection::from_values(&vec![u(1), u(2)]);
    assert_eq!(partial, noframe::sides::SideCollection::new(u(1), u(2), u(0), u(0)));
}

#[test]
fn corners_and_centers_are_derived_from_top_left() {
    let r = Rect::new_simple(u(10), u(20), u(4), u(2));
    assert_eq!(r.top_left(), Point::new(u(10), u(20)));
    assert_eq!(r.top_right(), Point::new(u(14), u(20)));
    assert_eq!(r.top_center(), Point::new(u(12), u(20)));
    assert_eq!(r.bottom_left(), Point::new(u(10), u(22)));
    assert_eq!(r.bottom_right(), Point::new(u(14), u(22)));
    assert_eq!(r.bottom_center(), Point::new(u(12), u(22)));
    assert_eq!(r.center_left(), Point::new(u(10), u(21)));
    assert_eq!(r.center_right(), Point::new(u(14), u(21)));
    assert_eq!(r.center(), Point::new(u(12), u(21)));
}

#[test]
fn intersects_point_is_strict() {
    let r = Rect::new_simple(u(10), u(10), u(10), u(10));
    assert!(r.intersects_point(&Point::new(u(15), u(15))));
    assert!(!r.intersects_point(&Point::new(u(10), u(15))));
    assert!(!r.intersects_point(&Point::new(u(20), u(15))));
    assert!(!r.intersects_point(&Point::new(u(5), u(5))));
}

#[test]
fn intersects_round_ignores_sub_unit_overlap() {
    // Overlap of four tenths of a unit: real, but gone after rounding.
    let a = Rect::new_simple(u(0), u(0), u(10), u(10));
    let b = Rect::new_simple(Fixed::from_raw(9600), u(0), u(10), u(10));
    assert!(intersects(&a, &b));
    assert!(!intersects_round(&a, &b));
    // Overlap of a whole unit survives the rounding.
    let c = Rect::new_simple(u(9), u(0), u(10), u(10));
    assert!(intersects_round(&a, &c));
}
