use noframe::body::Body;
use noframe::fixed::Fixed;
use noframe::mask::Mask;
use noframe::movement::{Movement, Polarity, Step};
use noframe::origin::Origin;
use noframe::point::Point;
use noframe::size::Size;
use noframe::velocity::Velocity;

fn u(n: i64) -> Fixed {
    Fixed::from_units(n)
}

fn mover() -> Body {
    Body::new(
        Point::new(u(0), u(0)),
        Size::new(u(1), u(1)),
        Origin::TopLeft,
        Point::new(u(100), u(100)),
    )
}

#[test]
fn polarity_signs() {
    assert_eq!(Polarity::Pos.sign(), 1);
    assert_eq!(Polarity::Neg.sign(), -1);
    assert_eq!(Polarity::Null.sign(), 0);
    assert_eq!(Polarity::from(17).sign(), 1);
    assert_eq!(Polarity::from(-4).sign(), -1);
    assert_eq!(Polarity::from(0).sign(), 0);
}

#[test]
fn step_vectors_are_one_signed_unit() {
    let v = Step::X(Polarity::Pos).vector();
    assert_eq!((v.x, v.y), (u(1), u(0)));
    let v = Step::Y(Polarity::Neg).vector();
    assert_eq!((v.x, v.y), (u(0), u(-1)));
}

#[test]
fn step_moves_one_unit() {
    let mut body = mover();
    body.step(Step::X(Polarity::Pos));
    body.step(Step::Y(Polarity::Neg));
    assert_eq!(*body.point(), Point::new(u(1), u(-1)));
}

#[test]
fn add_velocity_clamps_to_the_maximum() {
    let mut body = Body::new(
        Point::new(u(0), u(0)),
        Size::new(u(1), u(1)),
        Origin::TopLeft,
        Point::new(u(5), u(5)),
    );
    body.add_velocity(&Point::new(u(3), u(0)));
    assert_eq!(*body.velocity(), Point::new(u(3), u(0)));
    body.add_velocity(&Point::new(u(4), u(1)));
    assert_eq!(*body.velocity(), Point::new(u(5), u(1)));
    body.add_velocity(&Point::new(u(-20), u(-7)));
    assert_eq!(*body.velocity(), Point::new(u(-5), u(-5)));
    // However it was reached, the velocity stays within the ceiling.
    assert!(body.velocity().x.raw.abs() <= body.max_velocity().x.raw);
    assert!(body.velocity().y.raw.abs() <= body.max_velocity().y.raw);
}

#[test]
fn decrease_velocity_stops_exactly_at_zero() {
    let mut body = mover();
    body.set_velocity(&Point::new(u(3), u(0)));
    body.decrease_velocity(&Point::new(u(5), u(5)));
    assert_eq!(*body.velocity(), Point::new(u(0), u(0)));
}

#[test]
fn decrease_velocity_never_flips_a_sign() {
    let mut body = mover();
    body.set_velocity(&Point::new(u(3), u(-4)));
    body.decrease_velocity(&Point::new(u(1), u(1)));
    assert_eq!(*body.velocity(), Point::new(u(2), u(-3)));
    body.decrease_velocity(&Point::new(u(10), u(10)));
    assert_eq!(*body.velocity(), Point::new(u(0), u(0)));
}

#[test]
fn velocity_setters_assign_directly() {
    let mut body = mover();
    body.set_velocity(&Point::new(u(700), u(0)));
    assert_eq!(*body.velocity(), Point::new(u(700), u(0)));
    body.set_velocity_x(u(-2));
    body.set_velocity_y(u(9));
    assert_eq!(*body.velocity(), Point::new(u(-2), u(9)));
    assert_eq!(body.usable_velocity(), Point::new(u(-2), u(9)));
    body.clear_velocity();
    assert_eq!(*body.velocity(), Point::new(u(0), u(0)));
}

#[test]
fn resolver_stops_where_the_predicate_rejects() {
    // Whole-unit steps towards x = 5; anything past x = 3 is rejected,
    // so the walk is blocked there and the vertical position is
    // untouched.
    let mut body = mover();
    body.set_velocity(&Point::new(u(5), u(0)));
    body.move_while(|rect| rect.point.x.raw <= 3000);
    assert_eq!(*body.point(), Point::new(u(3), u(0)));
}

#[test]
fn resolver_commits_the_sub_unit_remainder() {
    // A velocity of two and a half units against no obstacle: the
    // whole-unit walk tries one step beyond the velocity's whole part —
    // three accepted unit steps — and the half-unit remainder follows.
    let mut body = mover();
    body.set_velocity(&Point::new(Fixed::from_raw(2500), u(0)));
    body.move_while(|_rect| true);
    assert_eq!(*body.point(), Point::new(Fixed::from_raw(3500), u(0)));
}

#[test]
fn resolver_remainder_respects_the_predicate() {
    // The whole-unit walk ends at x = 3; the half-unit remainder
    // candidate at 3.5 is rejected, so it is skipped.
    let mut body = mover();
    body.set_velocity(&Point::new(Fixed::from_raw(2500), u(0)));
    body.move_while(|rect| rect.point.x.raw <= 3000);
    assert_eq!(*body.point(), Point::new(u(3), u(0)));
}

#[test]
fn resolver_treats_the_axes_independently() {
    // Horizontal motion is blocked past x = 2 while vertical motion is
    // free: the entity slides — the blocked axis does not stop the
    // other, which advances its full five units and the extra probe.
    let mut body = mover();
    body.set_velocity(&Point::new(u(5), u(5)));
    body.move_while(|rect| rect.point.x.raw <= 2000);
    assert_eq!(*body.point(), Point::new(u(2), u(6)));
}

#[test]
fn resolver_moves_leftwards_too() {
    let mut body = mover();
    body.set_velocity(&Point::new(u(-5), u(0)));
    body.move_while(|rect| rect.point.x.raw >= -4000);
    assert_eq!(*body.point(), Point::new(u(-4), u(0)));
}

#[test]
fn resolver_leaves_a_still_body_alone() {
    let mut body = mover();
    body.move_while(|_rect| false);
    assert_eq!(*body.point(), Point::new(u(0), u(0)));
}

#[test]
fn get_move_while_does_not_mutate() {
    let mut body = mover();
    body.set_velocity(&Point::new(u(2), u(0)));
    let target = body.get_move_while(|_rect| true);
    assert_eq!(*body.point(), Point::new(u(0), u(0)));
    assert_eq!(target, Point::new(u(3), u(0)));
}

#[test]
fn resolver_checks_the_candidate_rectangle() {
    // The predicate sees whole candidate rectangles: it can reject on
    // the rectangle's right edge, not only on its anchor point.
    let mut body = mover();
    body.set_velocity(&Point::new(u(5), u(0)));
    body.move_while(|rect| rect.size.w.raw == 1000 && rect.point.x.raw + rect.size.w.raw <= 3000);
    assert_eq!(*body.point(), Point::new(u(2), u(0)));
}
