use bomby::ease::{arc_bomb, arc_lob, ease_back_in, ease_bounce_out, ease_circular_in, ease_circular_out};
use bomby::geom::{dist_milli, isqrt, lerp, Vec2};

#[test]
fn circular_curves_hit_their_endpoints() {
    assert_eq!(ease_circular_out(0), 0);
    assert_eq!(ease_circular_out(1000), 1000);
    assert_eq!(ease_circular_in(0), 0);
    assert_eq!(ease_circular_in(1000), 1000);
    // sqrt(1 - 0.25) of a permille square
    assert_eq!(ease_circular_out(500), 866);
    assert_eq!(ease_circular_in(500), 134);
}

#[test]
fn bounce_curve_dips_and_returns() {
    assert_eq!(ease_bounce_out(0), 0);
    assert_eq!(ease_bounce_out(1000), 1000);
    // bottom of the second rebound
    assert_eq!(ease_bounce_out(500), 765);
}

#[test]
fn back_curve_winds_up_below_zero() {
    assert_eq!(ease_back_in(0), 0);
    assert_eq!(ease_back_in(1000), 1000);
    assert_eq!(ease_back_in(500), -87);
}

#[test]
fn arcs_peak_mid_flight_and_land() {
    assert_eq!(arc_lob(0), 0);
    assert_eq!(arc_lob(500), 1000);
    assert_eq!(arc_lob(1000), 0);
    assert_eq!(arc_bomb(0), 0);
    assert_eq!(arc_bomb(250), 1000);
    assert_eq!(arc_bomb(1000), 0);
}

#[test]
fn integer_square_root_brackets() {
    assert_eq!(isqrt(0), 0);
    assert_eq!(isqrt(48), 6);
    assert_eq!(isqrt(49), 7);
    assert_eq!(isqrt(1_000_000), 1000);
}

#[test]
fn distances_and_interpolation_are_exact() {
    assert_eq!(dist_milli(Vec2::new(0, 0), Vec2::new(3000, 4000)), 5000);
    assert_eq!(lerp(-500, 500, 0), -500);
    assert_eq!(lerp(-500, 500, 250), -250);
    assert_eq!(lerp(-500, 500, 1000), 500);
}
