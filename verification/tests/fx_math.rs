use ferrum_engine::fx::{fx_add, fx_sub, fx_mul, fx_div, fx_sqrt, fx_cos, fx_sin, fx_abs,
    fx_from, FX_ONE, FX_PI, FX_HALF_PI};
use ferrum_engine::math::Vec2;

fn fxa(v: f64) -> i64 {
    (v * 65536.0).round() as i64
}

fn una(v: i64) -> f64 {
    v as f64 / 65536.0
}

#[test]
fn add_and_sub_are_exact_in_range() {
    assert_eq!(fx_add(fxa(1.5), fxa(2.25)), fxa(3.75));
    assert_eq!(fx_sub(fxa(1.0), fxa(2.5)), fxa(-1.5));
}

#[test]
fn add_saturates_at_the_integer_bounds() {
    assert_eq!(fx_add(i64::MAX, 1), i64::MAX);
    assert_eq!(fx_sub(i64::MIN, 1), i64::MIN);
    assert_eq!(fx_abs(i64::MIN), i64::MAX);
}

#[test]
fn mul_matches_the_rescaled_product() {
    assert_eq!(fx_mul(fxa(3.0), fxa(0.5)), fxa(1.5));
    assert_eq!(fx_mul(fxa(-1.5), fxa(0.5)), fxa(-0.75));
    // Truncation is toward zero.
    assert_eq!(fx_mul(3, 3), 0);
    assert_eq!(fx_mul(-3, 3), 0);
}

#[test]
fn div_by_zero_yields_zero() {
    assert_eq!(fx_div(fxa(1.0), 0), 0);
    assert_eq!(fx_div(fxa(3.0), fxa(2.0)), fxa(1.5));
    assert_eq!(fx_div(fxa(-3.0), fxa(2.0)), fxa(-1.5));
}

#[test]
fn sqrt_is_the_exact_integer_square_root() {
    assert_eq!(fx_sqrt(fx_from(4)), fx_from(2));
    assert_eq!(fx_sqrt(fx_from(0)), 0);
    assert_eq!(fx_sqrt(-5), 0);
    // sqrt(2) in fixed point, truncated: floor(sqrt(2) * 65536) = 92681.
    assert_eq!(fx_sqrt(fx_from(2)), 92681);
}

#[test]
fn trig_tracks_the_real_functions() {
    let mut a = -10.0f64;
    while a < 10.0 {
        let fx_angle = fxa(a);
        let c = una(fx_cos(fx_angle));
        let s = una(fx_sin(fx_angle));
        assert!((c - a.cos()).abs() < 3e-3, "cos({}) = {} vs {}", a, c, a.cos());
        assert!((s - a.sin()).abs() < 3e-3, "sin({}) = {} vs {}", a, s, a.sin());
        a += 0.1;
    }
    assert_eq!(fx_cos(0), FX_ONE);
    assert_eq!(fx_sin(0), 0);
    assert!(fx_cos(FX_PI) < -FX_ONE + 200);
    assert!(fx_sin(FX_HALF_PI) > FX_ONE - 200);
}

#[test]
fn vector_magnitude_of_a_three_four_triangle() {
    let v = Vec2::new(fxa(3.0), fxa(4.0));
    assert_eq!(v.magnitude(), fxa(5.0));
    assert_eq!(v.sqr_magnitude(), fxa(25.0));
}

#[test]
fn vector_normalize_gives_a_unit_vector() {
    let v = Vec2::new(fxa(10.0), 0);
    let n = v.normalized();
    assert_eq!(n.x, FX_ONE);
    assert_eq!(n.y, 0);
    let zero = Vec2::new(0, 0).normalized();
    assert_eq!(zero.x, 0);
    assert_eq!(zero.y, 0);
}

#[test]
fn vector_dot_cross_and_perpendicular() {
    let a = Vec2::new(fxa(1.0), fxa(2.0));
    let b = Vec2::new(fxa(3.0), fxa(-1.0));
    assert_eq!(a.dot(&b), fxa(1.0));
    assert_eq!(a.cross(&b), fxa(-7.0));
    let p = a.perpendicular();
    assert_eq!(p.x, fxa(-2.0));
    assert_eq!(p.y, fxa(1.0));
}

#[test]
fn vector_rotation_by_a_quarter_turn() {
    let v = Vec2::new(FX_ONE, 0);
    let r = v.rotated(FX_HALF_PI);
    assert!(una(r.x).abs() < 1e-3);
    assert!((una(r.y) - 1.0).abs() < 1e-3);
}
