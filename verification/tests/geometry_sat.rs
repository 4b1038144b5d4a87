use ferrum_engine::rigidbody::Rigidbody;
use ferrum_engine::math::Vec2;
use ferrum_engine::color::ColorRGBA;
use ferrum_engine::collision_detection::{sat_collision, find_contact_points};

fn fxg(v: f64) -> i64 {
    (v * 65536.0).round() as i64
}

fn ung(v: i64) -> f64 {
    v as f64 / 65536.0
}

fn square(side: f64, x: f64, y: f64) -> Rigidbody {
    Rigidbody::rectangle(fxg(side), fxg(side), Vec2::new(fxg(x), fxg(y)), fxg(1.0), fxg(0.5),
        ColorRGBA::white())
}

#[test]
fn rectangle_area_and_centroid_are_exact() {
    let b = Rigidbody::rectangle(fxg(2.0), fxg(1.0), Vec2::new(0, 0), fxg(1.0), fxg(0.5),
        ColorRGBA::white());
    assert_eq!(b.area, fxg(2.0));
    assert_eq!(b.center.x, 0);
    assert_eq!(b.center.y, 0);
    // Bounding radius: half the diagonal, sqrt(1.25).
    assert!((ung(b.radius) - 1.25f64.sqrt()).abs() < 1e-3);
}

#[test]
fn rectangle_inertia_matches_the_plate_formula() {
    let b = Rigidbody::rectangle(fxg(2.0), fxg(1.0), Vec2::new(fxg(3.0), fxg(-1.0)), fxg(1.0),
        fxg(0.5), ColorRGBA::white());
    // (m / 12) * (w^2 + h^2) for a solid rectangle.
    let expected = (4.0 + 1.0) / 12.0;
    assert!((ung(b.moment_of_inertia) - expected).abs() < 1e-2);
    assert!(b.moment_of_inertia >= 0);
}

#[test]
fn centroid_lies_inside_the_hull_of_a_polygon() {
    let b = Rigidbody::polygon(5, fxg(2.0), Vec2::new(fxg(1.0), fxg(2.0)), fxg(1.0), fxg(0.5),
        ColorRGBA::white());
    // The centroid of a regular polygon is its center point.
    assert!((ung(b.center.x) - 1.0).abs() < 1e-2);
    assert!((ung(b.center.y) - 2.0).abs() < 1e-2);
    assert!(b.moment_of_inertia >= 0);
}

#[test]
fn inertia_is_unchanged_by_translation_and_rotation() {
    let mut b = Rigidbody::rectangle(fxg(2.0), fxg(1.0), Vec2::new(0, 0), fxg(1.0), fxg(0.5),
        ColorRGBA::white());
    let before = ung(b.moment_of_inertia);

    b.translate(Vec2::new(fxg(5.0), fxg(-3.0)));
    b.calculate_properties();
    assert!((ung(b.moment_of_inertia) - before).abs() < 1e-2);

    b.rotate(fxg(0.3));
    b.calculate_properties();
    assert!((ung(b.moment_of_inertia) - before).abs() < 1e-2);
}

#[test]
fn sat_reports_the_known_axis_and_depth_for_two_squares() {
    // Two unit squares overlapping by 0.2 along x.
    let a = square(1.0, 0.0, 0.0);
    let b = square(1.0, 0.8, 0.0);
    let r = sat_collision(&a, &b);
    assert!(r.collided);
    assert!((ung(r.overlap) - 0.2).abs() < 1e-3);
    // The winning axis is horizontal (an edge normal of a unit square has
    // length 1).
    assert!(ung(r.axis.y).abs() < 1e-3);
    assert!((ung(r.axis.x).abs() - 1.0).abs() < 1e-3);
}

#[test]
fn sat_is_symmetric_on_collision_and_depth() {
    let cases = [
        (square(1.0, 0.0, 0.0), square(1.0, 0.8, 0.3)),
        (square(2.0, -0.5, 0.2), square(1.0, 0.9, -0.4)),
        (square(1.0, 0.0, 0.0), square(1.0, 5.0, 5.0)),
    ];
    for (a, b) in cases.iter() {
        let r1 = sat_collision(a, b);
        let r2 = sat_collision(b, a);
        assert_eq!(r1.collided, r2.collided);
        if r1.collided {
            assert_eq!(r1.overlap, r2.overlap);
        }
    }
}

#[test]
fn distant_bounding_circles_never_collide() {
    let a = square(1.0, 0.0, 0.0);
    let b = square(1.0, 10.0, 0.0);
    let r = sat_collision(&a, &b);
    assert!(!r.collided);
}

#[test]
fn touching_squares_are_within_the_resting_epsilon() {
    // Exactly touching: zero overlap, treated as no collision.
    let a = square(1.0, 0.0, 0.0);
    let b = square(1.0, 1.0, 0.0);
    let r = sat_collision(&a, &b);
    assert!(!r.collided);
}

#[test]
fn high_vertex_count_bodies_take_the_circle_path() {
    let a = Rigidbody::polygon(20, fxg(1.0), Vec2::new(0, 0), fxg(1.0), fxg(0.5),
        ColorRGBA::white());
    let b = Rigidbody::polygon(20, fxg(1.0), Vec2::new(fxg(1.5), 0), fxg(1.0), fxg(0.5),
        ColorRGBA::white());
    let r = sat_collision(&a, &b);
    assert!(r.collided);
    // Penetration r1 + r2 - distance = 0.5.
    assert!((ung(r.overlap) - 0.5).abs() < 1e-2);
    assert!(r.from_first);
}

#[test]
fn overlapping_squares_produce_a_two_point_manifold() {
    let a = square(1.0, 0.0, 0.0);
    let b = square(1.0, 0.8, 0.0);
    let r = sat_collision(&a, &b);
    assert!(r.collided);
    let contacts = find_contact_points(&a, &b, &r.axis);
    assert!(contacts.len() >= 1 && contacts.len() <= 2);
    for c in contacts.iter() {
        // Contact points sit on the overlapping band between the squares.
        assert!(ung(c.x) > 0.2 && ung(c.x) < 0.6);
        assert!(ung(c.y).abs() <= 0.51);
    }
}

#[test]
fn sat_depth_is_geometric_for_non_unit_edges() {
    // Two 2x2 squares overlapping 0.5 along x: the edges have length 2,
    // but the reported depth is the geometric 0.5 on the unit axis.
    let a = square(2.0, 0.0, 0.0);
    let b = square(2.0, 1.5, 0.0);
    let r = sat_collision(&a, &b);
    assert!(r.collided);
    assert!((ung(r.overlap) - 0.5).abs() < 1e-3);
    assert!(ung(r.axis.y).abs() < 1e-3);
    assert!((ung(r.axis.x).abs() - 1.0).abs() < 1e-3);
}
