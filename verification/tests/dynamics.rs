use ferrum_engine::rigidbody::Rigidbody;
use ferrum_engine::math::Vec2;
use ferrum_engine::color::ColorRGBA;
use ferrum_engine::ode_solver::{rk4_step, rk4_angular_step};
use ferrum_engine::spring::Spring;
use ferrum_engine::pivot_joint::PivotJoint;
use ferrum_engine::weld_joint::WeldJoint;
use ferrum_engine::physics::{PhysicsSystem, Parameters};
use ferrum_engine::energy::Energy;

fn fxd(v: f64) -> i64 {
    (v * 65536.0).round() as i64
}

fn und(v: i64) -> f64 {
    v as f64 / 65536.0
}

fn unit_box(x: f64, y: f64, mass: f64) -> Rigidbody {
    Rigidbody::rectangle(fxd(1.0), fxd(1.0), Vec2::new(fxd(x), fxd(y)), fxd(mass), fxd(0.5),
        ColorRGBA::white())
}

fn empty_energy() -> Energy {
    Energy { kinetic_energy: 0, potential_energy: 0, spring_energy: 0 }
}

fn still_params() -> Parameters {
    Parameters {
        delta_time: fxd(0.001),
        updates_per_frame: 1,
        time_multiplier: fxd(1.0),
        angular_velocity: true,
        gravity: true,
        world_size: 0,
        gravity_force: Vec2::new(0, fxd(-1.0)),
        is_running: true,
    }
}

#[test]
fn rk4_advances_constant_acceleration_exactly() {
    // One step under force 2 on mass 1 from rest: x = a t^2 / 2, v = a t,
    // and the closed form is hit exactly for these inputs.
    let dt = fxd(0.5);
    let (x, v) = rk4_step(Vec2::new(0, 0), Vec2::new(0, 0), dt, fxd(1.0),
        Vec2::new(fxd(2.0), 0));
    assert_eq!(v.x, fxd(1.0));
    assert_eq!(x.x, fxd(0.25));
    let (theta, omega) = rk4_angular_step(0, 0, dt, fxd(1.0), fxd(2.0));
    assert_eq!(omega, fxd(1.0));
    assert_eq!(theta, fxd(0.25));

    // One full-unit step under gravity -10 from rest lands exactly on
    // (0, -5) with velocity (0, -10).
    let (xg, vg) = rk4_step(Vec2::new(0, 0), Vec2::new(0, 0), fxd(1.0), fxd(1.0),
        Vec2::new(0, fxd(-10.0)));
    assert_eq!(xg.y, fxd(-5.0));
    assert_eq!(vg.y, fxd(-10.0));

    // Zero torque advances the angle by exactly omega * dt.
    let (theta2, omega2) = rk4_angular_step(0, fxd(1.0), fxd(1.0), fxd(1.0), 0);
    assert_eq!(theta2, fxd(1.0));
    assert_eq!(omega2, fxd(1.0));
}

#[test]
fn a_body_under_gravity_falls_half_g_t_squared() {
    let mut body = unit_box(0.0, 0.0, 1.0);
    let g = Vec2::new(0, fxd(-9.81));
    let dt = fxd(0.01);
    let steps = 100usize;
    for _ in 0..steps {
        body.update_rigidbody(g, dt);
    }
    let t = und(dt) * steps as f64;
    let expected = -0.5 * 9.81 * t * t;
    let y = und(body.center.y);
    assert!((y - expected).abs() < 0.05, "fell {} expected {}", y, expected);
    // No rotation was induced.
    assert_eq!(body.angular_velocity, 0);
}

#[test]
fn a_spring_oscillates_at_the_reduced_mass_frequency() {
    // Two free unit masses, rest length 1, stretched to 1.5 so the
    // separation never approaches zero.
    let mut bodies = vec![unit_box(-0.75, 0.0, 1.0), unit_box(0.75, 0.0, 1.0)];
    let spring = Spring::new(0, 1, Vec2::new(0, 0), Vec2::new(0, 0), fxd(1.0), fxd(10.0), 0,
        &mut bodies);
    let dt = fxd(0.001);
    let zero_g = Vec2::new(0, 0);

    let mut crossings: Vec<usize> = Vec::new();
    let mut prev_sign = 1i32;
    let total = 3000usize;
    for step in 0..total {
        spring.apply(dt, &mut bodies);
        for b in bodies.iter_mut() {
            b.update_rigidbody(zero_g, dt);
        }
        let distance = und(bodies[1].center.x) - und(bodies[0].center.x);
        let stretch = distance - 1.0;
        let sign = if stretch >= 0.0 { 1 } else { -1 };
        if sign != prev_sign {
            crossings.push(step);
            prev_sign = sign;
        }
    }
    // omega = sqrt(k / m_reduced) = sqrt(10 / 0.5); half period = pi / omega.
    let omega = (10.0f64 / 0.5).sqrt();
    let half_period = std::f64::consts::PI / omega;
    assert!(crossings.len() >= 3, "no oscillation seen");
    let mut intervals = 0.0;
    for w in crossings.windows(2) {
        intervals += (w[1] - w[0]) as f64 * und(dt);
    }
    let measured = intervals / (crossings.len() - 1) as f64;
    assert!((measured - half_period).abs() / half_period < 0.08,
        "half period {} expected {}", measured, half_period);
}

#[test]
fn an_undamped_spring_conserves_energy() {
    let mut bodies = vec![unit_box(-0.75, 0.0, 1.0), unit_box(0.75, 0.0, 1.0)];
    let spring = Spring::new(0, 1, Vec2::new(0, 0), Vec2::new(0, 0), fxd(1.0), fxd(10.0), 0,
        &mut bodies);
    let dt = fxd(0.001);
    let zero_g = Vec2::new(0, 0);

    let energy_of = |bodies: &Vec<Rigidbody>| -> f64 {
        let kinetic: f64 = bodies.iter().map(|b| und(b.calculate_energy())).sum();
        let d = und(bodies[1].center.x) - und(bodies[0].center.x);
        let stretch = d - 1.0;
        kinetic + 0.5 * 10.0 * stretch * stretch
    };

    let initial = energy_of(&bodies);
    assert!(initial > 1.0);
    let mut max_drift = 0.0f64;
    for _ in 0..3000 {
        spring.apply(dt, &mut bodies);
        for b in bodies.iter_mut() {
            b.update_rigidbody(zero_g, dt);
        }
        let drift = (energy_of(&bodies) - initial).abs();
        if drift > max_drift {
            max_drift = drift;
        }
    }
    assert!(max_drift / initial < 0.1, "energy drift {} of {}", max_drift, initial);
}

#[test]
fn a_pivot_joint_keeps_the_anchors_together() {
    // A nearly immovable hub and a hanging unit box joined 1.5 away.
    let mut polygons = vec![unit_box(0.0, 0.0, 1000000.0), unit_box(1.5, 0.0, 1.0)];
    let pivot = PivotJoint::new(Vec2::new(0, 0), Vec2::new(fxd(-1.5), 0), &mut polygons, 0, 1);
    let mut system = PhysicsSystem {
        springs: vec![],
        polygons,
        weld_joints: vec![],
        pivot_joints: vec![pivot],
        dt: fxd(0.002),
        energy: empty_energy(),
    };
    let params = still_params();
    for _ in 0..3000 {
        system.update_physics(&params);
    }
    let a = &system.polygons[0];
    let b = &system.polygons[1];
    let pa = a.center;
    let pb = b.center.plus(&Vec2::new(fxd(-1.5), 0).rotated(b.angle));
    let dx = und(pa.x) - und(pb.x);
    let dy = und(pa.y) - und(pb.y);
    let gap = (dx * dx + dy * dy).sqrt();
    assert!(gap < 0.15, "anchor gap {}", gap);
    // The pendulum actually moved under gravity.
    assert!(und(b.center.y) < -0.01);
}

#[test]
fn a_weld_joint_also_keeps_the_relative_angle() {
    let mut polygons = vec![unit_box(0.0, 0.0, 1000000.0), unit_box(1.2, 0.0, 1.0)];
    let weld = WeldJoint::new(Vec2::new(fxd(0.6), 0), Vec2::new(fxd(-0.6), 0), &mut polygons,
        0, 1);
    let reference = und(weld.reference_angle);
    let mut system = PhysicsSystem {
        springs: vec![],
        polygons,
        weld_joints: vec![weld],
        pivot_joints: vec![],
        dt: fxd(0.002),
        energy: empty_energy(),
    };
    let params = still_params();
    for _ in 0..3000 {
        system.update_physics(&params);
    }
    let a = &system.polygons[0];
    let b = &system.polygons[1];
    let relative = und(b.angle) - und(a.angle);
    assert!((relative - reference).abs() < 0.1, "relative angle {}", relative);
    let pa = a.center.plus(&Vec2::new(fxd(0.6), 0).rotated(a.angle));
    let pb = b.center.plus(&Vec2::new(fxd(-0.6), 0).rotated(b.angle));
    let dx = und(pa.x) - und(pb.x);
    let dy = und(pa.y) - und(pb.y);
    assert!((dx * dx + dy * dy).sqrt() < 0.2, "anchor gap {}", (dx * dx + dy * dy).sqrt());
}

#[test]
fn colliding_bodies_bounce_apart() {
    let mut a = unit_box(0.0, 0.0, 1.0);
    let mut b = unit_box(0.9, 0.0, 1.0);
    a.velocity = Vec2::new(fxd(1.0), 0);
    b.velocity = Vec2::new(fxd(-1.0), 0);
    a.restitution = fxd(1.0);
    b.restitution = fxd(1.0);
    // Give both bodies a huge moment of inertia so the head-on impulse is
    // purely linear.
    a.moment_of_inertia = fxd(1.0e9);
    b.moment_of_inertia = fxd(1.0e9);
    PhysicsSystem::check_and_resolve(&mut a, &mut b);
    // After an elastic head-on impulse the bodies separate.
    assert!(a.velocity.x < 0, "a still approaching: {}", und(a.velocity.x));
    assert!(b.velocity.x > 0, "b still approaching: {}", und(b.velocity.x));
}

#[test]
fn non_colliding_bodies_are_untouched_by_the_resolver() {
    let mut a = unit_box(0.0, 0.0, 1.0);
    let mut b = unit_box(5.0, 0.0, 1.0);
    a.velocity = Vec2::new(fxd(1.0), 0);
    let va = a.velocity;
    let ca = a.center;
    PhysicsSystem::check_and_resolve(&mut a, &mut b);
    assert_eq!(a.velocity.x, va.x);
    assert_eq!(a.center.x, ca.x);
    assert_eq!(b.velocity.x, 0);
}
