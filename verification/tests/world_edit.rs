use ferrum_engine::rigidbody::Rigidbody;
use ferrum_engine::math::Vec2;
use ferrum_engine::color::ColorRGBA;
use ferrum_engine::spring::Spring;
use ferrum_engine::pivot_joint::PivotJoint;
use ferrum_engine::weld_joint::WeldJoint;
use ferrum_engine::physics::PhysicsSystem;
use ferrum_engine::energy::Energy;
use ferrum_engine::collision_detection::sat_collision;
use ferrum_engine::body_builder::{BodyBuilder, RigidbodyParams, SpringParams};
use ferrum_engine::enums::{BodyType, ColorType};

fn fxw(v: f64) -> i64 {
    (v * 65536.0).round() as i64
}

fn unw(v: i64) -> f64 {
    v as f64 / 65536.0
}

fn small_box(x: f64, y: f64) -> Rigidbody {
    Rigidbody::rectangle(fxw(1.0), fxw(1.0), Vec2::new(fxw(x), fxw(y)), fxw(1.0), fxw(0.5),
        ColorRGBA::white())
}

fn bare_system(polygons: Vec<Rigidbody>) -> PhysicsSystem {
    PhysicsSystem {
        springs: vec![],
        polygons,
        weld_joints: vec![],
        pivot_joints: vec![],
        dt: fxw(0.01),
        energy: Energy { kinetic_energy: 0, potential_energy: 0, spring_energy: 0 },
    }
}

#[test]
fn removing_a_body_cascades_and_reindexes() {
    // Body 1 carries two springs and one pivot joint; an unrelated spring
    // and weld joint connect bodies 2 and 3.
    let mut system = bare_system(vec![
        small_box(0.0, 0.0),
        small_box(2.0, 0.0),
        small_box(4.0, 0.0),
        small_box(6.0, 0.0),
    ]);
    system.springs.push(Spring::new(0, 1, Vec2::new(0, 0), Vec2::new(0, 0), fxw(1.0),
        fxw(5.0), 0, &mut system.polygons));
    system.springs.push(Spring::new(1, 2, Vec2::new(0, 0), Vec2::new(0, 0), fxw(1.0),
        fxw(5.0), 0, &mut system.polygons));
    system.springs.push(Spring::new(2, 3, Vec2::new(0, 0), Vec2::new(0, 0), fxw(1.0),
        fxw(5.0), 0, &mut system.polygons));
    let pivot = PivotJoint::new(Vec2::new(0, 0), Vec2::new(0, 0), &mut system.polygons, 1, 3);
    system.pivot_joints.push(pivot);
    let weld = WeldJoint::new(Vec2::new(0, 0), Vec2::new(0, 0), &mut system.polygons, 2, 3);
    system.weld_joints.push(weld);

    system.remove_rigidbody(1);

    assert_eq!(system.polygons.len(), 3);
    // Both springs touching body 1 are gone; the survivor is reindexed.
    assert_eq!(system.springs.len(), 1);
    assert_eq!(system.springs[0].body_a, 1);
    assert_eq!(system.springs[0].body_b, 2);
    // The pivot joint died with its body; the weld joint shifted down.
    assert_eq!(system.pivot_joints.len(), 0);
    assert_eq!(system.weld_joints.len(), 1);
    assert_eq!(system.weld_joints[0].body_a, 1);
    assert_eq!(system.weld_joints[0].body_b, 2);
    // No reference anywhere reaches the removed slot unshifted.
    for sp in system.springs.iter() {
        assert!(sp.body_a < 3 && sp.body_b < 3);
    }
    for j in system.weld_joints.iter() {
        assert!(j.body_a < 3 && j.body_b < 3);
    }
    for b in system.polygons.iter() {
        for &anchor in b.connected_anchors.iter() {
            assert!(anchor < 3);
        }
    }
}

#[test]
fn removing_a_joint_unlinks_the_anchor_pair() {
    let mut system = bare_system(vec![small_box(0.0, 0.0), small_box(2.0, 0.0)]);
    let pivot = PivotJoint::new(Vec2::new(0, 0), Vec2::new(0, 0), &mut system.polygons, 0, 1);
    system.pivot_joints.push(pivot);
    assert_eq!(system.polygons[0].connected_anchors.len(), 1);
    assert_eq!(system.polygons[1].connected_anchors.len(), 1);

    system.remove_pivot_joint(0);
    assert_eq!(system.pivot_joints.len(), 0);
    assert_eq!(system.polygons[0].connected_anchors.len(), 0);
    assert_eq!(system.polygons[1].connected_anchors.len(), 0);
}

#[test]
fn remove_spring_leaves_other_state_alone() {
    let mut system = bare_system(vec![small_box(0.0, 0.0), small_box(2.0, 0.0)]);
    system.springs.push(Spring::new(0, 1, Vec2::new(0, 0), Vec2::new(0, 0), fxw(1.0),
        fxw(5.0), 0, &mut system.polygons));
    // Spring creation linked the pair's connected-anchor sets.
    assert_eq!(system.polygons[0].connected_anchors.len(), 1);
    system.remove_spring(0);
    assert_eq!(system.springs.len(), 0);
    assert_eq!(system.polygons.len(), 2);
    // Removal unlinked them again.
    assert_eq!(system.polygons[0].connected_anchors.len(), 0);
    assert_eq!(system.polygons[1].connected_anchors.len(), 0);
}

#[test]
fn moved_indices_shift_down_or_clear() {
    let mut held: Option<usize> = Some(5);
    PhysicsSystem::move_indices(&mut held, 3);
    assert_eq!(held, Some(4));
    let mut hit: Option<usize> = Some(3);
    PhysicsSystem::move_indices(&mut hit, 3);
    assert_eq!(hit, None);
    let mut low: Option<usize> = Some(1);
    PhysicsSystem::move_indices(&mut low, 3);
    assert_eq!(low, Some(1));
}

#[test]
fn despawn_keeps_eternal_and_near_bodies() {
    let mut far_eternal = small_box(50.0, 0.0);
    far_eternal.eternal = true;
    let mut system = bare_system(vec![
        small_box(0.0, 0.0),
        small_box(60.0, 0.0),
        far_eternal,
        small_box(1.0, 1.0),
    ]);
    system.despawn_outside(fxw(10.0));
    assert_eq!(system.polygons.len(), 3);
    for b in system.polygons.iter() {
        let d = (unw(b.center.x).powi(2) + unw(b.center.y).powi(2)).sqrt();
        assert!(b.eternal || d <= 10.0);
    }
}

#[test]
fn sparse_scenes_cut_the_pair_count_but_miss_no_overlap() {
    // Thirty small bodies spread wide, with three deliberately
    // overlapping pairs.
    let mut polygons: Vec<Rigidbody> = Vec::new();
    for i in 0..24 {
        let x = (i % 6) as f64 * 10.0;
        let y = (i / 6) as f64 * 10.0;
        polygons.push(small_box(x, y));
    }
    polygons.push(small_box(0.4, 0.0));
    polygons.push(small_box(20.3, 10.2));
    polygons.push(small_box(50.0, 30.2));
    polygons.push(small_box(70.0, 70.0));
    polygons.push(small_box(70.0, 70.6));
    polygons.push(small_box(-30.0, -30.0));
    let n = polygons.len();
    let system = bare_system(polygons);

    let sections = system.separate_into_section();

    // Candidate pair tests are far fewer than the quadratic bound.
    let mut candidate_pairs: Vec<(usize, usize)> = Vec::new();
    let mut tests = 0usize;
    for section in sections.iter() {
        for i in 0..section.len() {
            for j in (i + 1)..section.len() {
                tests += 1;
                let a = section[i] as usize;
                let b = section[j] as usize;
                let p = (a.min(b), a.max(b));
                if !candidate_pairs.contains(&p) {
                    candidate_pairs.push(p);
                }
            }
        }
    }
    assert!(tests < n * n / 2, "{} tests for {} bodies", tests, n);

    // Every truly overlapping pair appears among the candidates.
    for i in 0..n {
        for j in (i + 1)..n {
            let r = sat_collision(&system.polygons[i], &system.polygons[j]);
            if r.collided {
                assert!(candidate_pairs.contains(&(i, j)),
                    "overlapping pair ({}, {}) missed", i, j);
            }
        }
    }
}

#[test]
fn update_energy_totals_the_scene() {
    let mut a = small_box(0.0, 2.0);
    a.velocity = Vec2::new(fxw(3.0), 0);
    let mut system = bare_system(vec![a, small_box(2.0, 0.0)]);
    system.springs.push(Spring::new(0, 1, Vec2::new(0, 0), Vec2::new(0, 0), fxw(1.0),
        fxw(10.0), 0, &mut system.polygons));
    let springs = std::mem::take(&mut system.springs);
    let mut energy = Energy { kinetic_energy: 0, potential_energy: 0, spring_energy: 0 };
    energy.update_energy(&system.polygons, &springs, fxw(-9.81), fxw(-10.0));
    // Kinetic: m v^2 / 2 = 4.5.
    assert!((unw(energy.kinetic_energy) - 4.5).abs() < 0.01);
    // Spring: anchors are the centers, distance sqrt(8), stretch - 1.
    let stretch = 8.0f64.sqrt() - 1.0;
    assert!((unw(energy.spring_energy) - 5.0 * stretch * stretch).abs() < 0.05);
    let total = unw(energy.get_energy());
    let parts = unw(energy.kinetic_energy) + unw(energy.potential_energy)
        + unw(energy.spring_energy);
    assert!((total - parts).abs() < 1e-3);
}

#[test]
fn builder_spawns_bodies_with_the_requested_settings() {
    let builder = BodyBuilder {
        body_type: BodyType::Rectangle,
        rigidbody_params: RigidbodyParams {
            sides: 5,
            radius: fxw(1.0),
            width: fxw(2.0),
            height: fxw(1.0),
            pos: Vec2::new(fxw(1.0), fxw(1.0)),
            mass: fxw(2.0),
            restitution: fxw(0.25),
            color: None,
            collides: false,
            rotation: fxw(0.1),
            angular_velocity: fxw(0.5),
            velocity: Vec2::new(fxw(1.0), fxw(-1.0)),
            color_type: ColorType::Random,
            gravity_multiplier: 0,
            eternal: true,
        },
        spring_params: SpringParams {
            stiffness: fxw(1.0),
            dampening: 0,
            rest_length: fxw(1.0),
            body_a: 0,
            body_b: 1,
            anchor_a: Vec2::new(0, 0),
            anchor_b: Vec2::new(0, 0),
        },
    };
    let fallback = ColorRGBA::orange();
    let body = builder.create_rigidbody(fallback);
    assert_eq!(body.vertices.len(), 4);
    assert_eq!(body.mass, fxw(2.0));
    assert_eq!(body.color, fallback);
    assert!(body.eternal);
    assert!(!body.collision);
    assert_eq!(body.angular_velocity, fxw(0.5));
    assert_eq!(body.gravity_multiplier, 0);

    let marker = BodyBuilder::create_joint();
    assert_eq!(marker.vertices.len(), 32);
    assert!(!marker.collision);
    assert_eq!(marker.gravity_multiplier, 0);
}

#[test]
fn color_constructors_fill_the_channels() {
    let c = ColorRGBA::new(1, 2, 3, 4);
    assert_eq!((c.r, c.g, c.b, c.a), (1, 2, 3, 4));
    assert_eq!(ColorRGBA::red().r, 255);
    assert_eq!(ColorRGBA::blue().b, 255);
    assert_eq!(ColorRGBA::white().a, 255);
    assert_eq!(ColorRGBA::transparent().a, 0);
    assert_eq!(ColorRGBA::black().r, 0);
    assert_eq!(ColorRGBA::gray().g, 128);
    assert_eq!(ColorRGBA::orange().g, 165);
}

#[test]
fn spring_fallback_direction_still_applies_a_force() {
    // Coincident anchors: the zero-distance fallback picks a direction at
    // random, but the rest-length pull must still act.
    let mut bodies = vec![small_box(0.0, 0.0), small_box(0.0, 0.0)];
    let spring = Spring::new(0, 1, Vec2::new(0, 0), Vec2::new(0, 0), fxw(1.0), fxw(10.0), 0,
        &mut bodies);
    spring.apply(fxw(0.01), &mut bodies);
    let moved = bodies[0].velocity.x != 0 || bodies[0].velocity.y != 0
        || bodies[1].velocity.x != 0 || bodies[1].velocity.y != 0;
    assert!(moved, "coincident anchors produced no force");
}

#[test]
fn probe_queries_find_the_topmost_body() {
    let mut system = bare_system(vec![
        small_box(0.0, 0.0),
        small_box(0.2, 0.0),
        small_box(8.0, 0.0),
    ]);
    let probe = Rigidbody::rectangle(fxw(0.03), fxw(0.03), Vec2::new(fxw(0.1), 0), fxw(1.0),
        fxw(1.0), ColorRGBA::white());

    // Both of the overlapping bodies cover the probe; the later one wins.
    let top = system.get_polygon_under_mouse(&probe, None, None);
    assert_eq!(top, Some(1));
    // Excluding the top body exposes the one below it.
    let below = system.get_polygon_under_mouse(&probe, Some(1), None);
    assert_eq!(below, Some(0));
    // All hits come topmost first.
    let all = system.get_all_polygons_under_mouse(&probe, None, None);
    assert_eq!(all, vec![1, 0]);
    // The far body never matches.
    let far_probe = Rigidbody::rectangle(fxw(0.03), fxw(0.03), Vec2::new(fxw(20.0), 0),
        fxw(1.0), fxw(1.0), ColorRGBA::white());
    assert_eq!(system.get_polygon_under_mouse(&far_probe, None, None), None);
    assert!(system.under_mouse_is_clear(&far_probe, None, None));
    assert!(!system.under_mouse_is_clear(&probe, None, None));

    // A spring's connector can be picked the same way.
    system.springs.push(Spring::new(0, 2, Vec2::new(0, 0), Vec2::new(0, 0), fxw(1.0),
        fxw(5.0), 0, &mut system.polygons));
    let mid_probe = Rigidbody::rectangle(fxw(0.2), fxw(0.2), Vec2::new(fxw(4.0), 0), fxw(1.0),
        fxw(1.0), ColorRGBA::white());
    assert_eq!(system.get_spring_under_mouse(&mid_probe, None), Some(0));
    assert_eq!(system.get_spring_under_mouse(&mid_probe, Some(0)), None);
}
