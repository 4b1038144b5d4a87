//! A damped linear spring connecting two bodies at body-local anchors.
//!
//! One application computes the spring and damping force at the rotated
//! world anchors and advances both bodies' velocities through the RK4
//! stepper. A zero-length separation falls back to a direction built from
//! machine randomness; the contract then states what holds for every
//! direction the fallback can produce.

use vstd::prelude::*;
use crate::fx::{Fx, FX_ONE, FX_HALF, fx_sub, fx_mul, fx_neg, fx_add_s, fx_sub_s, fx_mul_s,
    fx_div_s, fx_neg_s};
use crate::math::{Vec2, V2i, vw, v2i, v_add_s, v_sub_s, v_neg_s, v_scale_s, v_div_s, perp_s,
    dot_s, cross_s, mag_s, rotated_s, normalized_s};
use crate::rigidbody::Rigidbody;
use crate::color::ColorRGBA;
use crate::ode_solver::{rk4_step, rk4_angular_step, rk4_vel_s, rk4_omega_s};
use crate::utility::{take_pair, put_pair, lemma_pair_swap};

verus! {

/// A spring: two body indices, body-local anchors, rest length, stiffness
/// and damping, plus a connector body used only for rendering.
pub struct Spring {
    pub body_a: usize,
    pub body_b: usize,
    pub connector: Rigidbody,
    pub anchor_a: Vec2,
    pub anchor_b: Vec2,
    pub rest_length: Fx,
    pub stiffness: Fx,
    pub damping: Fx,
}

/// The updated velocities of the two spring endpoints.
pub ghost struct PairMotion {
    pub vel_a: V2i,
    pub omega_a: int,
    pub vel_b: V2i,
    pub omega_b: int,
}

/// A body-local anchor carried to world space: the body center plus the
/// anchor rotated by the body's orientation.
pub open spec fn world_anchor_s(b: Rigidbody, anchor: V2i) -> V2i {
    v_add_s(vw(b.center), rotated_s(anchor, b.angle as int))
}

/// The velocity of the body material point at world anchor `w`.
pub open spec fn anchor_vel_s(b: Rigidbody, w: V2i) -> V2i {
    v_add_s(vw(b.velocity), v_scale_s(perp_s(v_sub_s(w, vw(b.center))), b.angular_velocity as int))
}

/// What one spring application does to the body collection: both
/// endpoint bodies' velocities and angular velocities advance by the RK4
/// stepper under the current force, along the separation direction when
/// it is nonzero and along some fallback direction from the unit box
/// otherwise; every other body and every other field is untouched.
pub open spec fn spring_applied(sp: Spring, ps: Seq<Rigidbody>, ps2: Seq<Rigidbody>, dt: int)
    -> bool {
    &&& ps2.len() == ps.len()
    &&& forall|k: int| 0 <= k < ps.len() && k != sp.body_a && k != sp.body_b ==>
        #[trigger] ps2[k] == ps[k]
    &&& ps2[sp.body_a as int] == (Rigidbody {
        velocity: ps2[sp.body_a as int].velocity,
        angular_velocity: ps2[sp.body_a as int].angular_velocity,
        ..ps[sp.body_a as int]
    })
    &&& ps2[sp.body_b as int] == (Rigidbody {
        velocity: ps2[sp.body_b as int].velocity,
        angular_velocity: ps2[sp.body_b as int].angular_velocity,
        ..ps[sp.body_b as int]
    })
    &&& ({
        let a = ps[sp.body_a as int];
        let b = ps[sp.body_b as int];
        let na = ps2[sp.body_a as int];
        let nb = ps2[sp.body_b as int];
        if sp.distance_s(a, b) != 0 {
            let m = sp.motion_s(a, b, v_div_s(sp.separation_s(a, b), sp.distance_s(a, b)), dt);
            vw(na.velocity) == m.vel_a && na.angular_velocity == m.omega_a
                && vw(nb.velocity) == m.vel_b && nb.angular_velocity == m.omega_b
        } else {
            exists|rx: int, ry: int| 0 <= rx < 65536 && 0 <= ry < 65536 && ({
                let m = sp.motion_s(a, b, normalized_s(#[trigger] v2i(rx, ry)), dt);
                vw(na.velocity) == m.vel_a && na.angular_velocity == m.omega_a
                    && vw(nb.velocity) == m.vel_b && nb.angular_velocity == m.omega_b
            })
        }
    })
}

impl Spring {
    /// The world-space separation from this spring's anchor on `a` to its
    /// anchor on `b`.
    pub open spec fn separation_s(self, a: Rigidbody, b: Rigidbody) -> V2i {
        v_sub_s(world_anchor_s(b, vw(self.anchor_b)), world_anchor_s(a, vw(self.anchor_a)))
    }

    /// The current anchor distance.
    pub open spec fn distance_s(self, a: Rigidbody, b: Rigidbody) -> int {
        mag_s(self.separation_s(a, b))
    }

    /// The total spring-plus-damping force along direction `d`.
    pub open spec fn force_s(self, a: Rigidbody, b: Rigidbody, d: V2i) -> V2i {
        let wa = world_anchor_s(a, vw(self.anchor_a));
        let wb = world_anchor_s(b, vw(self.anchor_b));
        let stretch = fx_sub_s(self.distance_s(a, b), self.rest_length as int);
        let rel = v_sub_s(anchor_vel_s(b, wb), anchor_vel_s(a, wa));
        v_add_s(
            v_scale_s(d, fx_mul_s(fx_neg_s(self.stiffness as int), stretch)),
            v_scale_s(d, fx_mul_s(fx_neg_s(self.damping as int), dot_s(rel, d))),
        )
    }

    /// The velocities of both bodies after one application along `d`:
    /// equal and opposite forces plus the off-center torques, each advanced
    /// by the RK4 stepper.
    pub open spec fn motion_s(self, a: Rigidbody, b: Rigidbody, d: V2i, dt: int) -> PairMotion {
        let wa = world_anchor_s(a, vw(self.anchor_a));
        let wb = world_anchor_s(b, vw(self.anchor_b));
        let f = self.force_s(a, b, d);
        PairMotion {
            vel_a: rk4_vel_s(vw(a.velocity), dt, a.mass as int, v_neg_s(f)),
            omega_a: rk4_omega_s(a.angular_velocity as int, dt, a.moment_of_inertia as int,
                cross_s(v_sub_s(wa, vw(a.center)), v_neg_s(f))),
            vel_b: rk4_vel_s(vw(b.velocity), dt, b.mass as int, f),
            omega_b: rk4_omega_s(b.angular_velocity as int, dt, b.moment_of_inertia as int,
                cross_s(v_sub_s(wb, vw(b.center)), f)),
        }
    }

    /// The midpoint of the two current world anchors, where the connector
    /// rectangle is placed.
    pub open spec fn anchor_midpoint_s(self, a: Rigidbody, b: Rigidbody) -> V2i {
        v_scale_s(v_add_s(world_anchor_s(a, vw(self.anchor_a)),
            world_anchor_s(b, vw(self.anchor_b))), 32768)
    }

    /// Creates a spring between `body_a` and `body_b`: the connector
    /// rectangle is built between the two world anchors (the connector is
    /// a render-only aid; its orientation is left to the drawing layer),
    /// and each body is recorded in the other's connected-anchor set,
    /// exempting the pair from mutual collision.
    pub fn new(
        body_a: usize,
        body_b: usize,
        anchor_a: Vec2,
        anchor_b: Vec2,
        rest_length: Fx,
        stiffness: Fx,
        damping: Fx,
        rigidbodys: &mut Vec<Rigidbody>,
    ) -> (r: Self)
        requires
            body_a < old(rigidbodys)@.len(),
            body_b < old(rigidbodys)@.len(),
            body_a != body_b,
        ensures
            final(rigidbodys)@.len() == old(rigidbodys)@.len(),
            forall|k: int| 0 <= k < old(rigidbodys)@.len() && k != body_a && k != body_b ==>
                #[trigger] final(rigidbodys)@[k] == old(rigidbodys)@[k],
            final(rigidbodys)@[body_a as int] == (Rigidbody {
                connected_anchors: final(rigidbodys)@[body_a as int].connected_anchors,
                ..old(rigidbodys)@[body_a as int]
            }),
            final(rigidbodys)@[body_a as int].connected_anchors@
                == old(rigidbodys)@[body_a as int].connected_anchors@.push(body_b),
            final(rigidbodys)@[body_b as int] == (Rigidbody {
                connected_anchors: final(rigidbodys)@[body_b as int].connected_anchors,
                ..old(rigidbodys)@[body_b as int]
            }),
            final(rigidbodys)@[body_b as int].connected_anchors@
                == old(rigidbodys)@[body_b as int].connected_anchors@.push(body_a),
            r.body_a == body_a,
            r.body_b == body_b,
            r.anchor_a == anchor_a,
            r.anchor_b == anchor_b,
            r.rest_length == rest_length,
            r.stiffness == stiffness,
            r.damping == damping,
            ({
                let a0 = old(rigidbodys)@[body_a as int];
                let b0 = old(rigidbodys)@[body_b as int];
                let length = mag_s(v_sub_s(world_anchor_s(b0, vw(anchor_b)),
                    world_anchor_s(a0, vw(anchor_a))));
                let mid = r.anchor_midpoint_s(a0, b0);
                &&& r.connector.vertices@.len() == 4
                &&& vw(r.connector.center) == crate::rigidbody::centroid_s(
                    r.connector.vertices@, r.connector.area as int)
                &&& vw(r.connector.vertices@[0]) == v2i(
                    fx_add_s(fx_sub_s(0, fx_div_s(6554, 131072)), mid.x),
                    fx_add_s(fx_sub_s(0, fx_div_s(length, 131072)), mid.y),
                )
                &&& vw(r.connector.vertices@[1]) == v2i(
                    fx_add_s(fx_div_s(6554, 131072), mid.x),
                    fx_add_s(fx_sub_s(0, fx_div_s(length, 131072)), mid.y),
                )
                &&& vw(r.connector.vertices@[2]) == v2i(
                    fx_add_s(fx_div_s(6554, 131072), mid.x),
                    fx_add_s(fx_div_s(length, 131072), mid.y),
                )
                &&& vw(r.connector.vertices@[3]) == v2i(
                    fx_add_s(fx_sub_s(0, fx_div_s(6554, 131072)), mid.x),
                    fx_add_s(fx_div_s(length, 131072), mid.y),
                )
            }),
    {
        let lo = if body_a < body_b { body_a } else { body_b };
        let hi = if body_a < body_b { body_b } else { body_a };
        let pair = take_pair(rigidbodys, lo, hi);
        let (mut a, mut b) = if body_a < body_b {
            (pair.0, pair.1)
        } else {
            (pair.1, pair.0)
        };

        let world_anchor_a = a.center.plus(&anchor_a.rotated(a.angle));
        let world_anchor_b = b.center.plus(&anchor_b.rotated(b.angle));

        let delta = world_anchor_b.minus(&world_anchor_a);
        let distance = delta.magnitude();

        // A thin rectangle spanning the two anchors (width 0.1).
        let connector = Rigidbody::rectangle(
            6554,
            distance,
            world_anchor_a.plus(&world_anchor_b).scaled(FX_HALF),
            FX_ONE,
            FX_ONE,
            ColorRGBA::white(),
        );

        a.connected_anchors.push(body_b);
        b.connected_anchors.push(body_a);

        let (blo, bhi) = if body_a < body_b {
            (a, b)
        } else {
            (b, a)
        };
        put_pair(rigidbodys, lo, hi, blo, bhi);
        proof {
            lemma_pair_swap(old(rigidbodys)@, lo as int, hi as int,
                final(rigidbodys)@[lo as int], final(rigidbodys)@[hi as int]);
        }

        Spring {
            body_a,
            body_b,
            connector,
            anchor_a,
            anchor_b,
            rest_length,
            stiffness,
            damping,
        }
    }

    /// Applies one spring step to the two bodies: both velocities and
    /// angular velocities advance by the RK4 stepper under the current
    /// force; nothing else changes.
    #[verifier::rlimit(60)]
    pub fn apply(&self, dt: Fx, rigidbodys: &mut Vec<Rigidbody>)
        requires
            self.body_a < old(rigidbodys)@.len(),
            self.body_b < old(rigidbodys)@.len(),
            self.body_a != self.body_b,
        ensures
            spring_applied(*self, old(rigidbodys)@, final(rigidbodys)@, dt as int),
    {
        let ai = self.body_a;
        let bi = self.body_b;
        let lo = if ai < bi { ai } else { bi };
        let hi = if ai < bi { bi } else { ai };
        let pair = take_pair(rigidbodys, lo, hi);
        let (mut a, mut b) = if ai < bi {
            (pair.0, pair.1)
        } else {
            (pair.1, pair.0)
        };

        let world_anchor_a = a.center.plus(&self.anchor_a.rotated(a.angle));
        let world_anchor_b = b.center.plus(&self.anchor_b.rotated(b.angle));

        let delta = world_anchor_b.minus(&world_anchor_a);
        let distance = delta.magnitude();
        let ghost gx: int = 0;
        let ghost gy: int = 0;
        let direction: Vec2;
        if distance != 0 {
            direction = delta.divided(distance);
        } else {
            let rx = (random_u32() % 65536) as i64;
            let ry = (random_u32() % 65536) as i64;
            proof {
                gx = rx as int;
                gy = ry as int;
            }
            direction = Vec2::new(rx, ry).normalized();
        }

        let stretch = fx_sub(distance, self.rest_length);

        let vel_a = a.velocity.plus(&world_anchor_a.minus(&a.center).perpendicular().scaled(
            a.angular_velocity));
        let vel_b = b.velocity.plus(&world_anchor_b.minus(&b.center).perpendicular().scaled(
            b.angular_velocity));
        let relative_velocity = vel_b.minus(&vel_a);

        let spring_force = direction.scaled(fx_mul(fx_neg(self.stiffness), stretch));
        let damping_force = direction.scaled(fx_mul(fx_neg(self.damping),
            relative_velocity.dot(&direction)));
        let total_force = spring_force.plus(&damping_force);

        let r_a = world_anchor_a.minus(&a.center);
        let r_b = world_anchor_b.minus(&b.center);
        let torque_a = r_a.cross(&total_force.negated());
        let torque_b = r_b.cross(&total_force);

        let lin_a = rk4_step(a.center, a.velocity, dt, a.mass, total_force.negated());
        let lin_b = rk4_step(b.center, b.velocity, dt, b.mass, total_force);
        a.velocity = lin_a.1;
        b.velocity = lin_b.1;

        let ang_a = rk4_angular_step(a.angle, a.angular_velocity, dt, a.moment_of_inertia,
            torque_a);
        let ang_b = rk4_angular_step(b.angle, b.angular_velocity, dt, b.moment_of_inertia,
            torque_b);
        a.angular_velocity = ang_a.1;
        b.angular_velocity = ang_b.1;

        let (blo, bhi) = if ai < bi {
            (a, b)
        } else {
            (b, a)
        };
        put_pair(rigidbodys, lo, hi, blo, bhi);
        proof {
            lemma_pair_swap(old(rigidbodys)@, lo as int, hi as int,
                final(rigidbodys)@[lo as int], final(rigidbodys)@[hi as int]);
        }
    }

    /// Rebuilds the connector rectangle between the current world anchors.
    pub fn update_connector(&mut self, rigidbodys: &Vec<Rigidbody>)
        requires
            old(self).body_a < rigidbodys@.len(),
            old(self).body_b < rigidbodys@.len(),
        ensures
            *final(self) == (Spring { connector: final(self).connector, ..*old(self) }),
            final(self).connector.vertices@.len() == 4,
    {
        let a = &rigidbodys[self.body_a];
        let b = &rigidbodys[self.body_b];

        let world_anchor_a = a.center.plus(&self.anchor_a.rotated(a.angle));
        let world_anchor_b = b.center.plus(&self.anchor_b.rotated(b.angle));

        let delta = world_anchor_b.minus(&world_anchor_a);
        let distance = delta.magnitude();

        self.connector = Rigidbody::rectangle(
            6554,
            distance,
            world_anchor_a.plus(&world_anchor_b).scaled(FX_HALF),
            FX_ONE,
            FX_ONE,
            ColorRGBA::white(),
        );
    }
}

/// Relies on rand::random::<u32>: an arbitrary machine-generated value,
/// used only to pick a fallback direction for coincident anchors.
#[verifier::external_body]
fn random_u32() -> u32 {
    rand::random::<u32>()
}

} // verus!
