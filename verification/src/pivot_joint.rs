//! A 2D ball-and-socket (pivot) joint: a Baumgarte-stabilized velocity
//! constraint that pulls the two world anchors together while leaving
//! rotation free.
//!
//! Each solver call builds the 2x2 effective-mass matrix, solves it by
//! Cramer's rule, and falls back to an uncoupled diagonal solve when the
//! determinant vanishes at fixed-point resolution.

use vstd::prelude::*;
use crate::fx::{Fx, FX_ONE, fx_add, fx_sub, fx_mul, fx_div, fx_neg, fx_abs, fx_add_s, fx_sub_s,
    fx_mul_s, fx_div_s, fx_neg_s, sat64, abs_i};
use crate::math::{Vec2, V2i, vw, v_add_s, v_sub_s, v_neg_s, v_scale_s, cross_s, rotated_s,
    rotate_about_s, v2i, rotate};
use crate::rigidbody::Rigidbody;
use crate::spring::PairMotion;
use crate::utility::{take_pair, put_pair, lemma_pair_swap};

verus! {

/// A pivot joint: two body indices and a body-local anchor on each, with
/// the Baumgarte factor that feeds positional drift back into the solve.
pub struct PivotJoint {
    pub local_anchor_a: Vec2,
    pub local_anchor_b: Vec2,
    pub body_a: usize,
    pub body_b: usize,
    pub start_angle: Fx,
    pub a_index: usize,
    pub b_index: usize,
    pub beta: Fx,
}

/// The world-space anchor offset on a body: the local anchor rotated by
/// the body's orientation.
pub open spec fn anchor_offset_s(b: Rigidbody, anchor: V2i) -> V2i {
    rotated_s(anchor, b.angle as int)
}

/// The velocity of a body's material point at offset `r` from its center.
pub open spec fn offset_vel_s(b: Rigidbody, r: V2i) -> V2i {
    v_add_s(
        vw(b.velocity),
        V2i {
            x: fx_mul_s(fx_neg_s(b.angular_velocity as int), r.y),
            y: fx_mul_s(b.angular_velocity as int, r.x),
        },
    )
}

/// What one pivot solver call does to the body collection: the two
/// joined bodies' velocities receive the corrective impulse; everything
/// else is untouched.
pub open spec fn pivot_solved(j: PivotJoint, ps: Seq<Rigidbody>, ps2: Seq<Rigidbody>, dt: int)
    -> bool {
    &&& ps2.len() == ps.len()
    &&& forall|k: int| 0 <= k < ps.len() && k != j.body_a && k != j.body_b ==>
        #[trigger] ps2[k] == ps[k]
    &&& ps2[j.body_a as int] == (Rigidbody {
        velocity: ps2[j.body_a as int].velocity,
        angular_velocity: ps2[j.body_a as int].angular_velocity,
        ..ps[j.body_a as int]
    })
    &&& ps2[j.body_b as int] == (Rigidbody {
        velocity: ps2[j.body_b as int].velocity,
        angular_velocity: ps2[j.body_b as int].angular_velocity,
        ..ps[j.body_b as int]
    })
    &&& ({
        let m = j.motion_s(ps[j.body_a as int], ps[j.body_b as int], dt);
        let na = ps2[j.body_a as int];
        let nb = ps2[j.body_b as int];
        vw(na.velocity) == m.vel_a && na.angular_velocity == m.omega_a
            && vw(nb.velocity) == m.vel_b && nb.angular_velocity == m.omega_b
    })
}

impl PivotJoint {
    /// The corrective impulse one solver call computes: the 2x2
    /// effective-mass system solved by Cramer's rule, or diagonally when
    /// the determinant is zero.
    pub open spec fn impulse_s(self, a: Rigidbody, b: Rigidbody, dt: int) -> V2i {
        let ra = anchor_offset_s(a, vw(self.local_anchor_a));
        let rb = anchor_offset_s(b, vw(self.local_anchor_b));
        let inv_ma = fx_div_s(65536, a.mass as int);
        let inv_mb = fx_div_s(65536, b.mass as int);
        let inv_ia = fx_div_s(65536, a.moment_of_inertia as int);
        let inv_ib = fx_div_s(65536, b.moment_of_inertia as int);
        let v_rel = v_sub_s(offset_vel_s(b, rb), offset_vel_s(a, ra));
        let pos_err = v_sub_s(v_add_s(vw(b.center), rb), v_add_s(vw(a.center), ra));
        let bias = v_scale_s(pos_err, fx_div_s(self.beta as int, dt));
        let base = fx_add_s(inv_ma, inv_mb);
        let pax = fx_neg_s(ra.y);
        let pay = ra.x;
        let pbx = fx_neg_s(rb.y);
        let pby = rb.x;
        let a_k = fx_add_s(fx_add_s(base, fx_mul_s(fx_mul_s(pax, pax), inv_ia)),
            fx_mul_s(fx_mul_s(pbx, pbx), inv_ib));
        let b_k = fx_add_s(fx_mul_s(fx_mul_s(pax, pay), inv_ia),
            fx_mul_s(fx_mul_s(pbx, pby), inv_ib));
        let c_k = fx_add_s(fx_mul_s(fx_mul_s(pay, pax), inv_ia),
            fx_mul_s(fx_mul_s(pby, pbx), inv_ib));
        let d_k = fx_add_s(fx_add_s(base, fx_mul_s(fx_mul_s(pay, pay), inv_ia)),
            fx_mul_s(fx_mul_s(pby, pby), inv_ib));
        let rhs = v_neg_s(v_add_s(v_rel, bias));
        let det = fx_sub_s(fx_mul_s(a_k, d_k), fx_mul_s(b_k, c_k));
        if sat64(abs_i(det)) > 0 {
            let inv_det = fx_div_s(65536, det);
            V2i {
                x: fx_mul_s(fx_sub_s(fx_mul_s(d_k, rhs.x), fx_mul_s(b_k, rhs.y)), inv_det),
                y: fx_mul_s(fx_add_s(fx_mul_s(fx_neg_s(c_k), rhs.x), fx_mul_s(a_k, rhs.y)),
                    inv_det),
            }
        } else {
            V2i {
                x: if sat64(abs_i(a_k)) > 0 {
                    fx_div_s(rhs.x, a_k)
                } else {
                    0
                },
                y: if sat64(abs_i(d_k)) > 0 {
                    fx_div_s(rhs.y, d_k)
                } else {
                    0
                },
            }
        }
    }

    /// The velocities of both bodies after one solver call: the impulse
    /// applied negatively to the first body and positively to the second,
    /// with the matching angular kicks.
    pub open spec fn motion_s(self, a: Rigidbody, b: Rigidbody, dt: int) -> PairMotion {
        let ra = anchor_offset_s(a, vw(self.local_anchor_a));
        let rb = anchor_offset_s(b, vw(self.local_anchor_b));
        let inv_ma = fx_div_s(65536, a.mass as int);
        let inv_mb = fx_div_s(65536, b.mass as int);
        let inv_ia = fx_div_s(65536, a.moment_of_inertia as int);
        let inv_ib = fx_div_s(65536, b.moment_of_inertia as int);
        let impulse = self.impulse_s(a, b, dt);
        PairMotion {
            vel_a: v_sub_s(vw(a.velocity), v_scale_s(impulse, inv_ma)),
            omega_a: fx_sub_s(a.angular_velocity as int,
                fx_mul_s(inv_ia, cross_s(ra, impulse))),
            vel_b: v_add_s(vw(b.velocity), v_scale_s(impulse, inv_mb)),
            omega_b: fx_add_s(b.angular_velocity as int,
                fx_mul_s(inv_ib, cross_s(rb, impulse))),
        }
    }

    /// Creates a pivot joint and records each body in the other's
    /// connected-anchor set, exempting the pair from mutual collision.
    pub fn new(local_anchor_a: Vec2, local_anchor_b: Vec2, rigidbodys: &mut Vec<Rigidbody>,
        body_a: usize, body_b: usize) -> (r: Self)
        requires
            body_a < old(rigidbodys)@.len(),
            body_b < old(rigidbodys)@.len(),
            body_a != body_b,
        ensures
            final(rigidbodys)@.len() == old(rigidbodys)@.len(),
            forall|k: int| 0 <= k < old(rigidbodys)@.len() && k != body_a && k != body_b ==>
                #[trigger] final(rigidbodys)@[k] == old(rigidbodys)@[k],
            final(rigidbodys)@[body_a as int] == (Rigidbody {
                connected_anchors: final(rigidbodys)@[body_a as int].connected_anchors,
                ..old(rigidbodys)@[body_a as int]
            }),
            final(rigidbodys)@[body_a as int].connected_anchors@
                == old(rigidbodys)@[body_a as int].connected_anchors@.push(body_b),
            final(rigidbodys)@[body_b as int] == (Rigidbody {
                connected_anchors: final(rigidbodys)@[body_b as int].connected_anchors,
                ..old(rigidbodys)@[body_b as int]
            }),
            final(rigidbodys)@[body_b as int].connected_anchors@
                == old(rigidbodys)@[body_b as int].connected_anchors@.push(body_a),
            r.body_a == body_a,
            r.body_b == body_b,
            r.local_anchor_a == local_anchor_a,
            r.local_anchor_b == local_anchor_b,
            r.start_angle == old(rigidbodys)@[body_a as int].angle,
            r.a_index == old(rigidbodys)@[body_a as int].connected_anchors@.len(),
            r.b_index == old(rigidbodys)@[body_b as int].connected_anchors@.len(),
            r.beta == 7864,
    {
        let lo = if body_a < body_b { body_a } else { body_b };
        let hi = if body_a < body_b { body_b } else { body_a };
        let pair = take_pair(rigidbodys, lo, hi);
        let (mut a, mut b) = if body_a < body_b {
            (pair.0, pair.1)
        } else {
            (pair.1, pair.0)
        };

        a.connected_anchors.push(body_b);
        let a_index = a.connected_anchors.len() - 1;
        b.connected_anchors.push(body_a);
        let b_index = b.connected_anchors.len() - 1;
        let start_angle = a.angle;

        let (blo, bhi) = if body_a < body_b {
            (a, b)
        } else {
            (b, a)
        };
        put_pair(rigidbodys, lo, hi, blo, bhi);
        proof {
            lemma_pair_swap(old(rigidbodys)@, lo as int, hi as int,
                final(rigidbodys)@[lo as int], final(rigidbodys)@[hi as int]);
        }

        Self {
            local_anchor_a,
            local_anchor_b,
            body_a,
            body_b,
            a_index,
            b_index,
            start_angle,
            // Baumgarte factor 0.12 in fixed point.
            beta: 7864,
        }
    }

    /// Solves the velocity-level constraint once: both bodies' velocities
    /// and angular velocities receive the corrective impulse; nothing else
    /// changes.
    #[verifier::rlimit(60)]
    pub fn solve_velocity_constraints(&self, rigidbodys: &mut Vec<Rigidbody>, dt: Fx)
        requires
            self.body_a < old(rigidbodys)@.len(),
            self.body_b < old(rigidbodys)@.len(),
            self.body_a != self.body_b,
        ensures
            pivot_solved(*self, old(rigidbodys)@, final(rigidbodys)@, dt as int),
    {
        let lo = if self.body_a < self.body_b { self.body_a } else { self.body_b };
        let hi = if self.body_a < self.body_b { self.body_b } else { self.body_a };
        let pair = take_pair(rigidbodys, lo, hi);
        let (mut a, mut b) = if self.body_a < self.body_b {
            (pair.0, pair.1)
        } else {
            (pair.1, pair.0)
        };

        // World-space anchor offsets.
        let ra = self.local_anchor_a.rotated(a.angle);
        let rb = self.local_anchor_b.rotated(b.angle);

        let inv_ma = fx_div(FX_ONE, a.mass);
        let inv_mb = fx_div(FX_ONE, b.mass);
        let inv_ia = fx_div(FX_ONE, a.moment_of_inertia);
        let inv_ib = fx_div(FX_ONE, b.moment_of_inertia);

        // Relative velocity at the anchors.
        let va_anchor = a.velocity.plus(&Vec2::new(fx_mul(fx_neg(a.angular_velocity), ra.y),
            fx_mul(a.angular_velocity, ra.x)));
        let vb_anchor = b.velocity.plus(&Vec2::new(fx_mul(fx_neg(b.angular_velocity), rb.y),
            fx_mul(b.angular_velocity, rb.x)));
        let v_rel = vb_anchor.minus(&va_anchor);

        // Position error and Baumgarte bias.
        let pa = a.center.plus(&ra);
        let pb = b.center.plus(&rb);
        let pos_err = pb.minus(&pa);
        let bias = pos_err.scaled(fx_div(self.beta, dt));

        // 2x2 effective-mass matrix: linear part plus the perpendicular
        // outer products weighted by inverse inertia.
        let base = fx_add(inv_ma, inv_mb);
        let pax = fx_neg(ra.y);
        let pay = ra.x;
        let pbx = fx_neg(rb.y);
        let pby = rb.x;
        let a_k = fx_add(fx_add(base, fx_mul(fx_mul(pax, pax), inv_ia)),
            fx_mul(fx_mul(pbx, pbx), inv_ib));
        let b_k = fx_add(fx_mul(fx_mul(pax, pay), inv_ia), fx_mul(fx_mul(pbx, pby), inv_ib));
        let c_k = fx_add(fx_mul(fx_mul(pay, pax), inv_ia), fx_mul(fx_mul(pby, pbx), inv_ib));
        let d_k = fx_add(fx_add(base, fx_mul(fx_mul(pay, pay), inv_ia)),
            fx_mul(fx_mul(pby, pby), inv_ib));

        let rhs = v_rel.plus(&bias).negated();

        let det = fx_sub(fx_mul(a_k, d_k), fx_mul(b_k, c_k));

        let impulse: Vec2;
        if fx_abs(det) > 0 {
            // Cramer's rule.
            let inv_det = fx_div(FX_ONE, det);
            impulse = Vec2::new(
                fx_mul(fx_sub(fx_mul(d_k, rhs.x), fx_mul(b_k, rhs.y)), inv_det),
                fx_mul(fx_add(fx_mul(fx_neg(c_k), rhs.x), fx_mul(a_k, rhs.y)), inv_det),
            );
        } else {
            // Diagonal fallback for a degenerate matrix.
            let lx = if fx_abs(a_k) > 0 {
                fx_div(rhs.x, a_k)
            } else {
                0
            };
            let ly = if fx_abs(d_k) > 0 {
                fx_div(rhs.y, d_k)
            } else {
                0
            };
            impulse = Vec2::new(lx, ly);
        }

        // Apply the linear impulse and its angular effect.
        a.velocity = a.velocity.minus(&impulse.scaled(inv_ma));
        a.angular_velocity = fx_sub(a.angular_velocity, fx_mul(inv_ia, ra.cross(&impulse)));

        b.velocity = b.velocity.plus(&impulse.scaled(inv_mb));
        b.angular_velocity = fx_add(b.angular_velocity, fx_mul(inv_ib, rb.cross(&impulse)));

        let (blo, bhi) = if self.body_a < self.body_b {
            (a, b)
        } else {
            (b, a)
        };
        put_pair(rigidbodys, lo, hi, blo, bhi);
        proof {
            lemma_pair_swap(old(rigidbodys)@, lo as int, hi as int,
                final(rigidbodys)@[lo as int], final(rigidbodys)@[hi as int]);
        }
    }

    /// The world position of this joint's anchor on its first body: the
    /// local anchor turned by the rotation accumulated since creation,
    /// offset from the body center.
    pub fn get_anchor_world_position(&self, rigidbodys: &Vec<Rigidbody>) -> (r: Vec2)
        requires
            self.body_a < rigidbodys@.len(),
        ensures
            vw(r) == v_add_s(
                vw(rigidbodys@[self.body_a as int].center),
                rotate_about_s(vw(self.local_anchor_a), v2i(0, 0),
                    fx_sub_s(rigidbodys@[self.body_a as int].angle as int,
                        self.start_angle as int)),
            ),
    {
        let a = &rigidbodys[self.body_a];
        a.center.plus(&rotate(self.local_anchor_a, Vec2::zero(),
            fx_sub(a.angle, self.start_angle)))
    }
}

} // verus!
