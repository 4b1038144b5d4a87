//! A 2D weld joint: a Baumgarte-stabilized velocity constraint removing
//! both relative linear and relative angular motion between two anchors.
//!
//! Each solver call builds the symmetric 3x3 effective-mass matrix and
//! solves it by the adjugate; when the determinant vanishes at fixed-point
//! resolution it falls back to an uncoupled diagonal solve.

use vstd::prelude::*;
use crate::fx::{Fx, FX_ONE, fx_add, fx_sub, fx_mul, fx_div, fx_neg, fx_abs, fx_add_s, fx_sub_s,
    fx_mul_s, fx_div_s, fx_neg_s, sat64, abs_i};
use crate::math::{Vec2, V2i, vw, v_add_s, v_sub_s, v_scale_s, cross_s};
use crate::rigidbody::Rigidbody;
use crate::spring::PairMotion;
use crate::pivot_joint::{anchor_offset_s, offset_vel_s};
use crate::utility::{take_pair, put_pair, lemma_pair_swap};

verus! {

/// A weld joint: two body indices, a body-local anchor on each, and the
/// reference angle (the relative orientation at creation) it preserves.
pub struct WeldJoint {
    pub body_a: usize,
    pub body_b: usize,
    pub local_anchor_a: Vec2,
    pub local_anchor_b: Vec2,
    pub reference_angle: Fx,
    pub beta: Fx,
}

/// A linear impulse paired with an angular impulse.
pub ghost struct Impulse3 {
    pub lin: V2i,
    pub ang: int,
}

/// What one weld solver call does to the body collection: the two
/// joined bodies' velocities receive the corrective linear and angular
/// impulse; everything else is untouched.
pub open spec fn weld_solved(j: WeldJoint, ps: Seq<Rigidbody>, ps2: Seq<Rigidbody>, dt: int)
    -> bool {
    &&& ps2.len() == ps.len()
    &&& forall|k: int| 0 <= k < ps.len() && k != j.body_a && k != j.body_b ==>
        #[trigger] ps2[k] == ps[k]
    &&& ps2[j.body_a as int] == (Rigidbody {
        velocity: ps2[j.body_a as int].velocity,
        angular_velocity: ps2[j.body_a as int].angular_velocity,
        ..ps[j.body_a as int]
    })
    &&& ps2[j.body_b as int] == (Rigidbody {
        velocity: ps2[j.body_b as int].velocity,
        angular_velocity: ps2[j.body_b as int].angular_velocity,
        ..ps[j.body_b as int]
    })
    &&& ({
        let m = j.motion_s(ps[j.body_a as int], ps[j.body_b as int], dt);
        let na = ps2[j.body_a as int];
        let nb = ps2[j.body_b as int];
        vw(na.velocity) == m.vel_a && na.angular_velocity == m.omega_a
            && vw(nb.velocity) == m.vel_b && nb.angular_velocity == m.omega_b
    })
}

impl WeldJoint {
    /// The corrective impulse one solver call computes: the symmetric 3x3
    /// effective-mass system over (linear x, linear y, angular), solved by
    /// the adjugate, or diagonally when the determinant is zero.
    pub open spec fn impulse_s(self, a: Rigidbody, b: Rigidbody, dt: int) -> Impulse3 {
        let ra = anchor_offset_s(a, vw(self.local_anchor_a));
        let rb = anchor_offset_s(b, vw(self.local_anchor_b));
        let inv_ma = fx_div_s(65536, a.mass as int);
        let inv_mb = fx_div_s(65536, b.mass as int);
        let inv_ia = fx_div_s(65536, a.moment_of_inertia as int);
        let inv_ib = fx_div_s(65536, b.moment_of_inertia as int);
        let v_rel = v_sub_s(offset_vel_s(b, rb), offset_vel_s(a, ra));
        let w_rel = fx_sub_s(b.angular_velocity as int, a.angular_velocity as int);
        let pos_err = v_sub_s(v_add_s(vw(b.center), rb), v_add_s(vw(a.center), ra));
        let ang_err = fx_sub_s(fx_sub_s(b.angle as int, a.angle as int),
            self.reference_angle as int);
        let rate = fx_div_s(self.beta as int, dt);
        let cdx = fx_add_s(v_rel.x, fx_mul_s(pos_err.x, rate));
        let cdy = fx_add_s(v_rel.y, fx_mul_s(pos_err.y, rate));
        let cdw = fx_add_s(w_rel, fx_mul_s(rate, ang_err));
        let base = fx_add_s(inv_ma, inv_mb);
        let m11 = fx_add_s(fx_add_s(base, fx_mul_s(fx_mul_s(inv_ia, ra.y), ra.y)),
            fx_mul_s(fx_mul_s(inv_ib, rb.y), rb.y));
        let m12 = fx_sub_s(fx_mul_s(fx_mul_s(fx_neg_s(inv_ia), ra.x), ra.y),
            fx_mul_s(fx_mul_s(inv_ib, rb.x), rb.y));
        let m22 = fx_add_s(fx_add_s(base, fx_mul_s(fx_mul_s(inv_ia, ra.x), ra.x)),
            fx_mul_s(fx_mul_s(inv_ib, rb.x), rb.x));
        let m13 = fx_sub_s(fx_mul_s(fx_neg_s(inv_ia), ra.y), fx_mul_s(inv_ib, rb.y));
        let m23 = fx_add_s(fx_mul_s(inv_ia, ra.x), fx_mul_s(inv_ib, rb.x));
        let m33 = fx_add_s(inv_ia, inv_ib);
        let det = fx_add_s(
            fx_sub_s(
                fx_mul_s(m11, fx_sub_s(fx_mul_s(m22, m33), fx_mul_s(m23, m23))),
                fx_mul_s(m12, fx_sub_s(fx_mul_s(m12, m33), fx_mul_s(m23, m13))),
            ),
            fx_mul_s(m13, fx_sub_s(fx_mul_s(m12, m23), fx_mul_s(m22, m13))),
        );
        if sat64(abs_i(det)) > 0 {
            let inv_det = fx_div_s(65536, det);
            let c11 = fx_sub_s(fx_mul_s(m22, m33), fx_mul_s(m23, m23));
            let c12 = fx_sub_s(fx_mul_s(m13, m23), fx_mul_s(m12, m33));
            let c13 = fx_sub_s(fx_mul_s(m12, m23), fx_mul_s(m13, m22));
            let c22 = fx_sub_s(fx_mul_s(m11, m33), fx_mul_s(m13, m13));
            let c23 = fx_sub_s(fx_mul_s(m13, m12), fx_mul_s(m11, m23));
            let c33 = fx_sub_s(fx_mul_s(m11, m22), fx_mul_s(m12, m12));
            Impulse3 {
                lin: V2i {
                    x: fx_neg_s(fx_mul_s(fx_add_s(fx_add_s(fx_mul_s(c11, cdx),
                        fx_mul_s(c12, cdy)), fx_mul_s(c13, cdw)), inv_det)),
                    y: fx_neg_s(fx_mul_s(fx_add_s(fx_add_s(fx_mul_s(c12, cdx),
                        fx_mul_s(c22, cdy)), fx_mul_s(c23, cdw)), inv_det)),
                },
                ang: fx_neg_s(fx_mul_s(fx_add_s(fx_add_s(fx_mul_s(c13, cdx),
                    fx_mul_s(c23, cdy)), fx_mul_s(c33, cdw)), inv_det)),
            }
        } else {
            Impulse3 {
                lin: V2i {
                    x: if sat64(abs_i(m11)) > 0 {
                        fx_neg_s(fx_div_s(cdx, m11))
                    } else {
                        0
                    },
                    y: if sat64(abs_i(m22)) > 0 {
                        fx_neg_s(fx_div_s(cdy, m22))
                    } else {
                        0
                    },
                },
                ang: if sat64(abs_i(m33)) > 0 {
                    fx_neg_s(fx_div_s(cdw, m33))
                } else {
                    0
                },
            }
        }
    }

    /// The velocities of both bodies after one solver call.
    pub open spec fn motion_s(self, a: Rigidbody, b: Rigidbody, dt: int) -> PairMotion {
        let ra = anchor_offset_s(a, vw(self.local_anchor_a));
        let rb = anchor_offset_s(b, vw(self.local_anchor_b));
        let inv_ma = fx_div_s(65536, a.mass as int);
        let inv_mb = fx_div_s(65536, b.mass as int);
        let inv_ia = fx_div_s(65536, a.moment_of_inertia as int);
        let inv_ib = fx_div_s(65536, b.moment_of_inertia as int);
        let imp = self.impulse_s(a, b, dt);
        PairMotion {
            vel_a: v_sub_s(vw(a.velocity), v_scale_s(imp.lin, inv_ma)),
            omega_a: fx_sub_s(a.angular_velocity as int,
                fx_mul_s(inv_ia, fx_add_s(cross_s(ra, imp.lin), imp.ang))),
            vel_b: v_add_s(vw(b.velocity), v_scale_s(imp.lin, inv_mb)),
            omega_b: fx_add_s(b.angular_velocity as int,
                fx_mul_s(inv_ib, fx_add_s(cross_s(rb, imp.lin), imp.ang))),
        }
    }

    /// Creates a weld joint, records each body in the other's
    /// connected-anchor set, and stores the current relative orientation
    /// as the reference angle.
    pub fn new(local_anchor_a: Vec2, local_anchor_b: Vec2, rigidbodys: &mut Vec<Rigidbody>,
        body_a: usize, body_b: usize) -> (r: Self)
        requires
            body_a < old(rigidbodys)@.len(),
            body_b < old(rigidbodys)@.len(),
            body_a != body_b,
        ensures
            final(rigidbodys)@.len() == old(rigidbodys)@.len(),
            forall|k: int| 0 <= k < old(rigidbodys)@.len() && k != body_a && k != body_b ==>
                #[trigger] final(rigidbodys)@[k] == old(rigidbodys)@[k],
            final(rigidbodys)@[body_a as int] == (Rigidbody {
                connected_anchors: final(rigidbodys)@[body_a as int].connected_anchors,
                ..old(rigidbodys)@[body_a as int]
            }),
            final(rigidbodys)@[body_a as int].connected_anchors@
                == old(rigidbodys)@[body_a as int].connected_anchors@.push(body_b),
            final(rigidbodys)@[body_b as int] == (Rigidbody {
                connected_anchors: final(rigidbodys)@[body_b as int].connected_anchors,
                ..old(rigidbodys)@[body_b as int]
            }),
            final(rigidbodys)@[body_b as int].connected_anchors@
                == old(rigidbodys)@[body_b as int].connected_anchors@.push(body_a),
            r.body_a == body_a,
            r.body_b == body_b,
            r.local_anchor_a == local_anchor_a,
            r.local_anchor_b == local_anchor_b,
            r.reference_angle == fx_sub_s(old(rigidbodys)@[body_b as int].angle as int,
                old(rigidbodys)@[body_a as int].angle as int),
            r.beta == 3277,
    {
        let lo = if body_a < body_b { body_a } else { body_b };
        let hi = if body_a < body_b { body_b } else { body_a };
        let pair = take_pair(rigidbodys, lo, hi);
        let (mut a, mut b) = if body_a < body_b {
            (pair.0, pair.1)
        } else {
            (pair.1, pair.0)
        };

        a.connected_anchors.push(body_b);
        b.connected_anchors.push(body_a);
        let reference_angle = fx_sub(b.angle, a.angle);

        let (blo, bhi) = if body_a < body_b {
            (a, b)
        } else {
            (b, a)
        };
        put_pair(rigidbodys, lo, hi, blo, bhi);
        proof {
            lemma_pair_swap(old(rigidbodys)@, lo as int, hi as int,
                final(rigidbodys)@[lo as int], final(rigidbodys)@[hi as int]);
        }

        Self {
            body_a,
            body_b,
            local_anchor_a,
            local_anchor_b,
            reference_angle,
            // Baumgarte factor 0.05 in fixed point.
            beta: 3277,
        }
    }

    /// Solves the velocity-level constraint once: both bodies' velocities
    /// and angular velocities receive the corrective impulse; nothing else
    /// changes.
    #[verifier::rlimit(100)]
    pub fn solve_velocity_constraints(&self, rigidbodys: &mut Vec<Rigidbody>, dt: Fx)
        requires
            self.body_a < old(rigidbodys)@.len(),
            self.body_b < old(rigidbodys)@.len(),
            self.body_a != self.body_b,
        ensures
            weld_solved(*self, old(rigidbodys)@, final(rigidbodys)@, dt as int),
    {
        let lo = if self.body_a < self.body_b { self.body_a } else { self.body_b };
        let hi = if self.body_a < self.body_b { self.body_b } else { self.body_a };
        let pair = take_pair(rigidbodys, lo, hi);
        let (mut a, mut b) = if self.body_a < self.body_b {
            (pair.0, pair.1)
        } else {
            (pair.1, pair.0)
        };

        let ra = self.local_anchor_a.rotated(a.angle);
        let rb = self.local_anchor_b.rotated(b.angle);

        let inv_ma = fx_div(FX_ONE, a.mass);
        let inv_mb = fx_div(FX_ONE, b.mass);
        let inv_ia = fx_div(FX_ONE, a.moment_of_inertia);
        let inv_ib = fx_div(FX_ONE, b.moment_of_inertia);

        // Relative velocity at the anchors, and relative angular velocity.
        let va_anchor = a.velocity.plus(&Vec2::new(fx_mul(fx_neg(a.angular_velocity), ra.y),
            fx_mul(a.angular_velocity, ra.x)));
        let vb_anchor = b.velocity.plus(&Vec2::new(fx_mul(fx_neg(b.angular_velocity), rb.y),
            fx_mul(b.angular_velocity, rb.x)));
        let v_rel = vb_anchor.minus(&va_anchor);
        let w_rel = fx_sub(b.angular_velocity, a.angular_velocity);

        // Position and angle error, fed back as a Baumgarte bias.
        let pa = a.center.plus(&ra);
        let pb = b.center.plus(&rb);
        let pos_err = pb.minus(&pa);
        let ang_err = fx_sub(fx_sub(b.angle, a.angle), self.reference_angle);
        let rate = fx_div(self.beta, dt);

        // Constraint velocity error vector (linear x, linear y, angular).
        let cdx = fx_add(v_rel.x, fx_mul(pos_err.x, rate));
        let cdy = fx_add(v_rel.y, fx_mul(pos_err.y, rate));
        let cdw = fx_add(w_rel, fx_mul(rate, ang_err));

        // Symmetric 3x3 effective-mass matrix.
        let base = fx_add(inv_ma, inv_mb);
        let m11 = fx_add(fx_add(base, fx_mul(fx_mul(inv_ia, ra.y), ra.y)),
            fx_mul(fx_mul(inv_ib, rb.y), rb.y));
        let m12 = fx_sub(fx_mul(fx_mul(fx_neg(inv_ia), ra.x), ra.y),
            fx_mul(fx_mul(inv_ib, rb.x), rb.y));
        let m22 = fx_add(fx_add(base, fx_mul(fx_mul(inv_ia, ra.x), ra.x)),
            fx_mul(fx_mul(inv_ib, rb.x), rb.x));
        let m13 = fx_sub(fx_mul(fx_neg(inv_ia), ra.y), fx_mul(inv_ib, rb.y));
        let m23 = fx_add(fx_mul(inv_ia, ra.x), fx_mul(inv_ib, rb.x));
        let m33 = fx_add(inv_ia, inv_ib);

        let det = fx_add(
            fx_sub(
                fx_mul(m11, fx_sub(fx_mul(m22, m33), fx_mul(m23, m23))),
                fx_mul(m12, fx_sub(fx_mul(m12, m33), fx_mul(m23, m13))),
            ),
            fx_mul(m13, fx_sub(fx_mul(m12, m23), fx_mul(m22, m13))),
        );

        let lin_impulse: Vec2;
        let ang_impulse: Fx;
        if fx_abs(det) > 0 {
            // Adjugate solve of the symmetric system.
            let inv_det = fx_div(FX_ONE, det);
            let c11 = fx_sub(fx_mul(m22, m33), fx_mul(m23, m23));
            let c12 = fx_sub(fx_mul(m13, m23), fx_mul(m12, m33));
            let c13 = fx_sub(fx_mul(m12, m23), fx_mul(m13, m22));
            let c22 = fx_sub(fx_mul(m11, m33), fx_mul(m13, m13));
            let c23 = fx_sub(fx_mul(m13, m12), fx_mul(m11, m23));
            let c33 = fx_sub(fx_mul(m11, m22), fx_mul(m12, m12));
            lin_impulse = Vec2::new(
                fx_neg(fx_mul(fx_add(fx_add(fx_mul(c11, cdx), fx_mul(c12, cdy)),
                    fx_mul(c13, cdw)), inv_det)),
                fx_neg(fx_mul(fx_add(fx_add(fx_mul(c12, cdx), fx_mul(c22, cdy)),
                    fx_mul(c23, cdw)), inv_det)),
            );
            ang_impulse = fx_neg(fx_mul(fx_add(fx_add(fx_mul(c13, cdx), fx_mul(c23, cdy)),
                fx_mul(c33, cdw)), inv_det));
        } else {
            // Diagonal fallback for a degenerate matrix.
            let lx = if fx_abs(m11) > 0 {
                fx_neg(fx_div(cdx, m11))
            } else {
                0
            };
            let ly = if fx_abs(m22) > 0 {
                fx_neg(fx_div(cdy, m22))
            } else {
                0
            };
            lin_impulse = Vec2::new(lx, ly);
            ang_impulse = if fx_abs(m33) > 0 {
                fx_neg(fx_div(cdw, m33))
            } else {
                0
            };
        }

        a.velocity = a.velocity.minus(&lin_impulse.scaled(inv_ma));
        a.angular_velocity = fx_sub(a.angular_velocity,
            fx_mul(inv_ia, fx_add(ra.cross(&lin_impulse), ang_impulse)));

        b.velocity = b.velocity.plus(&lin_impulse.scaled(inv_mb));
        b.angular_velocity = fx_add(b.angular_velocity,
            fx_mul(inv_ib, fx_add(rb.cross(&lin_impulse), ang_impulse)));

        let (blo, bhi) = if self.body_a < self.body_b {
            (a, b)
        } else {
            (b, a)
        };
        put_pair(rigidbodys, lo, hi, blo, bhi);
        proof {
            lemma_pair_swap(old(rigidbodys)@, lo as int, hi as int,
                final(rigidbodys)@[lo as int], final(rigidbodys)@[hi as int]);
            let ps = old(rigidbodys)@;
            let ps2 = final(rigidbodys)@;
            assert(ps2.len() == ps.len());
            assert(forall|k: int| 0 <= k < ps.len() && k != self.body_a && k != self.body_b
                ==> #[trigger] ps2[k] == ps[k]);
            assert(ps2[self.body_a as int] == (Rigidbody {
                velocity: ps2[self.body_a as int].velocity,
                angular_velocity: ps2[self.body_a as int].angular_velocity,
                ..ps[self.body_a as int]
            }));
            assert(ps2[self.body_b as int] == (Rigidbody {
                velocity: ps2[self.body_b as int].velocity,
                angular_velocity: ps2[self.body_b as int].angular_velocity,
                ..ps[self.body_b as int]
            }));
            assert(({
                let m = self.motion_s(ps[self.body_a as int], ps[self.body_b as int],
                    dt as int);
                let na = ps2[self.body_a as int];
                let nb = ps2[self.body_b as int];
                vw(na.velocity) == m.vel_a && na.angular_velocity == m.omega_a
                    && vw(nb.velocity) == m.vel_b && nb.angular_velocity == m.omega_b
            }));
        }
    }
}

} // verus!
