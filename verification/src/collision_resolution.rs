//! Broad-phase partitioning and the sequential-impulse collision solver.
//!
//! The partitioner buckets bodies into a bounded grid of cells sized to the
//! largest body and merges each cell with its right/down/diagonal
//! neighbors; its output is specified exactly, cell by cell. The solver
//! runs the SAT test on each candidate pair and applies a velocity impulse
//! per contact plus one positional correction.

use vstd::prelude::*;
use crate::fx::{Fx, FX_ONE, FX_TWO, FX_HALF, fx_add, fx_sub, fx_mul, fx_div, fx_neg, fx_abs,
    fx_clamp, fx_from, fx_ceil_units, fx_add_s, fx_sub_s, fx_mul_s, fx_div_s, fx_neg_s, sat64,
    abs_i, tdiv, fx_ceil_units_s};
use crate::math::{Vec2, V2i, vw, v2i, v_add_s, v_sub_s, v_neg_s, v_scale_s, perp_s, dot_s,
    cross_s, normalized_s};
use crate::rigidbody::Rigidbody;
use crate::physics::{PhysicsSystem, motion_only};
use crate::spring::PairMotion;
use crate::collision_detection::{sat_collision, find_contact_points, sat_collides, sat_depth,
    sat_axes, overlap_on, circle_mode, contact_points_s};
use crate::utility::{take_pair, put_pair, lemma_pair_swap, lemma_put_back};

verus! {

/// Normal-speed threshold (about 0.01) below which restitution is zeroed
/// to keep stacked bodies from jittering.
pub const RESTITUTION_VEL_EPS: i64 = 655;

/// The largest positional push per pair (0.05 in fixed point).
pub const MAX_CORRECTION: i64 = 3277;

/// The fraction of the penetration corrected per pair (0.8 in fixed
/// point).
pub const CORRECTION_SHARE: i64 = 52429;

/// The inverse mass used by the impulse solver: zero for a static body.
pub open spec fn inv_mass_s(b: Rigidbody) -> int {
    if b.is_static {
        0
    } else {
        fx_div_s(65536, b.mass as int)
    }
}

/// The inverse moment of inertia used by the impulse solver: zero for a
/// static body.
pub open spec fn inv_inertia_s(b: Rigidbody) -> int {
    if b.is_static {
        0
    } else {
        fx_div_s(65536, b.moment_of_inertia as int)
    }
}

/// The velocity state of a colliding pair as the impulse solver threads it
/// through the contact points.
pub open spec fn pair_state_s(b1: Rigidbody, b2: Rigidbody) -> PairMotion {
    PairMotion {
        vel_a: vw(b1.velocity),
        omega_a: b1.angular_velocity as int,
        vel_b: vw(b2.velocity),
        omega_b: b2.angular_velocity as int,
    }
}

/// One sequential impulse at one contact point: the normal impulse scaled
/// by the effective mass, skipped for separating contacts. Only the
/// velocity state `s` changes; the bodies supply centers, masses and
/// restitution.
pub open spec fn contact_step_s(b1: Rigidbody, b2: Rigidbody, s: PairMotion, contact: V2i,
    normal: V2i) -> PairMotion {
    let m1 = inv_mass_s(b1);
    let m2 = inv_mass_s(b2);
    let i1 = inv_inertia_s(b1);
    let i2 = inv_inertia_s(b2);
    let r1 = v_sub_s(contact, vw(b1.center));
    let r2 = v_sub_s(contact, vw(b2.center));
    let v1 = v_add_s(s.vel_a, v_scale_s(perp_s(r1), s.omega_a));
    let v2 = v_add_s(s.vel_b, v_scale_s(perp_s(r2), s.omega_b));
    let rv = v_sub_s(v2, v1);
    let vel_n = dot_s(rv, normal);
    let e0 = fx_mul_s(fx_add_s(b1.restitution as int, b2.restitution as int), 32768);
    let e = if sat64(abs_i(vel_n)) < RESTITUTION_VEL_EPS { 0 } else { e0 };
    if vel_n > 0 {
        s
    } else {
        let rn1 = cross_s(r1, normal);
        let rn2 = cross_s(r2, normal);
        let k_normal = fx_add_s(fx_add_s(fx_add_s(m1, m2), fx_mul_s(fx_mul_s(rn1, rn1), i1)),
            fx_mul_s(fx_mul_s(rn2, rn2), i2));
        let jn = fx_div_s(fx_mul_s(fx_neg_s(fx_add_s(65536, e)), vel_n), k_normal);
        let impulse = v_scale_s(normal, jn);
        PairMotion {
            vel_a: v_sub_s(s.vel_a, v_scale_s(impulse, m1)),
            omega_a: fx_sub_s(s.omega_a, fx_mul_s(fx_mul_s(rn1, jn), i1)),
            vel_b: v_add_s(s.vel_b, v_scale_s(impulse, m2)),
            omega_b: fx_add_s(s.omega_b, fx_mul_s(fx_mul_s(rn2, jn), i2)),
        }
    }
}

/// The velocity state after impulses at the first `k` contacts, in order.
pub open spec fn contacts_fold_s(b1: Rigidbody, b2: Rigidbody, s: PairMotion, normal: V2i,
    contacts: Seq<V2i>, k: int) -> PairMotion
    decreases k,
{
    if k <= 0 {
        s
    } else {
        contact_step_s(b1, b2, contacts_fold_s(b1, b2, s, normal, contacts, k - 1),
            contacts[k - 1], normal)
    }
}

/// The positional pushes the correction pass gives the two bodies: the
/// clamped penetration share split by inverse mass, zero when the
/// penetration is gone, there is no contact, or both bodies are static.
pub open spec fn pos_corr_s(b1: Rigidbody, b2: Rigidbody, normal: V2i, penetration: int,
    count: int) -> (V2i, V2i) {
    if penetration <= 0 || count == 0 {
        (v2i(0, 0), v2i(0, 0))
    } else {
        let m1 = inv_mass_s(b1);
        let m2 = inv_mass_s(b2);
        let msum = fx_add_s(m1, m2);
        if msum == 0 {
            (v2i(0, 0), v2i(0, 0))
        } else {
            let clamped = if penetration > MAX_CORRECTION {
                MAX_CORRECTION as int
            } else if penetration < 0 {
                0
            } else {
                penetration
            };
            let correction = v_scale_s(v_scale_s(normal, clamped), CORRECTION_SHARE as int);
            (
                v_scale_s(v_neg_s(correction), fx_div_s(m1, msum)),
                v_scale_s(correction, fx_div_s(m2, msum)),
            )
        }
    }
}

/// The impulse normal used by the resolver: the normalized axis, flipped
/// to point from the first body toward the second.
pub open spec fn resolve_normal_s(b1: Rigidbody, b2: Rigidbody, axis: V2i) -> V2i {
    let n0 = normalized_s(axis);
    if dot_s(n0, v_sub_s(vw(b2.center), vw(b1.center))) < 0 {
        v_neg_s(n0)
    } else {
        n0
    }
}

/// The axis a SAT collision can report: in circle mode the center-to-center
/// direction; otherwise some candidate axis whose interval overlap is the
/// reported depth.
pub open spec fn sat_axis_witness(b1: Rigidbody, b2: Rigidbody, axis: V2i) -> bool {
    if circle_mode(b1, b2) {
        axis == normalized_s(v_sub_s(vw(b2.center), vw(b1.center)))
    } else {
        exists|i: int| 0 <= i < sat_axes(b1, b2).len()
            && axis == sat_axes(b1, b2)[i]
            && overlap_on(b1.vertices@, b2.vertices@, #[trigger] sat_axes(b1, b2)[i])
                == sat_depth(b1, b2)
    }
}

impl PhysicsSystem {
    /// Resolves the velocities at one contact point by a normal impulse.
    fn resolve_contact_velocity(body1: &mut Rigidbody, body2: &mut Rigidbody, contact: Vec2,
        normal: Vec2)
        ensures
            *final(body1) == (Rigidbody {
                velocity: final(body1).velocity,
                angular_velocity: final(body1).angular_velocity,
                ..*old(body1)
            }),
            *final(body2) == (Rigidbody {
                velocity: final(body2).velocity,
                angular_velocity: final(body2).angular_velocity,
                ..*old(body2)
            }),
            ({
                let ns = contact_step_s(*old(body1), *old(body2),
                    pair_state_s(*old(body1), *old(body2)), vw(contact), vw(normal));
                vw(final(body1).velocity) == ns.vel_a
                    && final(body1).angular_velocity == ns.omega_a
                    && vw(final(body2).velocity) == ns.vel_b
                    && final(body2).angular_velocity == ns.omega_b
            }),
    {
        // Effective masses; a static body does not respond.
        let m1 = if body1.is_static { 0 } else { fx_div(FX_ONE, body1.mass) };
        let m2 = if body2.is_static { 0 } else { fx_div(FX_ONE, body2.mass) };
        let i1 = if body1.is_static { 0 } else { fx_div(FX_ONE, body1.moment_of_inertia) };
        let i2 = if body2.is_static { 0 } else { fx_div(FX_ONE, body2.moment_of_inertia) };

        // Contact offsets.
        let r1 = contact.minus(&body1.center);
        let r2 = contact.minus(&body2.center);

        // Velocities at the contact.
        let v1 = body1.velocity.plus(&r1.perpendicular().scaled(body1.angular_velocity));
        let v2 = body2.velocity.plus(&r2.perpendicular().scaled(body2.angular_velocity));
        let rv = v2.minus(&v1);

        let vel_n = rv.dot(&normal);

        // Restitution off for resting contacts, to keep stacks quiet.
        let mut e = fx_mul(fx_add(body1.restitution, body2.restitution), FX_HALF);
        if fx_abs(vel_n) < RESTITUTION_VEL_EPS {
            e = 0;
        }

        if vel_n > 0 {
            return;  // separating
        }

        let rn1 = r1.cross(&normal);
        let rn2 = r2.cross(&normal);
        let k_normal = fx_add(fx_add(fx_add(m1, m2), fx_mul(fx_mul(rn1, rn1), i1)),
            fx_mul(fx_mul(rn2, rn2), i2));

        let jn = fx_div(fx_mul(fx_neg(fx_add(FX_ONE, e)), vel_n), k_normal);
        let impulse_n = normal.scaled(jn);

        // Apply the normal impulse.
        body1.velocity = body1.velocity.minus(&impulse_n.scaled(m1));
        body2.velocity = body2.velocity.plus(&impulse_n.scaled(m2));
        body1.angular_velocity = fx_sub(body1.angular_velocity, fx_mul(fx_mul(rn1, jn), i1));
        body2.angular_velocity = fx_add(body2.angular_velocity, fx_mul(fx_mul(rn2, jn), i2));
    }

    /// Pushes a pair apart along the normal by the inverse-mass shares of
    /// the clamped penetration.
    fn positional_correction_pair(body1: &mut Rigidbody, body2: &mut Rigidbody, normal: Vec2,
        penetration: Fx, contact_count: usize)
        ensures
            *final(body1) == (Rigidbody {
                vertices: final(body1).vertices,
                center: final(body1).center,
                ..*old(body1)
            }),
            *final(body2) == (Rigidbody {
                vertices: final(body2).vertices,
                center: final(body2).center,
                ..*old(body2)
            }),
            final(body1).vertices@.len() == old(body1).vertices@.len(),
            final(body2).vertices@.len() == old(body2).vertices@.len(),
            ({
                let deltas = pos_corr_s(*old(body1), *old(body2), vw(normal),
                    penetration as int, contact_count as int);
                &&& vw(final(body1).center) == v_add_s(vw(old(body1).center), deltas.0)
                &&& vw(final(body2).center) == v_add_s(vw(old(body2).center), deltas.1)
                &&& forall|i: int| 0 <= i < old(body1).vertices@.len() ==>
                    vw(#[trigger] final(body1).vertices@[i])
                        == v_add_s(vw(old(body1).vertices@[i]), deltas.0)
                &&& forall|i: int| 0 <= i < old(body2).vertices@.len() ==>
                    vw(#[trigger] final(body2).vertices@[i])
                        == v_add_s(vw(old(body2).vertices@[i]), deltas.1)
            }),
    {
        if penetration <= 0 || contact_count == 0 {
            return;
        }

        // Static bodies have infinite mass.
        let inv_m1 = if body1.is_static { 0 } else { fx_div(FX_ONE, body1.mass) };
        let inv_m2 = if body2.is_static { 0 } else { fx_div(FX_ONE, body2.mass) };
        let inv_m_sum = fx_add(inv_m1, inv_m2);
        if inv_m_sum == 0 {
            return;
        }

        // Share the clamped penetration across the pair.
        let correction = normal.scaled(fx_clamp(penetration, 0, MAX_CORRECTION)).scaled(
            CORRECTION_SHARE);
        body1.translate(correction.negated().scaled(fx_div(inv_m1, inv_m_sum)));
        body2.translate(correction.scaled(fx_div(inv_m2, inv_m_sum)));
    }

}

/// The full pair-resolution relation: what one `check_and_resolve` call
/// does to a candidate pair. Only motion state and pose change; without a
/// collision nothing changes; on collision the velocities are the impulse
/// fold over the contact points of some witnessed minimum axis, and the
/// positional correction shifts both bodies by the inverse-mass shares.
pub open spec fn pair_resolved(b1: Rigidbody, b2: Rigidbody, n1: Rigidbody, n2: Rigidbody) -> bool {
    &&& n1 == (Rigidbody {
        velocity: n1.velocity,
        angular_velocity: n1.angular_velocity,
        vertices: n1.vertices,
        center: n1.center,
        ..b1
    })
    &&& n2 == (Rigidbody {
        velocity: n2.velocity,
        angular_velocity: n2.angular_velocity,
        vertices: n2.vertices,
        center: n2.center,
        ..b2
    })
    &&& n1.vertices@.len() == b1.vertices@.len()
    &&& n2.vertices@.len() == b2.vertices@.len()
    &&& !sat_collides(b1, b2) ==> n1 == b1 && n2 == b2
    &&& sat_collides(b1, b2) ==> exists|axis: V2i| #[trigger] sat_axis_witness(b1, b2, axis) && ({
        let n = resolve_normal_s(b1, b2, axis);
        let contacts = contact_points_s(b1, b2, axis);
        if contacts.len() == 0 {
            n1 == b1 && n2 == b2
        } else {
            let fs = contacts_fold_s(b1, b2, pair_state_s(b1, b2), n, contacts,
                contacts.len() as int);
            let deltas = pos_corr_s(b1, b2, n, sat_depth(b1, b2), contacts.len() as int);
            &&& vw(n1.velocity) == fs.vel_a
            &&& n1.angular_velocity == fs.omega_a
            &&& vw(n2.velocity) == fs.vel_b
            &&& n2.angular_velocity == fs.omega_b
            &&& vw(n1.center) == v_add_s(vw(b1.center), deltas.0)
            &&& vw(n2.center) == v_add_s(vw(b2.center), deltas.1)
            &&& forall|i: int| 0 <= i < b1.vertices@.len() ==>
                vw(#[trigger] n1.vertices@[i]) == v_add_s(vw(b1.vertices@[i]), deltas.0)
            &&& forall|i: int| 0 <= i < b2.vertices@.len() ==>
                vw(#[trigger] n2.vertices@[i]) == v_add_s(vw(b2.vertices@[i]), deltas.1)
        }
    })
}

impl PhysicsSystem {
    /// Tests one candidate pair and, on collision, runs the velocity solve
    /// at every contact point and one positional correction. Without a
    /// collision both bodies are untouched.
    pub fn check_and_resolve(body1: &mut Rigidbody, body2: &mut Rigidbody)
        requires
            old(body1).vertices@.len() >= 1,
            old(body2).vertices@.len() >= 1,
        ensures
            pair_resolved(*old(body1), *old(body2), *final(body1), *final(body2)),
    {
        let result = sat_collision(body1, body2);
        if !result.collided {
            return;
        }

        // Orient the normal from the first body toward the second.
        let n0 = result.axis.normalized();
        let normal = if n0.dot(&body2.center.minus(&body1.center)) < 0 {
            n0.negated()
        } else {
            n0
        };
        let penetration = result.overlap;

        // Build the manifold.
        let contacts = find_contact_points(body1, body2, &result.axis);
        if contacts.is_empty() {
            proof {
                assert(sat_axis_witness(*old(body1), *old(body2), vw(result.axis)));
            }
            return;
        }

        // Velocity solve, one impulse per contact.
        let ghost contacts_spec = contact_points_s(*old(body1), *old(body2), vw(result.axis));
        let nc = contacts.len();
        let mut c: usize = 0;
        while c < nc
            invariant
                nc == contacts@.len(),
                c <= nc,
                contacts_spec.len() == contacts@.len(),
                forall|i: int| 0 <= i < contacts@.len() ==>
                    vw(#[trigger] contacts@[i]) == contacts_spec[i],
                *body1 == (Rigidbody {
                    velocity: body1.velocity,
                    angular_velocity: body1.angular_velocity,
                    ..*old(body1)
                }),
                *body2 == (Rigidbody {
                    velocity: body2.velocity,
                    angular_velocity: body2.angular_velocity,
                    ..*old(body2)
                }),
                ({
                    let fs = contacts_fold_s(*old(body1), *old(body2),
                        pair_state_s(*old(body1), *old(body2)), vw(normal), contacts_spec,
                        c as int);
                    vw(body1.velocity) == fs.vel_a
                        && body1.angular_velocity == fs.omega_a
                        && vw(body2.velocity) == fs.vel_b
                        && body2.angular_velocity == fs.omega_b
                }),
            decreases nc - c,
        {
            let contact = contacts[c];
            Self::resolve_contact_velocity(body1, body2, contact, normal);
            c = c + 1;
        }

        // One positional correction for the pair.
        Self::positional_correction_pair(body1, body2, normal, penetration, contacts.len());

        proof {
            assert(sat_axis_witness(*old(body1), *old(body2), vw(result.axis)));
        }
    }
}


/// The smallest body-center x among the first `k` bodies.
pub open spec fn xmin_r(ps: Seq<Rigidbody>, k: int) -> int
    decreases k,
{
    if k <= 0 {
        i64::MAX as int
    } else {
        let m = xmin_r(ps, k - 1);
        if (ps[k - 1].center.x as int) < m {
            ps[k - 1].center.x as int
        } else {
            m
        }
    }
}

/// The largest body-center x among the first `k` bodies.
pub open spec fn xmax_r(ps: Seq<Rigidbody>, k: int) -> int
    decreases k,
{
    if k <= 0 {
        i64::MIN as int
    } else {
        let m = xmax_r(ps, k - 1);
        if (ps[k - 1].center.x as int) > m {
            ps[k - 1].center.x as int
        } else {
            m
        }
    }
}

/// The smallest body-center y among the first `k` bodies.
pub open spec fn ymin_r(ps: Seq<Rigidbody>, k: int) -> int
    decreases k,
{
    if k <= 0 {
        i64::MAX as int
    } else {
        let m = ymin_r(ps, k - 1);
        if (ps[k - 1].center.y as int) < m {
            ps[k - 1].center.y as int
        } else {
            m
        }
    }
}

/// The largest body-center y among the first `k` bodies.
pub open spec fn ymax_r(ps: Seq<Rigidbody>, k: int) -> int
    decreases k,
{
    if k <= 0 {
        i64::MIN as int
    } else {
        let m = ymax_r(ps, k - 1);
        if (ps[k - 1].center.y as int) > m {
            ps[k - 1].center.y as int
        } else {
            m
        }
    }
}

/// The largest bounding radius among the first `k` bodies.
pub open spec fn radmax_r(ps: Seq<Rigidbody>, k: int) -> int
    decreases k,
{
    if k <= 0 {
        i64::MIN as int
    } else {
        let m = radmax_r(ps, k - 1);
        if (ps[k - 1].radius as int) > m {
            ps[k - 1].radius as int
        } else {
            m
        }
    }
}

/// The grid cell size: twice the largest bounding radius.
pub open spec fn cell_size_s(ps: Seq<Rigidbody>) -> int {
    fx_mul_s(radmax_r(ps, ps.len() as int), 131072)
}

/// Grid width in cells, clamped to `[1, 256]`.
pub open spec fn xsec_s(ps: Seq<Rigidbody>) -> int {
    let raw = fx_ceil_units_s(fx_div_s(fx_sub_s(xmax_r(ps, ps.len() as int),
        xmin_r(ps, ps.len() as int)), cell_size_s(ps)));
    if raw > 256 {
        256
    } else if raw == 0 {
        1
    } else {
        raw
    }
}

/// Grid height in cells, clamped to `[1, 256]`.
pub open spec fn ysec_s(ps: Seq<Rigidbody>) -> int {
    let raw = fx_ceil_units_s(fx_div_s(fx_sub_s(ymax_r(ps, ps.len() as int),
        ymin_r(ps, ps.len() as int)), cell_size_s(ps)));
    if raw > 256 {
        256
    } else if raw == 0 {
        1
    } else {
        raw
    }
}

/// The number of grid cells.
pub open spec fn section_count_s(ps: Seq<Rigidbody>) -> int {
    xsec_s(ps) * ysec_s(ps)
}

/// The x extent of one cell, floored at a small positive value.
pub open spec fn xint_s(ps: Seq<Rigidbody>) -> int {
    let xi = fx_div_s(fx_sub_s(xmax_r(ps, ps.len() as int), xmin_r(ps, ps.len() as int)),
        xsec_s(ps) * 65536);
    if xi <= 7 {
        7
    } else {
        xi
    }
}

/// The y extent of one cell, floored at a small positive value.
pub open spec fn yint_s(ps: Seq<Rigidbody>) -> int {
    let yi = fx_div_s(fx_sub_s(ymax_r(ps, ps.len() as int), ymin_r(ps, ps.len() as int)),
        ysec_s(ps) * 65536);
    if yi <= 7 {
        7
    } else {
        yi
    }
}

/// The x grid coordinate of body `b`: its center x in cell widths,
/// truncated, floored at zero.
pub open spec fn cell_x_s(ps: Seq<Rigidbody>, b: int) -> int {
    let q = fx_div_s(ps[b].center.x as int, xint_s(ps));
    let ip = tdiv(q, 65536);
    if ip < 0 {
        0
    } else {
        ip
    }
}

/// The y grid coordinate of body `b`.
pub open spec fn cell_y_s(ps: Seq<Rigidbody>, b: int) -> int {
    let q = fx_div_s(ps[b].center.y as int, yint_s(ps));
    let ip = tdiv(q, 65536);
    if ip < 0 {
        0
    } else {
        ip
    }
}

/// The cell index of body `b`; out-of-range indices land in the last
/// cell.
pub open spec fn cell_of_s(ps: Seq<Rigidbody>, b: int) -> int {
    let raw = cell_x_s(ps, b) + cell_y_s(ps, b) * xsec_s(ps);
    if raw >= section_count_s(ps) {
        section_count_s(ps) - 1
    } else {
        raw
    }
}

/// The bodies among the first `k` whose cell is `c`, in index order.
pub open spec fn cell_r(ps: Seq<Rigidbody>, c: int, k: int) -> Seq<u16>
    decreases k,
{
    if k <= 0 {
        Seq::<u16>::empty()
    } else {
        let rest = cell_r(ps, c, k - 1);
        if cell_of_s(ps, k - 1) == c {
            rest.push((k - 1) as u16)
        } else {
            rest
        }
    }
}

/// A cell's candidate list: its own bodies followed by those of the right,
/// down, down-right and down-left neighbors, skipping merges that would
/// cross a grid edge.
pub open spec fn merged_s(ps: Seq<Rigidbody>, c: int) -> Seq<u16> {
    let n = ps.len() as int;
    let xs = xsec_s(ps);
    let count = section_count_s(ps);
    let not_right = xs > 1 && (c + 1) % xs != 0;
    let not_left = xs > 1 && c % xs != 0;
    let row_valid = c + xs < count;
    let base = cell_r(ps, c, n);
    let s1 = if not_right { base + cell_r(ps, c + 1, n) } else { base };
    let s2 = if row_valid { s1 + cell_r(ps, c + xs, n) } else { s1 };
    let s3 = if row_valid && not_right { s2 + cell_r(ps, c + xs + 1, n) } else { s2 };
    if row_valid && not_left {
        s3 + cell_r(ps, c + xs - 1, n)
    } else {
        s3
    }
}

/// Every entry of a cell list names one of the first `k` bodies, and the
/// entries are exactly the bodies assigned to that cell.
pub proof fn lemma_cell_r_elems(ps: Seq<Rigidbody>, c: int, k: int)
    requires
        0 <= k <= ps.len(),
        ps.len() <= 65536,
    ensures
        forall|e: int| 0 <= e < cell_r(ps, c, k).len() ==>
            (#[trigger] cell_r(ps, c, k)[e] as int) < k
            && cell_of_s(ps, cell_r(ps, c, k)[e] as int) == c,
        forall|b: int| 0 <= b < k && cell_of_s(ps, b) == c ==>
            cell_r(ps, c, k).contains((b as u16)),
    decreases k,
{
    if k > 0 {
        lemma_cell_r_elems(ps, c, k - 1);
        assert forall|b: int| 0 <= b < k && cell_of_s(ps, b) == c implies
            cell_r(ps, c, k).contains((b as u16)) by {
            if b < k - 1 {
                let e = choose|e: int| 0 <= e < cell_r(ps, c, k - 1).len()
                    && #[trigger] cell_r(ps, c, k - 1)[e] == (b as u16);
                assert(cell_r(ps, c, k)[e] == (b as u16));
            } else {
                assert(cell_r(ps, c, k)[cell_r(ps, c, k).len() - 1] == (b as u16));
            }
        }
    }
}

/// Every entry of a merged candidate list names an existing body.
pub proof fn lemma_merged_elems(ps: Seq<Rigidbody>, c: int)
    requires
        ps.len() <= 65536,
    ensures
        forall|e: int| 0 <= e < merged_s(ps, c).len() ==>
            (#[trigger] merged_s(ps, c)[e] as int) < ps.len(),
{
    let n = ps.len() as int;
    let xs = xsec_s(ps);
    lemma_cell_r_elems(ps, c, n);
    lemma_cell_r_elems(ps, c + 1, n);
    lemma_cell_r_elems(ps, c + xs, n);
    lemma_cell_r_elems(ps, c + xs + 1, n);
    lemma_cell_r_elems(ps, c + xs - 1, n);
}

/// Two bodies assigned to the same cell always share a candidate list:
/// the merged list of their cell (or the last cell's own list).
pub proof fn lemma_same_cell_covered(ps: Seq<Rigidbody>, i: int, j: int)
    requires
        ps.len() <= 65536,
        0 <= i < ps.len(),
        0 <= j < ps.len(),
        cell_of_s(ps, i) == cell_of_s(ps, j),
    ensures
        ({
            let c = cell_of_s(ps, i);
            let list = if c == section_count_s(ps) - 1 {
                cell_r(ps, c, ps.len() as int)
            } else {
                merged_s(ps, c)
            };
            list.contains((i as u16)) && list.contains((j as u16))
        }),
{
    let n = ps.len() as int;
    let c = cell_of_s(ps, i);
    lemma_cell_r_elems(ps, c, n);
    if c != section_count_s(ps) - 1 {
        let base = cell_r(ps, c, n);
        let ei = choose|e: int| 0 <= e < base.len() && base[e] == (i as u16);
        let ej = choose|e: int| 0 <= e < base.len() && base[e] == (j as u16);
        assert(merged_s(ps, c)[ei] == (i as u16));
        assert(merged_s(ps, c)[ej] == (j as u16));
        assert(merged_s(ps, c).contains((i as u16)));
        assert(merged_s(ps, c).contains((j as u16)));
    }
}

proof fn lemma_concat_contains<T>(a: Seq<T>, b: Seq<T>, v: T)
    ensures
        a.contains(v) ==> (a + b).contains(v),
        b.contains(v) ==> (a + b).contains(v),
{
    if a.contains(v) {
        let e = choose|e: int| 0 <= e < a.len() && #[trigger] a[e] == v;
        assert((a + b)[e] == v);
    }
    if b.contains(v) {
        let e = choose|e: int| 0 <= e < b.len() && #[trigger] b[e] == v;
        assert((a + b)[a.len() + e] == v);
    }
}

/// Two bodies in cells that the merge rule joins (the same cell's right,
/// down, down-right or down-left neighbor, away from the grid edges)
/// always share the first cell's candidate list: the partition misses no
/// such pair.
pub proof fn lemma_neighbor_cells_covered(ps: Seq<Rigidbody>, i: int, j: int)
    requires
        ps.len() <= 65536,
        0 <= i < ps.len(),
        0 <= j < ps.len(),
        0 <= cell_of_s(ps, i) < section_count_s(ps) - 1,
        ({
            let ci = cell_of_s(ps, i);
            let cj = cell_of_s(ps, j);
            let xs = xsec_s(ps);
            let count = section_count_s(ps);
            let not_right = xs > 1 && (ci + 1) % xs != 0;
            let not_left = xs > 1 && ci % xs != 0;
            let row_valid = ci + xs < count;
            ||| cj == ci + 1 && not_right
            ||| cj == ci + xs && row_valid
            ||| cj == ci + xs + 1 && row_valid && not_right
            ||| cj == ci + xs - 1 && row_valid && not_left
        }),
    ensures
        merged_s(ps, cell_of_s(ps, i)).contains((i as u16)),
        merged_s(ps, cell_of_s(ps, i)).contains((j as u16)),
{
    let n = ps.len() as int;
    let ci = cell_of_s(ps, i);
    let cj = cell_of_s(ps, j);
    let xs = xsec_s(ps);
    let count = section_count_s(ps);
    let not_right = xs > 1 && (ci + 1) % xs != 0;
    let not_left = xs > 1 && ci % xs != 0;
    let row_valid = ci + xs < count;
    let base = cell_r(ps, ci, n);
    let s1 = if not_right { base + cell_r(ps, ci + 1, n) } else { base };
    let s2 = if row_valid { s1 + cell_r(ps, ci + xs, n) } else { s1 };
    let s3 = if row_valid && not_right { s2 + cell_r(ps, ci + xs + 1, n) } else { s2 };

    lemma_cell_r_elems(ps, ci, n);
    lemma_cell_r_elems(ps, cj, n);

    // The first body sits in the base list; membership survives every
    // later concatenation.
    assert(base.contains((i as u16)));
    if not_right {
        lemma_concat_contains(base, cell_r(ps, ci + 1, n), (i as u16));
    }
    assert(s1.contains((i as u16)));
    if row_valid {
        lemma_concat_contains(s1, cell_r(ps, ci + xs, n), (i as u16));
    }
    assert(s2.contains((i as u16)));
    if row_valid && not_right {
        lemma_concat_contains(s2, cell_r(ps, ci + xs + 1, n), (i as u16));
    }
    assert(s3.contains((i as u16)));
    if row_valid && not_left {
        lemma_concat_contains(s3, cell_r(ps, ci + xs - 1, n), (i as u16));
    }
    assert(merged_s(ps, ci).contains((i as u16)));

    // The second body's cell list is one of the merged segments.
    let lj = cell_r(ps, cj, n);
    assert(lj.contains((j as u16)));
    if cj == ci + 1 && not_right {
        lemma_concat_contains(base, lj, (j as u16));
        assert(s1.contains((j as u16)));
        if row_valid {
            lemma_concat_contains(s1, cell_r(ps, ci + xs, n), (j as u16));
        }
        if row_valid && not_right {
            lemma_concat_contains(s2, cell_r(ps, ci + xs + 1, n), (j as u16));
        }
        if row_valid && not_left {
            lemma_concat_contains(s3, cell_r(ps, ci + xs - 1, n), (j as u16));
        }
    } else if cj == ci + xs && row_valid {
        lemma_concat_contains(s1, lj, (j as u16));
        assert(s2.contains((j as u16)));
        if row_valid && not_right {
            lemma_concat_contains(s2, cell_r(ps, ci + xs + 1, n), (j as u16));
        }
        if row_valid && not_left {
            lemma_concat_contains(s3, cell_r(ps, ci + xs - 1, n), (j as u16));
        }
    } else if cj == ci + xs + 1 && row_valid && not_right {
        lemma_concat_contains(s2, lj, (j as u16));
        assert(s3.contains((j as u16)));
        if row_valid && not_left {
            lemma_concat_contains(s3, cell_r(ps, ci + xs - 1, n), (j as u16));
        }
    } else {
        lemma_concat_contains(s3, lj, (j as u16));
    }
    assert(merged_s(ps, ci).contains((j as u16)));
}

/// The broad-phase output as a mathematical value: every cell's merged
/// candidate list, the last cell unmerged.
pub open spec fn partition_s(ps: Seq<Rigidbody>) -> Seq<Seq<u16>> {
    Seq::new(section_count_s(ps) as nat, |c: int|
        if c < section_count_s(ps) - 1 {
            merged_s(ps, c)
        } else {
            cell_r(ps, c, ps.len() as int)
        })
}

/// The candidate pairs of one list entry `i` against entries `j..`.
pub open spec fn row_pairs(sec: Seq<u16>, i: int, j: int) -> Seq<(u16, u16)>
    decreases sec.len() - j,
{
    if j >= sec.len() {
        Seq::<(u16, u16)>::empty()
    } else {
        seq![(sec[i], sec[j])] + row_pairs(sec, i, j + 1)
    }
}

/// All candidate pairs of one candidate list, in visiting order.
pub open spec fn sec_pairs(sec: Seq<u16>, i: int) -> Seq<(u16, u16)>
    decreases sec.len() - i,
{
    if i >= sec.len() {
        Seq::<(u16, u16)>::empty()
    } else {
        row_pairs(sec, i, i + 1) + sec_pairs(sec, i + 1)
    }
}

/// All candidate pairs of all cells, in cell order.
pub open spec fn cand_pairs(secs: Seq<Seq<u16>>, s: int) -> Seq<(u16, u16)>
    decreases secs.len() - s,
{
    if s >= secs.len() {
        Seq::<(u16, u16)>::empty()
    } else {
        sec_pairs(secs[s], 0) + cand_pairs(secs, s + 1)
    }
}

/// Every candidate pair test the broad phase produces for this body set.
pub open spec fn candidates_s(ps: Seq<Rigidbody>) -> Seq<(u16, u16)> {
    cand_pairs(partition_s(ps), 0)
}

/// Whether a candidate pair is resolved at all: two distinct bodies, both
/// with collision enabled, not exempted by the first body's
/// connected-anchor set.
pub open spec fn eligible_s(ps: Seq<Rigidbody>, a: int, b: int) -> bool {
    &&& a != b
    &&& ps[a].collision
    &&& ps[b].collision
    &&& !ps[a].connected_anchors@.contains(b as usize)
}

/// The pairs the resolver actually resolves, in order: the first
/// occurrence of each eligible candidate pair, canonicalized as
/// (lower index, higher index). Later duplicates of a pair across
/// overlapping merged lists are skipped.
pub open spec fn resolved_pairs(cand: Seq<(u16, u16)>, ps: Seq<Rigidbody>, k: int) -> Seq<(u16,
    u16)>
    decreases k,
{
    if k <= 0 {
        Seq::<(u16, u16)>::empty()
    } else {
        let prev = resolved_pairs(cand, ps, k - 1);
        let a = cand[k - 1].0;
        let b = cand[k - 1].1;
        let lo = if a < b { a } else { b };
        let hi = if a < b { b } else { a };
        if eligible_s(ps, a as int, b as int) && !prev.contains((lo, hi)) {
            prev.push((lo, hi))
        } else {
            prev
        }
    }
}

/// One resolution step on the body sequence: the pair at (lo, hi) is
/// resolved with the lower index as the first body, everything else is
/// untouched.
pub open spec fn resolve_step_rel(ps: Seq<Rigidbody>, ps2: Seq<Rigidbody>, lo: int, hi: int)
    -> bool {
    &&& ps2.len() == ps.len()
    &&& 0 <= lo < hi < ps.len()
    &&& pair_resolved(ps[lo], ps[hi], ps2[lo], ps2[hi])
    &&& forall|k: int| 0 <= k < ps.len() && k != lo && k != hi ==> #[trigger] ps2[k] == ps[k]
}

/// One collision pass: `trace` chains the resolution steps for exactly
/// the resolved pairs of the broad-phase candidates, in order, from the
/// bodies before the pass to the bodies after it.
pub open spec fn resolution_trace_ok(ps0: Seq<Rigidbody>, psf: Seq<Rigidbody>,
    trace: Seq<Seq<Rigidbody>>) -> bool {
    let pairs = resolved_pairs(candidates_s(ps0), ps0, candidates_s(ps0).len() as int);
    &&& trace.len() == pairs.len() + 1
    &&& trace[0] == ps0
    &&& trace[pairs.len() as int] == psf
    &&& forall|k: int| 0 <= k < pairs.len() ==> resolve_step_rel(#[trigger] trace[k],
        trace[k + 1], pairs[k].0 as int, pairs[k].1 as int)
}

fn contains_pair(v: &Vec<(u16, u16)>, x: (u16, u16)) -> (r: bool)
    ensures
        r == v@.contains(x),
{
    let n = v.len();
    let mut k: usize = 0;
    while k < n
        invariant
            n == v@.len(),
            k <= n,
            forall|e: int| 0 <= e < k ==> v@[e] != x,
        decreases n - k,
    {
        if v[k].0 == x.0 && v[k].1 == x.1 {
            return true;
        }
        k = k + 1;
    }
    false
}

fn append_from(dst: &mut Vec<u16>, src: &Vec<u16>)
    ensures
        final(dst)@ == old(dst)@ + src@,
{
    let n = src.len();
    let mut k: usize = 0;
    while k < n
        invariant
            n == src@.len(),
            k <= n,
            dst@ == old(dst)@ + src@.subrange(0, k as int),
        decreases n - k,
    {
        dst.push(src[k]);
        proof {
            assert(old(dst)@ + src@.subrange(0, k as int + 1)
                =~= (old(dst)@ + src@.subrange(0, k as int)).push(src@[k as int]));
        }
        k = k + 1;
    }
    proof {
        assert(src@.subrange(0, n as int) =~= src@);
    }
}

fn contains_index(v: &Vec<usize>, x: usize) -> (r: bool)
    ensures
        r == v@.contains(x),
{
    let n = v.len();
    let mut k: usize = 0;
    while k < n
        invariant
            n == v@.len(),
            k <= n,
            forall|e: int| 0 <= e < k ==> v@[e] != x,
        decreases n - k,
    {
        if v[k] == x {
            return true;
        }
        k = k + 1;
    }
    false
}

impl PhysicsSystem {
    /// Buckets bodies into a bounded grid of cells sized to the largest
    /// body and merges each cell with its right, down, down-right and
    /// down-left neighbors, yielding one candidate list per cell.
    pub fn separate_into_section(&self) -> (r: Vec<Vec<u16>>)
        requires
            self.polygons@.len() <= 65536,
        ensures
            r@.len() == section_count_s(self.polygons@),
            forall|c: int| 0 <= c < r@.len() - 1 ==>
                (#[trigger] r@[c])@ == merged_s(self.polygons@, c),
            r@[r@.len() - 1]@ == cell_r(self.polygons@, r@.len() - 1,
                self.polygons@.len() as int),
            forall|c: int, e: int| 0 <= c < r@.len() && 0 <= e < r@[c]@.len() ==>
                (#[trigger] r@[c]@[e] as int) < self.polygons@.len(),
    {
        let ghost ps = self.polygons@;
        let n = self.polygons.len();

        let mut x_min: Fx = i64::MAX;
        let mut x_max: Fx = i64::MIN;
        let mut y_min: Fx = i64::MAX;
        let mut y_max: Fx = i64::MIN;
        let mut rad_max: Fx = i64::MIN;
        let mut i: usize = 0;
        while i < n
            invariant
                n == ps.len(),
                ps == self.polygons@,
                i <= n,
                x_min as int == xmin_r(ps, i as int),
                x_max as int == xmax_r(ps, i as int),
                y_min as int == ymin_r(ps, i as int),
                y_max as int == ymax_r(ps, i as int),
                rad_max as int == radmax_r(ps, i as int),
            decreases n - i,
        {
            if self.polygons[i].center.x < x_min {
                x_min = self.polygons[i].center.x;
            }
            if self.polygons[i].center.x > x_max {
                x_max = self.polygons[i].center.x;
            }
            if self.polygons[i].center.y < y_min {
                y_min = self.polygons[i].center.y;
            }
            if self.polygons[i].center.y > y_max {
                y_max = self.polygons[i].center.y;
            }
            if self.polygons[i].radius > rad_max {
                rad_max = self.polygons[i].radius;
            }
            i = i + 1;
        }
        let cell_size = fx_mul(rad_max, FX_TWO);

        let xs_raw = fx_ceil_units(fx_div(fx_sub(x_max, x_min), cell_size));
        let x_sections: i64 = if xs_raw > 256 {
            256
        } else if xs_raw == 0 {
            1
        } else {
            xs_raw
        };
        let ys_raw = fx_ceil_units(fx_div(fx_sub(y_max, y_min), cell_size));
        let y_sections: i64 = if ys_raw > 256 {
            256
        } else if ys_raw == 0 {
            1
        } else {
            ys_raw
        };
        proof {
            assert(1 <= x_sections * y_sections <= 65536) by (nonlinear_arith)
                requires
                    1 <= x_sections <= 256,
                    1 <= y_sections <= 256,
            ;
        }
        let section_count: i64 = x_sections * y_sections;

        let x_range = fx_sub(x_max, x_min);
        let mut x_interval = fx_div(x_range, fx_from(x_sections as i32));
        if x_interval <= 7 {
            x_interval = 7;
        }
        let y_range = fx_sub(y_max, y_min);
        let mut y_interval = fx_div(y_range, fx_from(y_sections as i32));
        if y_interval <= 7 {
            y_interval = 7;
        }
        proof {
            assert(x_sections as int == xsec_s(ps));
            assert(y_sections as int == ysec_s(ps));
            assert(x_interval as int == xint_s(ps));
            assert(y_interval as int == yint_s(ps));
        }

        let count = section_count as usize;
        let mut sections: Vec<Vec<u16>> = Vec::new();
        let mut s: usize = 0;
        while s < count
            invariant
                count == section_count_s(ps),
                s <= count,
                sections@.len() == s,
                forall|c: int| 0 <= c < s ==> (#[trigger] sections@[c])@ == cell_r(ps, c, 0),
            decreases count - s,
        {
            sections.push(Vec::new());
            s = s + 1;
        }

        let mut b: usize = 0;
        while b < n
            invariant
                n == ps.len(),
                n <= 65536,
                ps == self.polygons@,
                b <= n,
                count == section_count_s(ps),
                1 <= count <= 65536,
                1 <= x_sections <= 256,
                1 <= y_sections <= 256,
                x_sections as int == xsec_s(ps),
                y_sections as int == ysec_s(ps),
                x_interval as int == xint_s(ps),
                y_interval as int == yint_s(ps),
                x_interval >= 7,
                y_interval >= 7,
                sections@.len() == count,
                forall|c: int| 0 <= c < count ==>
                    (#[trigger] sections@[c])@ == cell_r(ps, c, b as int),
            decreases n - b,
        {
            let qx = fx_div(self.polygons[b].center.x, x_interval);
            let cx: i64 = if qx <= 0 {
                0
            } else {
                ((qx as u64) / 65536) as i64
            };
            let qy = fx_div(self.polygons[b].center.y, y_interval);
            let cy: i64 = if qy <= 0 {
                0
            } else {
                ((qy as u64) / 65536) as i64
            };
            proof {
                assert(cx as int == cell_x_s(ps, b as int));
                assert(cy as int == cell_y_s(ps, b as int));
            }
            proof {
                assert((cy as int) * (x_sections as int) <= 0x8000_0000_0000_0000 * 256)
                    by (nonlinear_arith)
                    requires
                        0 <= cy as int <= 0x8000_0000_0000_0000,
                        0 <= x_sections as int <= 256,
                ;
            }
            let raw: u128 = (cx as u128) + (cy as u128) * (x_sections as u128);
            let index: u128 = if raw >= count as u128 {
                (count - 1) as u128
            } else {
                raw
            };
            proof {
                assert(index as int == cell_of_s(ps, b as int));
            }
            let idx = index as usize;
            let ghost before_cells = sections@;
            let mut cell = sections.remove(idx);
            cell.push(b as u16);
            let ghost new_cell = cell;
            sections.insert(idx, cell);
            proof {
                lemma_put_back(before_cells, idx as int, new_cell);
            }
            b = b + 1;
        }

        // Merge each cell (except the last row and column handling) with
        // its right, down, down-right and down-left neighbors.
        let x = x_sections as usize;
        let mut m: usize = 0;
        while m + 1 < count
            invariant
                n == ps.len(),
                n <= 65536,
                ps == self.polygons@,
                count == section_count_s(ps),
                1 <= count <= 65536,
                1 <= x_sections <= 256,
                1 <= y_sections <= 256,
                x == x_sections as usize,
                x_sections as int == xsec_s(ps),
                y_sections as int == ysec_s(ps),
                count == x_sections * y_sections,
                m < count,
                sections@.len() == count,
                forall|c: int| 0 <= c < m ==> (#[trigger] sections@[c])@ == merged_s(ps, c),
                forall|c: int| m <= c < count ==>
                    (#[trigger] sections@[c])@ == cell_r(ps, c, n as int),
            decreases count - m,
        {
            let is_not_right_edge = x > 1 && (m + 1) % x != 0;
            let is_not_left_edge = x > 1 && m % x != 0;
            let row_valid = m + x < count;

            let mut additions: Vec<u16> = Vec::new();
            // Right neighbor.
            if is_not_right_edge {
                append_from(&mut additions, &sections[m + 1]);
            }
            // Down neighbor.
            if row_valid {
                append_from(&mut additions, &sections[m + x]);
            }
            // Down-right neighbor.
            if row_valid && is_not_right_edge {
                proof {
                    if m + x + 1 == count {
                        assert((x as int) * ((y_sections as int) - 1)
                            == (x as int) * (y_sections as int) - (x as int))
                            by (nonlinear_arith);
                        vstd::arithmetic::div_mod::lemma_mod_multiples_basic(
                            y_sections as int - 1, x as int);
                        assert((m + 1) % (x as int) == 0);
                    }
                }
                append_from(&mut additions, &sections[m + x + 1]);
            }
            // Down-left neighbor.
            if row_valid && is_not_left_edge {
                append_from(&mut additions, &sections[m + x - 1]);
            }

            let ghost before_cells = sections@;
            let mut cur = sections.remove(m);
            append_from(&mut cur, &additions);
            let ghost new_cur = cur;
            sections.insert(m, cur);
            proof {
                lemma_put_back(before_cells, m as int, new_cur);
                assert(sections@[m as int]@ =~= merged_s(ps, m as int));
            }
            m = m + 1;
        }

        proof {
            assert forall|c: int, e: int| 0 <= c < sections@.len()
                && 0 <= e < sections@[c]@.len() implies
                (#[trigger] sections@[c]@[e] as int) < ps.len() by {
                if c < sections@.len() - 1 {
                    lemma_merged_elems(ps, c);
                } else {
                    lemma_cell_r_elems(ps, c, ps.len() as int);
                }
            }
        }
        sections
    }

    /// Runs the narrow phase and the impulse solver over every eligible
    /// candidate pair from the broad phase, each unordered pair at most
    /// once per call even when it appears in several merged lists. Pairs
    /// with collision disabled or joined through a connected anchor are
    /// skipped, a body with collision disabled is never touched, and the
    /// whole pass is exactly the chain of pair resolutions over the
    /// resolved pairs, in first-seen order.
    #[verifier::rlimit(100)]
    pub fn collision_resolution(&mut self)
        requires
            old(self).wf(),
        ensures
            final(self).wf(),
            *final(self) == (PhysicsSystem { polygons: final(self).polygons, ..*old(self) }),
            final(self).polygons@.len() == old(self).polygons@.len(),
            forall|k: int| 0 <= k < old(self).polygons@.len() ==>
                motion_only(#[trigger] old(self).polygons@[k], final(self).polygons@[k]),
            forall|k: int| 0 <= k < old(self).polygons@.len()
                && !(#[trigger] old(self).polygons@[k]).collision ==>
                final(self).polygons@[k] == old(self).polygons@[k],
            exists|trace: Seq<Seq<Rigidbody>>| #[trigger] resolution_trace_ok(
                old(self).polygons@, final(self).polygons@, trace),
    {
        let ghost ps0 = self.polygons@;
        let ghost parts = partition_s(ps0);
        let sections = self.separate_into_section();
        proof {
            assert forall|c: int| 0 <= c < sections@.len() implies
                (#[trigger] sections@[c])@ == parts[c] by {}
        }

        // First pass: flatten every candidate pair test, in cell order.
        let ns = sections.len();
        let mut cand: Vec<(u16, u16)> = Vec::new();
        let mut s: usize = 0;
        while s < ns
            invariant
                *self == *old(self),
                ps0 == self.polygons@,
                parts == partition_s(ps0),
                ns == sections@.len(),
                ns == parts.len(),
                forall|c: int| 0 <= c < ns ==> (#[trigger] sections@[c])@ == parts[c],
                forall|c: int, e: int| 0 <= c < sections@.len()
                    && 0 <= e < sections@[c]@.len() ==>
                    (#[trigger] sections@[c]@[e] as int) < ps0.len(),
                s <= ns,
                candidates_s(ps0) == cand@ + cand_pairs(parts, s as int),
                forall|e: int| 0 <= e < cand@.len() ==>
                    ((#[trigger] cand@[e]).0 as int) < ps0.len()
                    && (cand@[e].1 as int) < ps0.len(),
            decreases ns - s,
        {
            let section_len = sections[s].len();
            let mut i: usize = 0;
            proof {
                assert(cand_pairs(parts, s as int)
                    =~= sec_pairs(parts[s as int], 0) + cand_pairs(parts, s as int + 1));
                assert(candidates_s(ps0) =~= cand@ + sec_pairs(parts[s as int], i as int)
                    + cand_pairs(parts, s as int + 1));
            }
            while i < section_len
                invariant
                    *self == *old(self),
                    ps0 == self.polygons@,
                    parts == partition_s(ps0),
                    ns == sections@.len(),
                    ns == parts.len(),
                    forall|c: int| 0 <= c < ns ==> (#[trigger] sections@[c])@ == parts[c],
                    forall|c: int, e: int| 0 <= c < sections@.len()
                        && 0 <= e < sections@[c]@.len() ==>
                        (#[trigger] sections@[c]@[e] as int) < ps0.len(),
                    s < ns,
                    section_len == parts[s as int].len(),
                    i <= section_len,
                    candidates_s(ps0) == cand@ + sec_pairs(parts[s as int], i as int)
                        + cand_pairs(parts, s as int + 1),
                    forall|e: int| 0 <= e < cand@.len() ==>
                        ((#[trigger] cand@[e]).0 as int) < ps0.len()
                        && (cand@[e].1 as int) < ps0.len(),
                decreases section_len - i,
            {
                let mut j: usize = i + 1;
                proof {
                    assert(sec_pairs(parts[s as int], i as int)
                        =~= row_pairs(parts[s as int], i as int, i as int + 1)
                        + sec_pairs(parts[s as int], i as int + 1));
                    assert(candidates_s(ps0) =~= cand@
                        + row_pairs(parts[s as int], i as int, j as int)
                        + sec_pairs(parts[s as int], i as int + 1)
                        + cand_pairs(parts, s as int + 1));
                }
                while j < section_len
                    invariant
                        *self == *old(self),
                        ps0 == self.polygons@,
                        parts == partition_s(ps0),
                        ns == sections@.len(),
                        ns == parts.len(),
                        forall|c: int| 0 <= c < ns ==> (#[trigger] sections@[c])@ == parts[c],
                        forall|c: int, e: int| 0 <= c < sections@.len()
                            && 0 <= e < sections@[c]@.len() ==>
                            (#[trigger] sections@[c]@[e] as int) < ps0.len(),
                        s < ns,
                        section_len == parts[s as int].len(),
                        i < section_len,
                        i < j <= section_len,
                        candidates_s(ps0) == cand@
                            + row_pairs(parts[s as int], i as int, j as int)
                            + sec_pairs(parts[s as int], i as int + 1)
                            + cand_pairs(parts, s as int + 1),
                        forall|e: int| 0 <= e < cand@.len() ==>
                            ((#[trigger] cand@[e]).0 as int) < ps0.len()
                            && (cand@[e].1 as int) < ps0.len(),
                    decreases section_len - j,
                {
                    let a = sections[s][i];
                    let b = sections[s][j];
                    cand.push((a, b));
                    proof {
                        assert(row_pairs(parts[s as int], i as int, j as int)
                            =~= seq![(a, b)] + row_pairs(parts[s as int], i as int,
                            j as int + 1));
                        assert(candidates_s(ps0) =~= cand@
                            + row_pairs(parts[s as int], i as int, j as int + 1)
                            + sec_pairs(parts[s as int], i as int + 1)
                            + cand_pairs(parts, s as int + 1));
                    }
                    j = j + 1;
                }
                proof {
                    assert(row_pairs(parts[s as int], i as int, section_len as int)
                        =~= Seq::<(u16, u16)>::empty());
                    assert(candidates_s(ps0) =~= cand@
                        + sec_pairs(parts[s as int], i as int + 1)
                        + cand_pairs(parts, s as int + 1));
                }
                i = i + 1;
            }
            proof {
                assert(sec_pairs(parts[s as int], section_len as int)
                    =~= Seq::<(u16, u16)>::empty());
                assert(candidates_s(ps0) =~= cand@ + cand_pairs(parts, s as int + 1));
            }
            s = s + 1;
        }
        proof {
            assert(cand_pairs(parts, ns as int) =~= Seq::<(u16, u16)>::empty());
            assert(cand@ =~= candidates_s(ps0));
        }

        // Second pass: resolve each eligible pair once, in first-seen
        // order, chaining the ghost trace of body states.
        let nc = cand.len();
        let mut done: Vec<(u16, u16)> = Vec::new();
        let ghost mut trace: Seq<Seq<Rigidbody>> = seq![ps0];
        let mut k: usize = 0;
        while k < nc
            invariant
                nc == cand@.len(),
                cand@ == candidates_s(ps0),
                ps0 == old(self).polygons@,
                old(self).wf(),
                k <= nc,
                forall|e: int| 0 <= e < cand@.len() ==>
                    ((#[trigger] cand@[e]).0 as int) < ps0.len()
                    && (cand@[e].1 as int) < ps0.len(),
                self.wf(),
                *self == (PhysicsSystem { polygons: self.polygons, ..*old(self) }),
                self.polygons@.len() == ps0.len(),
                forall|m: int| 0 <= m < ps0.len() ==>
                    motion_only(#[trigger] ps0[m], self.polygons@[m]),
                forall|m: int| 0 <= m < ps0.len() && !(#[trigger] ps0[m]).collision ==>
                    self.polygons@[m] == ps0[m],
                done@ == resolved_pairs(cand@, ps0, k as int),
                trace.len() == done@.len() + 1,
                trace[0] == ps0,
                trace[trace.len() - 1] == self.polygons@,
                forall|m: int| 0 <= m < done@.len() ==> resolve_step_rel(#[trigger] trace[m],
                    trace[m + 1], done@[m].0 as int, done@[m].1 as int),
            decreases nc - k,
        {
            let pr = cand[k];
            let a = pr.0 as usize;
            let b = pr.1 as usize;
            let lo = if a < b { a } else { b };
            let hi = if a < b { b } else { a };

            let eligible = a != b && self.polygons[a].collision && self.polygons[b].collision
                && !contains_index(&self.polygons[a].connected_anchors, b);
            proof {
                assert(motion_only(ps0[a as int], self.polygons@[a as int]));
                assert(motion_only(ps0[b as int], self.polygons@[b as int]));
                assert(eligible == eligible_s(ps0, a as int, b as int));
            }
            let duplicate = contains_pair(&done, (lo as u16, hi as u16));
            if eligible && !duplicate {
                let ghost before = self.polygons@;
                let pair = take_pair(&mut self.polygons, lo, hi);
                let mut b1 = pair.0;
                let mut b2 = pair.1;
                Self::check_and_resolve(&mut b1, &mut b2);
                let ghost g1 = b1;
                let ghost g2 = b2;
                put_pair(&mut self.polygons, lo, hi, b1, b2);
                done.push((lo as u16, hi as u16));
                proof {
                    lemma_pair_swap(before, lo as int, hi as int, g1, g2);
                    assert(resolve_step_rel(before, self.polygons@, lo as int, hi as int));
                    trace = trace.push(self.polygons@);
                }
            }
            k = k + 1;
        }

        proof {
            assert(done@ == resolved_pairs(candidates_s(ps0), ps0,
                candidates_s(ps0).len() as int));
            assert(resolution_trace_ok(ps0, self.polygons@, trace));
        }
    }
}

} // verus!
