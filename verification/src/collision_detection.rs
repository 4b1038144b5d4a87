//! Narrow-phase collision detection: the Separating Axis Theorem with a
//! circle fast-path, and contact-manifold construction by edge clipping.
//!
//! The SAT outcome (collision or not, and the overlap depth) is specified
//! exactly; a proved lemma states that swapping the two bodies never changes
//! the outcome or the depth.

use vstd::prelude::*;
use crate::fx::{Fx, fx_add, fx_sub, fx_div, fx_abs, fx_add_s, fx_sub_s, fx_mul_s,
    fx_div_s, sat64, abs_i};
use crate::math::{Vec2, V2i, vw, v_add_s, v_sub_s, v_neg_s, v_scale_s, perp_s, dot_s,
    dist_s, mag_s, sqr_mag_s, normalized_s};
use crate::rigidbody::{Rigidbody, nxt};

verus! {

/// Overlaps smaller than this (about 1e-4) count as no collision, to
/// suppress resting-contact jitter.
pub const SAT_EPS: i64 = 7;

/// The running minimum starts at 2^48, the fixed-point encoding of 2^32.
pub const SAT_INIT: i64 = 0x1_0000_0000_0000;

/// The outcome of a SAT test: whether the bodies overlap, the unit
/// separating axis of minimum overlap, the overlap depth along it, and
/// whether the axis came from the first body's edges.
pub struct SatResult {
    pub collided: bool,
    pub axis: Vec2,
    pub overlap: Fx,
    pub from_first: bool,
}

/// The `i`-th edge normal of a polygon: the perpendicular of the edge from
/// vertex `i` to its cyclic successor, normalized so that projection
/// overlaps measure geometric depth rather than depth scaled by the edge
/// length.
pub open spec fn axis_of(vs: Seq<Vec2>, i: int) -> V2i {
    normalized_s(perp_s(v_sub_s(vw(vs[i]), vw(vs[nxt(i, vs.len() as int)]))))
}

/// All edge normals of a polygon, in vertex order.
pub open spec fn axes_of(vs: Seq<Vec2>) -> Seq<V2i> {
    Seq::new(vs.len(), |i: int| axis_of(vs, i))
}

/// The smallest projection of the first `k` vertices onto `axis`
/// (`k >= 1`; the fold starts from vertex 0).
pub open spec fn proj_min(vs: Seq<Vec2>, axis: V2i, k: int) -> int
    decreases k,
{
    if k <= 1 {
        dot_s(axis, vw(vs[0]))
    } else {
        let p = dot_s(axis, vw(vs[k - 1]));
        let m = proj_min(vs, axis, k - 1);
        if p < m {
            p
        } else {
            m
        }
    }
}

/// The largest projection of the first `k` vertices onto `axis`.
pub open spec fn proj_max(vs: Seq<Vec2>, axis: V2i, k: int) -> int
    decreases k,
{
    if k <= 1 {
        dot_s(axis, vw(vs[0]))
    } else {
        let p = dot_s(axis, vw(vs[k - 1]));
        let m = proj_max(vs, axis, k - 1);
        if p > m {
            p
        } else {
            m
        }
    }
}

/// Whether the projection intervals of two polygons on `axis` overlap.
pub open spec fn overlaps_on(p: Seq<Vec2>, q: Seq<Vec2>, axis: V2i) -> bool {
    !(proj_min(p, axis, p.len() as int) > proj_max(q, axis, q.len() as int)
        || proj_min(q, axis, q.len() as int) > proj_max(p, axis, p.len() as int))
}

pub open spec fn min_i(a: int, b: int) -> int {
    if a < b {
        a
    } else {
        b
    }
}

pub open spec fn max_i(a: int, b: int) -> int {
    if a > b {
        a
    } else {
        b
    }
}

/// The interval overlap of the two projections on `axis`; zero when they
/// do not overlap.
pub open spec fn overlap_on(p: Seq<Vec2>, q: Seq<Vec2>, axis: V2i) -> int {
    if overlaps_on(p, q, axis) {
        fx_sub_s(
            min_i(proj_max(p, axis, p.len() as int), proj_max(q, axis, q.len() as int)),
            max_i(proj_min(p, axis, p.len() as int), proj_min(q, axis, q.len() as int)),
        )
    } else {
        0
    }
}

/// Some axis among the first `k` shows a projection gap.
pub open spec fn has_gap(p: Seq<Vec2>, q: Seq<Vec2>, axes: Seq<V2i>, k: int) -> bool {
    exists|i: int| 0 <= i < k && !overlaps_on(p, q, #[trigger] axes[i])
}

/// The running minimum of the interval overlaps over the first `k` axes,
/// updated only on strict decrease.
pub open spec fn fold_overlap(p: Seq<Vec2>, q: Seq<Vec2>, axes: Seq<V2i>, k: int, cur: int) -> int
    decreases k,
{
    if k <= 0 {
        cur
    } else {
        let prev = fold_overlap(p, q, axes, k - 1, cur);
        let o = overlap_on(p, q, axes[k - 1]);
        if o < prev {
            o
        } else {
            prev
        }
    }
}

/// The candidate axes of a SAT test: the first body's edge normals, then
/// the second body's.
pub open spec fn sat_axes(b1: Rigidbody, b2: Rigidbody) -> Seq<V2i> {
    axes_of(b1.vertices@) + axes_of(b2.vertices@)
}

/// The bounding circles of the two bodies do not touch.
pub open spec fn circles_reject(b1: Rigidbody, b2: Rigidbody) -> bool {
    dist_s(vw(b1.center), vw(b2.center)) > fx_add_s(b1.radius as int, b2.radius as int)
}

/// Both bodies have enough vertices to be treated as circles.
pub open spec fn circle_mode(b1: Rigidbody, b2: Rigidbody) -> bool {
    b1.vertices@.len() >= 16 && b2.vertices@.len() >= 16
}

/// The penetration depth in circle mode: radii sum minus center distance.
pub open spec fn circle_overlap_s(b1: Rigidbody, b2: Rigidbody) -> int {
    fx_sub_s(
        fx_add_s(b1.radius as int, b2.radius as int),
        mag_s(v_sub_s(vw(b2.center), vw(b1.center))),
    )
}

/// The minimum interval overlap over all candidate axes.
pub open spec fn sat_fold(b1: Rigidbody, b2: Rigidbody) -> int {
    fold_overlap(b1.vertices@, b2.vertices@, sat_axes(b1, b2), sat_axes(b1, b2).len() as int,
        SAT_INIT as int)
}

/// Whether the SAT test reports a collision.
pub open spec fn sat_collides(b1: Rigidbody, b2: Rigidbody) -> bool {
    if circles_reject(b1, b2) {
        false
    } else if circle_mode(b1, b2) {
        true
    } else {
        !has_gap(b1.vertices@, b2.vertices@, sat_axes(b1, b2), sat_axes(b1, b2).len() as int)
            && SAT_EPS <= sat_fold(b1, b2) < SAT_INIT
    }
}

/// The overlap depth the SAT test reports on collision.
pub open spec fn sat_depth(b1: Rigidbody, b2: Rigidbody) -> int {
    if circle_mode(b1, b2) {
        circle_overlap_s(b1, b2)
    } else {
        sat_fold(b1, b2)
    }
}

proof fn lemma_neg_sq(t: int)
    by (nonlinear_arith)
    ensures
        t * t == (-t) * (-t),
{
}

proof fn lemma_extreme_squares()
    ensures
        fx_mul_s(i64::MAX as int, i64::MAX as int) == i64::MAX as int,
        fx_mul_s(i64::MIN as int, i64::MIN as int) == i64::MAX as int,
{
    assert((0x7fff_ffff_ffff_ffff as int) * (0x7fff_ffff_ffff_ffff as int)
        == 0x3fff_ffff_ffff_ffff_0000_0000_0000_0001) by (nonlinear_arith);
    assert((0x8000_0000_0000_0000 as int) * (0x8000_0000_0000_0000 as int)
        == 0x4000_0000_0000_0000_0000_0000_0000_0000) by (nonlinear_arith);
    vstd::arithmetic::div_mod::lemma_fundamental_div_mod_converse(
        0x3fff_ffff_ffff_ffff_0000_0000_0000_0001, 65536,
        0x3fff_ffff_ffff_ffff_0000_0000_0000, 1);
    vstd::arithmetic::div_mod::lemma_fundamental_div_mod_converse(
        0x4000_0000_0000_0000_0000_0000_0000_0000, 65536,
        0x4000_0000_0000_0000_0000_0000_0000, 0);
}

/// Squaring a saturated difference is insensitive to the order of the
/// subtraction: either both differences are exact negatives of each other,
/// or both squares saturate at `i64::MAX`.
proof fn lemma_sq_sub_sym(a: int, b: int)
    requires
        i64::MIN <= a <= i64::MAX,
        i64::MIN <= b <= i64::MAX,
    ensures
        fx_mul_s(fx_sub_s(a, b), fx_sub_s(a, b)) == fx_mul_s(fx_sub_s(b, a), fx_sub_s(b, a)),
{
    let d = a - b;
    if -(i64::MAX as int) <= d <= i64::MAX as int {
        lemma_neg_sq(d);
        assert(fx_sub_s(a, b) == d);
        assert(fx_sub_s(b, a) == -d);
    } else if d > i64::MAX as int {
        assert(fx_sub_s(a, b) == i64::MAX as int);
        assert(fx_sub_s(b, a) == i64::MIN as int);
        lemma_extreme_squares();
    } else {
        assert(fx_sub_s(a, b) == i64::MIN as int);
        assert(fx_sub_s(b, a) == i64::MAX as int);
        lemma_extreme_squares();
    }
}

/// The squared length of a saturated difference of two stored vectors is
/// the same in either subtraction order, so distances are symmetric.
proof fn lemma_dist_sym(u: Vec2, v: Vec2)
    ensures
        sqr_mag_s(v_sub_s(vw(u), vw(v))) == sqr_mag_s(v_sub_s(vw(v), vw(u))),
        mag_s(v_sub_s(vw(u), vw(v))) == mag_s(v_sub_s(vw(v), vw(u))),
        dist_s(vw(u), vw(v)) == dist_s(vw(v), vw(u)),
{
    lemma_sq_sub_sym(u.x as int, v.x as int);
    lemma_sq_sub_sym(u.y as int, v.y as int);
}

/// The running minimum of overlaps is a least element of the initial value
/// and the overlaps seen so far, and is attained by one of them.
proof fn lemma_fold_props(p: Seq<Vec2>, q: Seq<Vec2>, axes: Seq<V2i>, k: int, cur: int)
    requires
        0 <= k <= axes.len(),
    ensures
        fold_overlap(p, q, axes, k, cur) <= cur,
        forall|i: int| 0 <= i < k ==>
            fold_overlap(p, q, axes, k, cur) <= overlap_on(p, q, #[trigger] axes[i]),
        fold_overlap(p, q, axes, k, cur) == cur || exists|i: int| 0 <= i < k
            && fold_overlap(p, q, axes, k, cur) == overlap_on(p, q, #[trigger] axes[i]),
    decreases k,
{
    if k > 0 {
        lemma_fold_props(p, q, axes, k - 1, cur);
    }
}

/// The Separating Axis Theorem is symmetric: swapping the two bodies
/// changes neither the collision verdict nor the reported overlap depth
/// (the axis direction may flip).
pub proof fn lemma_sat_symmetric(b1: Rigidbody, b2: Rigidbody)
    ensures
        sat_collides(b1, b2) == sat_collides(b2, b1),
        sat_collides(b1, b2) ==> sat_depth(b1, b2) == sat_depth(b2, b1),
{
    let p = b1.vertices@;
    let q = b2.vertices@;
    lemma_dist_sym(b1.center, b2.center);
    assert(circles_reject(b1, b2) == circles_reject(b2, b1));
    assert(circle_mode(b1, b2) == circle_mode(b2, b1));
    assert(circle_overlap_s(b1, b2) == circle_overlap_s(b2, b1));

    let pa = axes_of(p);
    let qa = axes_of(q);
    let ab = sat_axes(b1, b2);
    let ba = sat_axes(b2, b1);
    let na = pa.len() as int;
    let nb = qa.len() as int;

    assert(forall|ax: V2i| overlap_on(p, q, ax) == overlap_on(q, p, ax));
    assert(forall|ax: V2i| overlaps_on(p, q, ax) == overlaps_on(q, p, ax));

    // A gap on one side is a gap on the other: map indices across the
    // concatenations.
    assert(has_gap(p, q, ab, na + nb) ==> has_gap(q, p, ba, na + nb)) by {
        if has_gap(p, q, ab, na + nb) {
            let i = choose|i: int| 0 <= i < na + nb && !overlaps_on(p, q, #[trigger] ab[i]);
            if i < na {
                assert(ba[nb + i] == ab[i]);
                assert(!overlaps_on(q, p, ba[nb + i]));
            } else {
                assert(ba[i - na] == ab[i]);
                assert(!overlaps_on(q, p, ba[i - na]));
            }
        }
    }
    assert(has_gap(q, p, ba, na + nb) ==> has_gap(p, q, ab, na + nb)) by {
        if has_gap(q, p, ba, na + nb) {
            let i = choose|i: int| 0 <= i < na + nb && !overlaps_on(q, p, #[trigger] ba[i]);
            if i < nb {
                assert(ab[na + i] == ba[i]);
                assert(!overlaps_on(p, q, ab[na + i]));
            } else {
                assert(ab[i - nb] == ba[i]);
                assert(!overlaps_on(p, q, ab[i - nb]));
            }
        }
    }

    // The two running minima range over the same overlaps, so they agree.
    let r1 = fold_overlap(p, q, ab, na + nb, SAT_INIT as int);
    let r2 = fold_overlap(q, p, ba, na + nb, SAT_INIT as int);
    lemma_fold_props(p, q, ab, na + nb, SAT_INIT as int);
    lemma_fold_props(q, p, ba, na + nb, SAT_INIT as int);
    assert(r1 <= r2) by {
        if r2 != SAT_INIT as int {
            let j = choose|j: int| 0 <= j < na + nb
                && r2 == overlap_on(q, p, #[trigger] ba[j]);
            if j < nb {
                assert(ab[na + j] == ba[j]);
                assert(r1 <= overlap_on(p, q, ab[na + j]));
            } else {
                assert(ab[j - nb] == ba[j]);
                assert(r1 <= overlap_on(p, q, ab[j - nb]));
            }
        }
    }
    assert(r2 <= r1) by {
        if r1 != SAT_INIT as int {
            let j = choose|j: int| 0 <= j < na + nb
                && r1 == overlap_on(p, q, #[trigger] ab[j]);
            if j < na {
                assert(ba[nb + j] == ab[j]);
                assert(r2 <= overlap_on(q, p, ba[nb + j]));
            } else {
                assert(ba[j - na] == ab[j]);
                assert(r2 <= overlap_on(q, p, ba[j - na]));
            }
        }
    }
    assert(r1 == r2);
}

/// Bodies whose bounding circles do not touch never collide: the SAT test
/// rejects them before any axis is examined.
pub proof fn lemma_circle_reject_no_collision(b1: Rigidbody, b2: Rigidbody)
    ensures
        circles_reject(b1, b2) ==> !sat_collides(b1, b2),
{
}

/// Computes the edge normals of a polygon.
fn get_axes(shape: &Rigidbody) -> (axes: Vec<Vec2>)
    requires
        shape.vertices@.len() >= 1,
    ensures
        axes@.len() == shape.vertices@.len(),
        forall|i: int| 0 <= i < axes@.len() ==>
            vw(#[trigger] axes@[i]) == axis_of(shape.vertices@, i),
{
    let n = shape.vertices.len();
    let mut axes: Vec<Vec2> = Vec::new();
    let mut i: usize = 0;
    while i < n
        invariant
            n == shape.vertices@.len(),
            i <= n,
            axes@.len() == i,
            forall|k: int| 0 <= k < i ==>
                vw(#[trigger] axes@[k]) == axis_of(shape.vertices@, k),
        decreases n - i,
    {
        let p1 = shape.vertices[i];
        let j = if i + 1 == n { 0 } else { i + 1 };
        let p2 = shape.vertices[j];
        let edge = p1.minus(&p2);
        axes.push(edge.perpendicular().normalized());
        i = i + 1;
    }
    axes
}

/// Projects a polygon onto an axis; returns the (min, max) interval packed
/// as a `Vec2`.
fn project(shape: &Rigidbody, axis: &Vec2) -> (r: Vec2)
    requires
        shape.vertices@.len() >= 1,
    ensures
        r.x as int == proj_min(shape.vertices@, vw(*axis), shape.vertices@.len() as int),
        r.y as int == proj_max(shape.vertices@, vw(*axis), shape.vertices@.len() as int),
{
    let n = shape.vertices.len();
    let mut min: Fx = axis.dot(&shape.vertices[0]);
    let mut max: Fx = min;

    let mut i: usize = 1;
    while i < n
        invariant
            n == shape.vertices@.len(),
            1 <= i <= n,
            min as int == proj_min(shape.vertices@, vw(*axis), i as int),
            max as int == proj_max(shape.vertices@, vw(*axis), i as int),
            min <= max,
        decreases n - i,
    {
        let p = axis.dot(&shape.vertices[i]);
        if p < min {
            min = p;
        } else if p > max {
            max = p;
        }
        i = i + 1;
    }
    Vec2 { x: min, y: max }
}

/// Whether two projection intervals overlap.
fn overlaps(interval1: &Vec2, interval2: &Vec2) -> (r: bool)
    ensures
        r == !(interval1.x > interval2.y || interval2.x > interval1.y),
{
    !(interval1.x > interval2.y || interval2.x > interval1.y)
}

/// The length of the intersection of two overlapping intervals; zero for
/// disjoint intervals.
fn get_overlap(interval1: &Vec2, interval2: &Vec2) -> (r: Fx)
    ensures
        r == if !(interval1.x > interval2.y || interval2.x > interval1.y) {
            fx_sub_s(min_i(interval1.y as int, interval2.y as int),
                max_i(interval1.x as int, interval2.x as int))
        } else {
            0
        },
{
    if overlaps(interval1, interval2) {
        let top = if interval1.y < interval2.y {
            interval1.y
        } else {
            interval2.y
        };
        let bot = if interval1.x > interval2.x {
            interval1.x
        } else {
            interval2.x
        };
        return fx_sub(top, bot);
    }
    0
}

/// Runs the Separating Axis Theorem on two bodies.
///
/// Bodies whose bounding circles do not touch never collide; bodies with
/// sixteen or more vertices each are treated as circles; otherwise the
/// minimum interval overlap over all edge normals decides, with overlaps
/// below `SAT_EPS` treated as no collision.
pub fn sat_collision(shape1: &Rigidbody, shape2: &Rigidbody) -> (r: SatResult)
    requires
        shape1.vertices@.len() >= 1,
        shape2.vertices@.len() >= 1,
    ensures
        r.collided == sat_collides(*shape1, *shape2),
        r.collided ==> r.overlap == sat_depth(*shape1, *shape2),
        circles_reject(*shape1, *shape2) ==> !r.collided,
        r.collided && circle_mode(*shape1, *shape2) ==>
            vw(r.axis) == normalized_s(v_sub_s(vw(shape2.center), vw(shape1.center)))
                && r.from_first,
        r.collided && !circle_mode(*shape1, *shape2) ==> exists|i: int|
            0 <= i < sat_axes(*shape1, *shape2).len()
            && vw(r.axis) == sat_axes(*shape1, *shape2)[i]
            && overlap_on(shape1.vertices@, shape2.vertices@, #[trigger] sat_axes(*shape1,
                *shape2)[i]) == r.overlap
            && (r.from_first <==> i < shape1.vertices@.len()),
{
    // Bounding-circle rejection.
    if shape1.center.distance(&shape2.center) > fx_add(shape1.radius, shape2.radius) {
        return SatResult { collided: false, axis: Vec2::zero(), overlap: 0, from_first: false };
    }

    // Treat high-vertex-count polygons as circles.
    if shape1.vertices.len() >= 16 && shape2.vertices.len() >= 16 {
        let delta = shape2.center.minus(&shape1.center);
        let dist = delta.magnitude();
        let overlap = fx_sub(fx_add(shape1.radius, shape2.radius), dist);
        return SatResult { collided: true, axis: delta.normalized(), overlap, from_first: true };
    }

    let mut overlap: Fx = SAT_INIT;
    let mut smallest: Vec2 = Vec2::zero();
    let mut from_first: bool = true;
    let mut found: bool = false;
    let axes1 = get_axes(shape1);
    let axes2 = get_axes(shape2);
    let ghost all_axes = sat_axes(*shape1, *shape2);
    let ghost n1 = shape1.vertices@.len() as int;
    let ghost n2 = shape2.vertices@.len() as int;

    let mut i: usize = 0;
    while i < axes1.len()
        invariant
            axes1@.len() == n1,
            axes2@.len() == n2,
            all_axes == sat_axes(*shape1, *shape2),
            all_axes.len() == n1 + n2,
            shape1.vertices@.len() >= 1,
            shape2.vertices@.len() >= 1,
            !circles_reject(*shape1, *shape2),
            !circle_mode(*shape1, *shape2),
            forall|k: int| 0 <= k < n1 ==> vw(#[trigger] axes1@[k]) == all_axes[k],
            forall|k: int| 0 <= k < n2 ==> vw(#[trigger] axes2@[k]) == all_axes[n1 + k],
            i <= n1,
            !has_gap(shape1.vertices@, shape2.vertices@, all_axes, i as int),
            overlap as int == fold_overlap(shape1.vertices@, shape2.vertices@, all_axes,
                i as int, SAT_INIT as int),
            overlap <= SAT_INIT,
            found <==> overlap < SAT_INIT,
            found ==> exists|k: int| 0 <= k < i
                && vw(smallest) == all_axes[k]
                && overlap_on(shape1.vertices@, shape2.vertices@, #[trigger] all_axes[k])
                    == overlap
                && (from_first <==> k < n1),
        decreases axes1@.len() - i,
    {
        let axis = axes1[i];
        let p1 = project(shape1, &axis);
        let p2 = project(shape2, &axis);

        if !overlaps(&p1, &p2) {
            proof {
                assert(!overlaps_on(shape1.vertices@, shape2.vertices@, all_axes[i as int]));
                assert(has_gap(shape1.vertices@, shape2.vertices@, all_axes,
                    all_axes.len() as int));
            }
            return SatResult { collided: false, axis: Vec2::zero(), overlap: 0, from_first: false };
        } else {
            let o = get_overlap(&p1, &p2);
            if o < overlap {
                overlap = o;
                smallest = axis;
                from_first = true;
                found = true;
            }
        }
        i = i + 1;
    }

    let mut j: usize = 0;
    while j < axes2.len()
        invariant
            axes1@.len() == n1,
            axes2@.len() == n2,
            all_axes == sat_axes(*shape1, *shape2),
            all_axes.len() == n1 + n2,
            shape1.vertices@.len() >= 1,
            shape2.vertices@.len() >= 1,
            !circles_reject(*shape1, *shape2),
            !circle_mode(*shape1, *shape2),
            forall|k: int| 0 <= k < n2 ==> vw(#[trigger] axes2@[k]) == all_axes[n1 + k],
            j <= n2,
            !has_gap(shape1.vertices@, shape2.vertices@, all_axes, n1 + j),
            overlap as int == fold_overlap(shape1.vertices@, shape2.vertices@, all_axes,
                n1 + j, SAT_INIT as int),
            overlap <= SAT_INIT,
            found <==> overlap < SAT_INIT,
            found ==> exists|k: int| 0 <= k < n1 + j
                && vw(smallest) == all_axes[k]
                && overlap_on(shape1.vertices@, shape2.vertices@, #[trigger] all_axes[k])
                    == overlap
                && (from_first <==> k < n1),
        decreases axes2@.len() - j,
    {
        let axis = axes2[j];
        let p1 = project(shape1, &axis);
        let p2 = project(shape2, &axis);

        if !overlaps(&p1, &p2) {
            proof {
                assert(!overlaps_on(shape1.vertices@, shape2.vertices@, all_axes[n1 + j]));
                assert(has_gap(shape1.vertices@, shape2.vertices@, all_axes,
                    all_axes.len() as int));
            }
            return SatResult { collided: false, axis: Vec2::zero(), overlap: 0, from_first: false };
        } else {
            let o = get_overlap(&p1, &p2);
            if o < overlap {
                overlap = o;
                smallest = axis;
                from_first = false;
                found = true;
            }
        }
        j = j + 1;
    }

    if overlap < SAT_EPS {
        return SatResult { collided: false, axis: Vec2::zero(), overlap: 0, from_first: false };
    }
    if !found {
        return SatResult { collided: false, axis: Vec2::zero(), overlap: 0, from_first: false };
    }
    SatResult { collided: true, axis: smallest, overlap, from_first }
}


/// Index of the cyclic predecessor of vertex `i` among `n` vertices.
pub open spec fn prv(i: int, n: int) -> int {
    if i == 0 {
        n - 1
    } else {
        i - 1
    }
}

/// The points kept when the segment `v1`-`v2` is clipped against the side
/// plane through `o` with normal `n`: each endpoint on or in front of the
/// plane, plus the crossing point if the endpoint distances have strictly
/// opposite signs. The signs are compared directly; a fixed-point product
/// would truncate tiny opposite distances to zero and lose the crossing.
pub open spec fn clip_s(v1: V2i, v2: V2i, n: V2i, o: int) -> Seq<V2i> {
    let d1 = fx_sub_s(dot_s(n, v1), o);
    let d2 = fx_sub_s(dot_s(n, v2), o);
    let s0 = Seq::<V2i>::empty();
    let s1 = if d1 >= 0 { s0.push(v1) } else { s0 };
    let s2 = if d2 >= 0 { s1.push(v2) } else { s1 };
    if (d1 > 0 && d2 < 0) || (d1 < 0 && d2 > 0) {
        let u = fx_div_s(d1, fx_sub_s(d1, d2));
        s2.push(v_add_s(v_scale_s(v_sub_s(v2, v1), u), v1))
    } else {
        s2
    }
}

/// Clips one edge against one side plane (a single Sutherland-Hodgman
/// step). At most two points survive.
fn clip(v1: Vec2, v2: Vec2, normal: Vec2, offset: Fx) -> (r: Vec<Vec2>)
    ensures
        r@.len() == clip_s(vw(v1), vw(v2), vw(normal), offset as int).len(),
        forall|i: int| 0 <= i < r@.len() ==>
            vw(#[trigger] r@[i]) == clip_s(vw(v1), vw(v2), vw(normal), offset as int)[i],
        r@.len() <= 2,
{
    let mut clipped: Vec<Vec2> = Vec::new();
    let d1 = fx_sub(normal.dot(&v1), offset);
    let d2 = fx_sub(normal.dot(&v2), offset);

    if d1 >= 0 {
        clipped.push(v1);
    }
    if d2 >= 0 {
        clipped.push(v2);
    }

    if (d1 > 0 && d2 < 0) || (d1 < 0 && d2 > 0) {
        let u = fx_div(d1, fx_sub(d1, d2));
        let e = v2.minus(&v1).scaled(u).plus(&v1);
        clipped.push(e);
    }
    clipped
}

/// The largest projection onto `n` among the first `k` vertices.
pub open spec fn best_proj(vs: Seq<Vec2>, n: V2i, k: int) -> int
    decreases k,
{
    if k <= 0 {
        i64::MIN as int
    } else {
        let p = dot_s(n, vw(vs[k - 1]));
        let m = best_proj(vs, n, k - 1);
        if p > m {
            p
        } else {
            m
        }
    }
}

/// The first index attaining the largest projection onto `n`.
pub open spec fn best_idx(vs: Seq<Vec2>, n: V2i, k: int) -> int
    decreases k,
{
    if k <= 0 {
        0
    } else {
        let p = dot_s(n, vw(vs[k - 1]));
        let m = best_proj(vs, n, k - 1);
        if p > m {
            k - 1
        } else {
            best_idx(vs, n, k - 1)
        }
    }
}

/// The best edge for the manifold: starting from the vertex of maximum
/// projection onto the collision normal, the adjacent edge that is more
/// anti-parallel to the normal, as (tail, head, deepest vertex).
pub open spec fn best_edge_s(vs: Seq<Vec2>, n: V2i) -> (V2i, V2i, V2i) {
    let c = vs.len() as int;
    let idx = best_idx(vs, n, c);
    let v = vw(vs[idx]);
    let v1 = vw(vs[nxt(idx, c)]);
    let v0 = vw(vs[prv(idx, c)]);
    let l = normalized_s(v_sub_s(v, v1));
    let r = normalized_s(v_sub_s(v, v0));
    if dot_s(r, n) <= dot_s(l, n) {
        (v0, v, v)
    } else {
        (v, v1, v)
    }
}

/// Finds the edge most aligned with the collision normal.
fn best_edge(polygon: &Rigidbody, normal: Vec2) -> (r: (Vec2, Vec2, Vec2))
    requires
        polygon.vertices@.len() >= 1,
    ensures
        vw(r.0) == best_edge_s(polygon.vertices@, vw(normal)).0,
        vw(r.1) == best_edge_s(polygon.vertices@, vw(normal)).1,
        vw(r.2) == best_edge_s(polygon.vertices@, vw(normal)).2,
{
    let c = polygon.vertices.len();
    let mut max: Fx = i64::MIN;
    let mut index: usize = 0;
    let mut i: usize = 0;
    while i < c
        invariant
            c == polygon.vertices@.len(),
            i <= c,
            max as int == best_proj(polygon.vertices@, vw(normal), i as int),
            index as int == best_idx(polygon.vertices@, vw(normal), i as int),
            index <= i,
            i > 0 ==> index < i,
        decreases c - i,
    {
        let projection = normal.dot(&polygon.vertices[i]);
        if projection > max {
            max = projection;
            index = i;
        }
        i = i + 1;
    }

    let v = polygon.vertices[index];
    let j1 = if index + 1 == c { 0 } else { index + 1 };
    let v1 = polygon.vertices[j1];
    let j0 = if index == 0 { c - 1 } else { index - 1 };
    let v0 = polygon.vertices[j0];

    let mut l = v.minus(&v1);
    let mut r = v.minus(&v0);
    l.normalize();
    r.normalize();

    if r.dot(&normal) <= l.dot(&normal) {
        (v0, v, v)
    } else {
        (v, v1, v)
    }
}

/// The collision normal oriented from the first body toward the second.
pub open spec fn oriented_normal_s(b1: Rigidbody, b2: Rigidbody, axis: V2i) -> V2i {
    let n0 = normalized_s(axis);
    if dot_s(n0, vw(b1.center)) < dot_s(n0, vw(b2.center)) {
        n0
    } else {
        v_neg_s(n0)
    }
}

/// The contact points of two overlapping bodies for a given separating
/// axis: the incident edge clipped against the reference edge, keeping
/// only the points that stay on or behind the reference face. Fewer than
/// two points after the first clip means no manifold.
pub open spec fn contact_points_s(b1: Rigidbody, b2: Rigidbody, axis: V2i) -> Seq<V2i> {
    let n = oriented_normal_s(b1, b2, axis);
    let e1 = best_edge_s(b1.vertices@, n);
    let e2 = best_edge_s(b2.vertices@, v_neg_s(n));
    let e1v = v_sub_s(e1.1, e1.0);
    let e2v = v_sub_s(e2.1, e2.0);
    let use1 = sat64(abs_i(dot_s(e1v, n))) <= sat64(abs_i(dot_s(e2v, n)));
    let re = if use1 { e1 } else { e2 };
    let inc = if use1 { e2 } else { e1 };
    let refv = normalized_s(v_sub_s(re.1, re.0));
    let o1 = dot_s(refv, re.0);
    let cl = clip_s(inc.0, inc.1, refv, o1);
    if cl.len() < 2 {
        Seq::<V2i>::empty()
    } else {
        let rn = normalized_s(V2i { x: fx_sub_s(re.1.y, re.0.y), y: fx_sub_s(re.0.x, re.1.x) });
        let mx = dot_s(rn, re.2);
        face_points(cl, rn, mx, cl.len() as int)
    }
}

/// The first `k` clipped points that lie on or behind the reference face
/// (inside the reference body's half-plane, since `rn` is the face's
/// outward normal for this winding): every point beyond the face is
/// discarded.
pub open spec fn face_points(cl: Seq<V2i>, rn: V2i, mx: int, k: int) -> Seq<V2i>
    decreases k,
{
    if k <= 0 {
        Seq::<V2i>::empty()
    } else {
        let r = face_points(cl, rn, mx, k - 1);
        if fx_sub_s(dot_s(rn, cl[k - 1]), mx) > 0 {
            r
        } else {
            r.push(cl[k - 1])
        }
    }
}

/// Builds the contact manifold for two overlapping bodies and the winning
/// separating axis: 0, 1 or 2 world-space contact points.
pub fn find_contact_points(polygon1: &Rigidbody, polygon2: &Rigidbody, axis: &Vec2) -> (r: Vec<
    Vec2>)
    requires
        polygon1.vertices@.len() >= 1,
        polygon2.vertices@.len() >= 1,
    ensures
        r@.len() == contact_points_s(*polygon1, *polygon2, vw(*axis)).len(),
        forall|i: int| 0 <= i < r@.len() ==>
            vw(#[trigger] r@[i]) == contact_points_s(*polygon1, *polygon2, vw(*axis))[i],
        r@.len() <= 2,
{
    let n0 = axis.normalized();
    let normal = if n0.dot(&polygon1.center) < n0.dot(&polygon2.center) {
        n0
    } else {
        n0.negated()
    };
    let edge1 = best_edge(polygon1, normal);
    let edge2 = best_edge(polygon2, normal.negated());
    let edge1v = edge1.1.minus(&edge1.0);
    let edge2v = edge2.1.minus(&edge2.0);

    let use_first = fx_abs(edge1v.dot(&normal)) <= fx_abs(edge2v.dot(&normal));
    let ref_edge = if use_first { edge1 } else { edge2 };
    let inc_edge = if use_first { edge2 } else { edge1 };

    let mut refv = ref_edge.1.minus(&ref_edge.0);
    refv.normalize();

    let o1 = refv.dot(&ref_edge.0);
    let mut clipped = clip(inc_edge.0, inc_edge.1, refv, o1);
    if clipped.len() < 2 {
        return Vec::new();
    }

    let ref_normal = Vec2::new(fx_sub(ref_edge.1.y, ref_edge.0.y),
        fx_sub(ref_edge.0.x, ref_edge.1.x)).normalized();

    let max = ref_normal.dot(&ref_edge.2);

    // Keep only the points on or behind the reference face: the
    // perpendicular above is the face's outward normal, so a point past
    // it has left the penetration band.
    let ghost cl_spec = clip_s(vw(inc_edge.0), vw(inc_edge.1), vw(refv), o1 as int);
    let nc = clipped.len();
    let mut kept: Vec<Vec2> = Vec::new();
    let mut k: usize = 0;
    while k < nc
        invariant
            nc == clipped@.len(),
            nc <= 2,
            k <= nc,
            cl_spec.len() == clipped@.len(),
            forall|e: int| 0 <= e < clipped@.len() ==> vw(#[trigger] clipped@[e]) == cl_spec[e],
            kept@.len() <= k,
            kept@.len() == face_points(cl_spec, vw(ref_normal), max as int, k as int).len(),
            forall|e: int| 0 <= e < kept@.len() ==> vw(#[trigger] kept@[e])
                == face_points(cl_spec, vw(ref_normal), max as int, k as int)[e],
        decreases nc - k,
    {
        let d = fx_sub(ref_normal.dot(&clipped[k]), max);
        if d <= 0 {
            kept.push(clipped[k]);
        }
        k = k + 1;
    }

    kept
}

} // verus!
