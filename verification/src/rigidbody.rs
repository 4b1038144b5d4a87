//! The simulated rigid body: polygon geometry, derived mass properties,
//! and motion state.
//!
//! Derived quantities (area, centroid, bounding radius, moment of inertia)
//! are specified exactly by spec-level folds over the vertex sequence, so a
//! constructed body provably carries the values of the documented formulas.

use vstd::prelude::*;
use crate::fx::{Fx, FX_HALF, FX_SIX, FX_ONE, FX_TAU, fx_add, fx_sub, fx_mul, fx_div, fx_abs,
    fx_from, fx_cos, fx_sin, fx_add_s, fx_sub_s, fx_mul_s, fx_div_s, fx_cos_s, fx_sin_s,
    sat64, abs_i};
use crate::math::{Vec2, V2i, vw, v2i, v_add_s, v_sub_s, v_scale_s, cross_s, dot_s, dist_s,
    rotate_about_s, rotate};
use crate::color::ColorRGBA;
use crate::ode_solver::{rk4_step, rk4_angular_step, rk4_pos_s, rk4_vel_s, rk4_ang_s,
    rk4_omega_s};

verus! {

/// A convex polygonal rigid body.
pub struct Rigidbody {
    pub center: Vec2,
    pub vertices: Vec<Vec2>,
    pub color: ColorRGBA,
    pub indices: Vec<u32>,
    pub radius: Fx,
    pub mass: Fx,
    pub velocity: Vec2,
    pub angular_velocity: Fx,
    pub moment_of_inertia: Fx,
    pub area: Fx,
    pub restitution: Fx,
    pub force: Vec2,
    pub torque: Fx,
    pub angle: Fx,
    pub collision: bool,
    pub gravity_multiplier: Fx,
    pub eternal: bool,
    pub is_static: bool,
    pub connected_anchors: Vec<usize>,
}

/// Index of the cyclic successor of vertex `i` among `n` vertices.
pub open spec fn nxt(i: int, n: int) -> int {
    if i + 1 == n {
        0
    } else {
        i + 1
    }
}

/// Running shoelace sum over the first `k` edges:
/// the fixed-point fold of `cross(v[i], v[i+1 mod n])`.
pub open spec fn shoelace(vs: Seq<Vec2>, k: int) -> int
    decreases k,
{
    if k <= 0 {
        0
    } else {
        fx_add_s(shoelace(vs, k - 1), cross_s(vw(vs[k - 1]), vw(vs[nxt(k - 1, vs.len() as int)])))
    }
}

/// The signed polygon area: half the full shoelace sum.
pub open spec fn area_s(vs: Seq<Vec2>) -> int {
    fx_mul_s(shoelace(vs, vs.len() as int), 32768)
}

/// Running centroid numerator in x over the first `k` edges.
pub open spec fn cent_x_sum(vs: Seq<Vec2>, k: int) -> int
    decreases k,
{
    if k <= 0 {
        0
    } else {
        let i = k - 1;
        let a = vw(vs[i]);
        let b = vw(vs[nxt(i, vs.len() as int)]);
        fx_add_s(cent_x_sum(vs, k - 1), fx_mul_s(fx_add_s(a.x, b.x), cross_s(a, b)))
    }
}

/// Running centroid numerator in y over the first `k` edges.
pub open spec fn cent_y_sum(vs: Seq<Vec2>, k: int) -> int
    decreases k,
{
    if k <= 0 {
        0
    } else {
        let i = k - 1;
        let a = vw(vs[i]);
        let b = vw(vs[nxt(i, vs.len() as int)]);
        fx_add_s(cent_y_sum(vs, k - 1), fx_mul_s(fx_add_s(a.y, b.y), cross_s(a, b)))
    }
}

/// The polygon centroid for the given signed area. An empty polygon has
/// centroid zero; a degenerate polygon (area zero) falls back to its first
/// vertex.
pub open spec fn centroid_s(vs: Seq<Vec2>, area: int) -> V2i {
    if vs.len() == 0 {
        v2i(0, 0)
    } else if area == 0 {
        vw(vs[0])
    } else {
        V2i {
            x: fx_div_s(cent_x_sum(vs, vs.len() as int), fx_mul_s(393216, area)),
            y: fx_div_s(cent_y_sum(vs, vs.len() as int), fx_mul_s(393216, area)),
        }
    }
}

/// Running maximum of vertex distances from `center` over the first `k`
/// vertices.
pub open spec fn radius_run(vs: Seq<Vec2>, center: V2i, k: int) -> int
    decreases k,
{
    if k <= 0 {
        0
    } else {
        let d = dist_s(vw(vs[k - 1]), center);
        let m = radius_run(vs, center, k - 1);
        if d > m {
            d
        } else {
            m
        }
    }
}

/// The bounding radius: the largest vertex distance from the centroid.
pub open spec fn radius_s(vs: Seq<Vec2>, center: V2i) -> int {
    radius_run(vs, center, vs.len() as int)
}

/// Running second-moment sum over the first `k` edges.
pub open spec fn inertia_sum(vs: Seq<Vec2>, k: int) -> int
    decreases k,
{
    if k <= 0 {
        0
    } else {
        let i = k - 1;
        let a = vw(vs[i]);
        let b = vw(vs[nxt(i, vs.len() as int)]);
        let dx2 = fx_add_s(fx_add_s(fx_mul_s(a.x, a.x), fx_mul_s(a.x, b.x)), fx_mul_s(b.x, b.x));
        let dy2 = fx_add_s(fx_add_s(fx_mul_s(a.y, a.y), fx_mul_s(a.y, b.y)), fx_mul_s(b.y, b.y));
        fx_add_s(inertia_sum(vs, k - 1), fx_mul_s(cross_s(a, b), fx_add_s(dx2, dy2)))
    }
}

/// The centroid-relative moment of inertia, scaled by mass over absolute
/// area.
pub open spec fn moi_s(vs: Seq<Vec2>, area: int, center: V2i, mass: int) -> int {
    let io = fx_div_s(inertia_sum(vs, vs.len() as int), 786432);
    let c2 = fx_add_s(fx_mul_s(center.x, center.x), fx_mul_s(center.y, center.y));
    let ic = fx_sub_s(io, fx_mul_s(area, c2));
    fx_mul_s(ic, fx_div_s(mass, sat64(abs_i(area))))
}

/// The derived fields agree with the documented formulas over the vertex
/// list.
pub open spec fn derived_props_ok(b: Rigidbody) -> bool {
    &&& b.area as int == area_s(b.vertices@)
    &&& vw(b.center) == centroid_s(b.vertices@, b.area as int)
    &&& b.radius as int == radius_s(b.vertices@, vw(b.center))
    &&& b.moment_of_inertia as int == moi_s(b.vertices@, b.area as int, vw(b.center), b.mass as int)
}

/// The net constant force on a body for this step: gravity scaled by mass
/// and the per-body gravity multiplier, plus the externally stored force.
pub open spec fn step_force_s(b: Rigidbody, g: V2i) -> V2i {
    v_add_s(v_scale_s(v_scale_s(g, b.mass as int), b.gravity_multiplier as int), vw(b.force))
}

/// The four corner vertices of an axis-aligned rectangle of size
/// `w` by `h` centered on `pos`, in winding order.
pub open spec fn rect_seq_s(w: int, h: int, pos: V2i) -> Seq<Vec2> {
    seq![
        Vec2 {
            x: fx_add_s(fx_sub_s(0, fx_div_s(w, 131072)), pos.x) as i64,
            y: fx_add_s(fx_sub_s(0, fx_div_s(h, 131072)), pos.y) as i64,
        },
        Vec2 {
            x: fx_add_s(fx_div_s(w, 131072), pos.x) as i64,
            y: fx_add_s(fx_sub_s(0, fx_div_s(h, 131072)), pos.y) as i64,
        },
        Vec2 {
            x: fx_add_s(fx_div_s(w, 131072), pos.x) as i64,
            y: fx_add_s(fx_div_s(h, 131072), pos.y) as i64,
        },
        Vec2 {
            x: fx_add_s(fx_sub_s(0, fx_div_s(w, 131072)), pos.x) as i64,
            y: fx_add_s(fx_div_s(h, 131072), pos.y) as i64,
        },
    ]
}

/// The three vertices of an isosceles triangle of size `w` by `h`
/// centered on `pos`.
pub open spec fn tri_seq_s(w: int, h: int, pos: V2i) -> Seq<Vec2> {
    seq![
        Vec2 {
            x: fx_add_s(fx_sub_s(0, fx_div_s(w, 131072)), pos.x) as i64,
            y: fx_add_s(fx_sub_s(0, fx_div_s(h, 131072)), pos.y) as i64,
        },
        Vec2 {
            x: fx_add_s(fx_div_s(w, 131072), pos.x) as i64,
            y: fx_add_s(fx_sub_s(0, fx_div_s(h, 131072)), pos.y) as i64,
        },
        Vec2 {
            x: pos.x as i64,
            y: fx_add_s(fx_div_s(h, 131072), pos.y) as i64,
        },
    ]
}

/// The vertices of a regular polygon on a circle of the given radius
/// around `pos`.
pub open spec fn ngon_seq_s(sides: int, radius: int, pos: V2i) -> Seq<Vec2> {
    Seq::new(sides as nat, |i: int| {
        let p = Rigidbody::ngon_vertex_s(i, sides, radius, pos);
        Vec2 { x: p.x as i64, y: p.y as i64 }
    })
}

/// What one integration sub-step does to a body under gravity `g`: RK4
/// for the linear state, RK4 with zero torque for the angular state, the
/// pose rotated and translated to match, and every other field untouched.
pub open spec fn body_updated(b: Rigidbody, nb: Rigidbody, g: V2i, dt: int) -> bool {
    &&& nb == (Rigidbody {
        vertices: nb.vertices,
        center: nb.center,
        velocity: nb.velocity,
        angular_velocity: nb.angular_velocity,
        angle: nb.angle,
        ..b
    })
    &&& vw(nb.velocity) == rk4_vel_s(vw(b.velocity), dt, b.mass as int, step_force_s(b, g))
    &&& nb.angle as int == rk4_ang_s(b.angle as int, b.angular_velocity as int, dt,
        b.moment_of_inertia as int, 0)
    &&& nb.angular_velocity as int == rk4_omega_s(b.angular_velocity as int, dt,
        b.moment_of_inertia as int, 0)
    &&& vw(nb.center) == v_add_s(vw(b.center), v_sub_s(
        rk4_pos_s(vw(b.center), vw(b.velocity), dt, b.mass as int, step_force_s(b, g)),
        vw(b.center)))
    &&& nb.vertices@.len() == b.vertices@.len()
    &&& forall|i: int| 0 <= i < b.vertices@.len() ==>
        vw(#[trigger] nb.vertices@[i]) == v_add_s(
            rotate_about_s(vw(b.vertices@[i]), vw(b.center),
                fx_sub_s(rk4_ang_s(b.angle as int, b.angular_velocity as int, dt,
                    b.moment_of_inertia as int, 0), b.angle as int)),
            v_sub_s(rk4_pos_s(vw(b.center), vw(b.velocity), dt, b.mass as int,
                step_force_s(b, g)), vw(b.center)))
}

impl Rigidbody {
    /// An axis-aligned rectangle of the given size centered on `pos`, with
    /// derived properties computed.
    pub fn rectangle(width: Fx, height: Fx, pos: Vec2, mass: Fx, restitution: Fx,
        color: ColorRGBA) -> (r: Self)
        ensures
            r.vertices@.len() == 4,
            r.vertices@ == rect_seq_s(width as int, height as int, vw(pos)),
            r.mass == mass,
            r.restitution == restitution,
            r.color == color,
            vw(r.velocity) == v2i(0, 0),
            r.angular_velocity == 0,
            vw(r.force) == v2i(0, 0),
            r.torque == 0,
            r.angle == 0,
            r.collision,
            r.gravity_multiplier == FX_ONE,
            !r.eternal,
            !r.is_static,
            r.connected_anchors@.len() == 0,
            derived_props_ok(r),
    {
        let two = fx_from(2);
        let hw = fx_div(width, two);
        let hh = fx_div(height, two);
        let mut vertices: Vec<Vec2> = Vec::new();
        vertices.push(Vec2::new(fx_add(fx_sub(0, hw), pos.x), fx_add(fx_sub(0, hh), pos.y)));
        vertices.push(Vec2::new(fx_add(hw, pos.x), fx_add(fx_sub(0, hh), pos.y)));
        vertices.push(Vec2::new(fx_add(hw, pos.x), fx_add(hh, pos.y)));
        vertices.push(Vec2::new(fx_add(fx_sub(0, hw), pos.x), fx_add(hh, pos.y)));
        let indices: Vec<u32> = vec![0, 1, 2, 0, 2, 3];
        let mut polygon = Rigidbody {
            angular_velocity: 0,
            area: 0,
            moment_of_inertia: 0,
            mass,
            velocity: Vec2::zero(),
            radius: 0,
            center: Vec2::zero(),
            vertices,
            color,
            indices,
            restitution,
            force: Vec2::zero(),
            torque: 0,
            angle: 0,
            collision: true,
            gravity_multiplier: FX_ONE,
            eternal: false,
            is_static: false,
            connected_anchors: Vec::new(),
        };
        proof {
            assert(polygon.vertices@ =~= rect_seq_s(width as int, height as int, vw(pos)));
        }
        polygon.calculate_properties();
        polygon
    }

    /// An isosceles triangle of the given size centered on `pos`.
    pub fn triangle(width: Fx, height: Fx, pos: Vec2, mass: Fx, restitution: Fx,
        color: ColorRGBA) -> (r: Self)
        ensures
            r.vertices@.len() == 3,
            r.vertices@ == tri_seq_s(width as int, height as int, vw(pos)),
            r.mass == mass,
            r.restitution == restitution,
            r.color == color,
            vw(r.velocity) == v2i(0, 0),
            r.angular_velocity == 0,
            vw(r.force) == v2i(0, 0),
            r.torque == 0,
            r.angle == 0,
            r.collision,
            r.gravity_multiplier == FX_ONE,
            !r.eternal,
            !r.is_static,
            r.connected_anchors@.len() == 0,
            derived_props_ok(r),
    {
        let two = fx_from(2);
        let hw = fx_div(width, two);
        let hh = fx_div(height, two);
        let mut vertices: Vec<Vec2> = Vec::new();
        vertices.push(Vec2::new(fx_add(fx_sub(0, hw), pos.x), fx_add(fx_sub(0, hh), pos.y)));
        vertices.push(Vec2::new(fx_add(hw, pos.x), fx_add(fx_sub(0, hh), pos.y)));
        vertices.push(Vec2::new(pos.x, fx_add(hh, pos.y)));
        let indices: Vec<u32> = vec![0, 1, 2];
        let mut polygon = Rigidbody {
            angular_velocity: 0,
            area: 0,
            moment_of_inertia: 0,
            mass,
            velocity: Vec2::zero(),
            radius: 0,
            center: Vec2::zero(),
            vertices,
            color,
            indices,
            restitution,
            force: Vec2::zero(),
            torque: 0,
            angle: 0,
            collision: true,
            gravity_multiplier: FX_ONE,
            eternal: false,
            is_static: false,
            connected_anchors: Vec::new(),
        };
        proof {
            assert(polygon.vertices@ =~= tri_seq_s(width as int, height as int, vw(pos)));
        }
        polygon.calculate_properties();
        polygon
    }

    /// The `i`-th vertex of a regular polygon: `pos` plus the radius turned
    /// by `i / sides` of a full circle.
    pub open spec fn ngon_vertex_s(i: int, sides: int, radius: int, pos: V2i) -> V2i {
        let angle = fx_div_s(fx_mul_s(sat64(i * 65536), 411775), sat64(sides * 65536));
        v2i(
            fx_add_s(fx_mul_s(radius, fx_cos_s(angle)), pos.x),
            fx_add_s(fx_mul_s(radius, fx_sin_s(angle)), pos.y),
        )
    }

    /// A regular polygon with `sides` vertices on a circle of the given
    /// radius around `pos`.
    pub fn polygon(sides: u32, radius: Fx, pos: Vec2, mass: Fx, restitution: Fx,
        color: ColorRGBA) -> (r: Self)
        requires
            3 <= sides <= 65536,
        ensures
            r.vertices@.len() == sides,
            forall|i: int| 0 <= i < sides ==>
                vw(#[trigger] r.vertices@[i]) == Self::ngon_vertex_s(i, sides as int,
                    radius as int, vw(pos)),
            r.vertices@ == ngon_seq_s(sides as int, radius as int, vw(pos)),
            r.mass == mass,
            r.restitution == restitution,
            r.color == color,
            vw(r.velocity) == v2i(0, 0),
            r.angular_velocity == 0,
            vw(r.force) == v2i(0, 0),
            r.torque == 0,
            r.angle == 0,
            r.collision,
            r.gravity_multiplier == FX_ONE,
            !r.eternal,
            !r.is_static,
            r.connected_anchors@.len() == 0,
            derived_props_ok(r),
    {
        let mut vertices: Vec<Vec2> = Vec::new();
        let mut i: u32 = 0;
        while i < sides
            invariant
                3 <= sides <= 65536,
                i <= sides,
                vertices@.len() == i,
                forall|k: int| 0 <= k < i ==>
                    vw(#[trigger] vertices@[k]) == Self::ngon_vertex_s(k, sides as int,
                        radius as int, vw(pos)),
            decreases sides - i,
        {
            let angle = fx_div(fx_mul(fx_from(i as i32), FX_TAU), fx_from(sides as i32));
            let x = fx_mul(radius, fx_cos(angle));
            let y = fx_mul(radius, fx_sin(angle));
            vertices.push(Vec2::new(fx_add(x, pos.x), fx_add(y, pos.y)));
            i = i + 1;
        }

        let mut indices: Vec<u32> = Vec::new();
        let mut k: u32 = 0;
        while k < sides - 1
            invariant
                3 <= sides <= 65536,
                k <= sides - 1,
                indices@.len() == 3 * k,
            decreases sides - 1 - k,
        {
            indices.push(k);
            indices.push(k + 1);
            indices.push(sides);
            k = k + 1;
        }
        indices.push(0);
        indices.push(sides - 1);
        indices.push(sides);

        let mut polygon = Rigidbody {
            angular_velocity: 0,
            area: 0,
            moment_of_inertia: 0,
            mass,
            velocity: Vec2::zero(),
            color,
            radius,
            center: pos,
            vertices,
            indices,
            restitution,
            force: Vec2::zero(),
            torque: 0,
            angle: 0,
            collision: true,
            gravity_multiplier: FX_ONE,
            eternal: false,
            is_static: false,
            connected_anchors: Vec::new(),
        };
        proof {
            assert(polygon.vertices@ =~= ngon_seq_s(sides as int, radius as int, vw(pos)));
        }
        polygon.calculate_properties();
        polygon
    }

    /// Recomputes every derived property from the vertex list.
    pub fn calculate_properties(&mut self)
        ensures
            *final(self) == (Rigidbody {
                area: final(self).area,
                center: final(self).center,
                radius: final(self).radius,
                moment_of_inertia: final(self).moment_of_inertia,
                ..*old(self)
            }),
            derived_props_ok(*final(self)),
    {
        self.calculate_area();
        self.calculate_center_of_mass();
        self.calculate_radius();
        self.calculate_moment_of_inertia();
    }

    /// The largest vertex distance from the current center.
    pub fn calculate_radius(&mut self)
        ensures
            *final(self) == (Rigidbody { radius: final(self).radius, ..*old(self) }),
            final(self).radius as int == radius_s(old(self).vertices@, vw(old(self).center)),
    {
        let n = self.vertices.len();
        let mut max_radius: Fx = 0;
        let mut i: usize = 0;
        while i < n
            invariant
                n == self.vertices@.len(),
                i <= n,
                *self == *old(self),
                max_radius as int == radius_run(self.vertices@, vw(self.center), i as int),
            decreases n - i,
        {
            let distance = self.vertices[i].distance(&self.center);
            if distance > max_radius {
                max_radius = distance;
            }
            i = i + 1;
        }
        self.radius = max_radius;
    }

    /// The signed shoelace area of the vertex list.
    pub fn calculate_area(&mut self)
        ensures
            *final(self) == (Rigidbody { area: final(self).area, ..*old(self) }),
            final(self).area as int == area_s(old(self).vertices@),
    {
        let n = self.vertices.len();
        let mut acc: Fx = 0;
        let mut i: usize = 0;
        while i < n
            invariant
                n == self.vertices@.len(),
                i <= n,
                *self == *old(self),
                acc as int == shoelace(self.vertices@, i as int),
            decreases n - i,
        {
            let j = if i + 1 == n { 0 } else { i + 1 };
            let cross = self.vertices[i].cross(&self.vertices[j]);
            acc = fx_add(acc, cross);
            i = i + 1;
        }
        self.area = fx_mul(acc, FX_HALF);
    }

    /// The centroid of the polygon, with the degenerate-area fallback.
    pub fn calculate_center_of_mass(&mut self)
        ensures
            *final(self) == (Rigidbody { center: final(self).center, ..*old(self) }),
            vw(final(self).center) == centroid_s(old(self).vertices@, old(self).area as int),
    {
        let n = self.vertices.len();
        if n == 0 {
            self.center = Vec2::zero();
            return;
        }

        let mut sum_cx: Fx = 0;
        let mut sum_cy: Fx = 0;
        let mut i: usize = 0;
        while i < n
            invariant
                n == self.vertices@.len(),
                i <= n,
                *self == *old(self),
                sum_cx as int == cent_x_sum(self.vertices@, i as int),
                sum_cy as int == cent_y_sum(self.vertices@, i as int),
            decreases n - i,
        {
            let j = if i + 1 == n { 0 } else { i + 1 };
            let iv = self.vertices[i];
            let jv = self.vertices[j];
            let cross = iv.cross(&jv);
            sum_cx = fx_add(sum_cx, fx_mul(fx_add(iv.x, jv.x), cross));
            sum_cy = fx_add(sum_cy, fx_mul(fx_add(iv.y, jv.y), cross));
            i = i + 1;
        }

        if self.area == 0 {
            self.center = self.vertices[0];
            return;
        }
        let denom = fx_mul(FX_SIX, self.area);
        self.center = Vec2::new(fx_div(sum_cx, denom), fx_div(sum_cy, denom));
    }

    /// The centroid-relative moment of inertia from the vertex integral.
    pub fn calculate_moment_of_inertia(&mut self)
        ensures
            *final(self) == (Rigidbody {
                moment_of_inertia: final(self).moment_of_inertia,
                ..*old(self)
            }),
            final(self).moment_of_inertia as int == moi_s(old(self).vertices@,
                old(self).area as int, vw(old(self).center), old(self).mass as int),
    {
        let n = self.vertices.len();
        let mut acc: Fx = 0;
        let mut i: usize = 0;
        while i < n
            invariant
                n == self.vertices@.len(),
                i <= n,
                *self == *old(self),
                acc as int == inertia_sum(self.vertices@, i as int),
            decreases n - i,
        {
            let j = if i + 1 == n { 0 } else { i + 1 };
            let p0 = self.vertices[i];
            let p1 = self.vertices[j];
            let cross = p0.cross(&p1);
            let dx2 = fx_add(fx_add(fx_mul(p0.x, p0.x), fx_mul(p0.x, p1.x)), fx_mul(p1.x, p1.x));
            let dy2 = fx_add(fx_add(fx_mul(p0.y, p0.y), fx_mul(p0.y, p1.y)), fx_mul(p1.y, p1.y));
            acc = fx_add(acc, fx_mul(cross, fx_add(dx2, dy2)));
            i = i + 1;
        }
        let inertia_origin = fx_div(acc, fx_from(12));

        let c2 = fx_add(fx_mul(self.center.x, self.center.x), fx_mul(self.center.y, self.center.y));
        let inertia_centroid = fx_sub(inertia_origin, fx_mul(self.area, c2));

        self.moment_of_inertia = fx_mul(inertia_centroid, fx_div(self.mass, fx_abs(self.area)));
    }

    /// Shifts every vertex and the center by `pos`.
    pub fn translate(&mut self, pos: Vec2)
        ensures
            *final(self) == (Rigidbody {
                vertices: final(self).vertices,
                center: final(self).center,
                ..*old(self)
            }),
            vw(final(self).center) == v_add_s(vw(old(self).center), vw(pos)),
            final(self).vertices@.len() == old(self).vertices@.len(),
            forall|i: int| 0 <= i < old(self).vertices@.len() ==>
                vw(#[trigger] final(self).vertices@[i]) == v_add_s(vw(old(self).vertices@[i]),
                    vw(pos)),
    {
        let n = self.vertices.len();
        let mut i: usize = 0;
        while i < n
            invariant
                n == self.vertices@.len(),
                i <= n,
                *self == (Rigidbody { vertices: self.vertices, ..*old(self) }),
                forall|k: int| 0 <= k < i ==>
                    vw(#[trigger] self.vertices@[k]) == v_add_s(vw(old(self).vertices@[k]),
                        vw(pos)),
                forall|k: int| i <= k < n ==>
                    #[trigger] self.vertices@[k] == old(self).vertices@[k],
            decreases n - i,
        {
            let moved = self.vertices[i].plus(&pos);
            self.vertices[i] = moved;
            i = i + 1;
        }
        let new_center = self.center.plus(&pos);
        self.center = new_center;
    }

    /// Moves the body so that its center lands on `pos`.
    pub fn move_to(&mut self, pos: Vec2)
        ensures
            *final(self) == (Rigidbody {
                vertices: final(self).vertices,
                center: final(self).center,
                ..*old(self)
            }),
            vw(final(self).center) == v_add_s(vw(old(self).center),
                v_sub_s(vw(pos), vw(old(self).center))),
            final(self).vertices@.len() == old(self).vertices@.len(),
            forall|i: int| 0 <= i < old(self).vertices@.len() ==>
                vw(#[trigger] final(self).vertices@[i]) == v_add_s(vw(old(self).vertices@[i]),
                    v_sub_s(vw(pos), vw(old(self).center))),
    {
        let diff = pos.minus(&self.center);
        self.translate(diff);
    }

    /// Rotates every vertex about the current center by `angle`; the center
    /// and the stored orientation are untouched.
    pub fn rotate(&mut self, angle: Fx)
        ensures
            *final(self) == (Rigidbody { vertices: final(self).vertices, ..*old(self) }),
            final(self).vertices@.len() == old(self).vertices@.len(),
            forall|i: int| 0 <= i < old(self).vertices@.len() ==>
                vw(#[trigger] final(self).vertices@[i]) == rotate_about_s(
                    vw(old(self).vertices@[i]), vw(old(self).center), angle as int),
    {
        let n = self.vertices.len();
        let mut i: usize = 0;
        while i < n
            invariant
                n == self.vertices@.len(),
                i <= n,
                *self == (Rigidbody { vertices: self.vertices, ..*old(self) }),
                forall|k: int| 0 <= k < i ==>
                    vw(#[trigger] self.vertices@[k]) == rotate_about_s(
                        vw(old(self).vertices@[k]), vw(old(self).center), angle as int),
                forall|k: int| i <= k < n ==>
                    #[trigger] self.vertices@[k] == old(self).vertices@[k],
            decreases n - i,
        {
            let turned = rotate(self.vertices[i], self.center, angle);
            self.vertices[i] = turned;
            i = i + 1;
        }
    }

    pub fn change_color(&mut self, color: ColorRGBA)
        ensures
            *final(self) == (Rigidbody { color, ..*old(self) }),
    {
        self.color = color;
    }

    /// Advances the body one sub-step under gravity `g`: RK4 for the linear
    /// state, RK4 with zero torque for the angular state, then the pose is
    /// moved to match.
    pub fn update_rigidbody(&mut self, g: Vec2, dt: Fx)
        ensures
            body_updated(*old(self), *final(self), vw(g), dt as int),
    {
        let force = g.scaled(self.mass).scaled(self.gravity_multiplier).plus(&self.force);
        let step = rk4_step(self.center, self.velocity, dt, self.mass, force);
        let new_x = step.0;
        let new_v = step.1;
        let ang = rk4_angular_step(self.angle, self.angular_velocity, dt,
            self.moment_of_inertia, 0);
        let new_angle = ang.0;
        let new_omega = ang.1;

        let diff_angle = fx_sub(new_angle, self.angle);
        self.rotate(diff_angle);
        self.angle = new_angle;

        self.angular_velocity = new_omega;
        self.velocity = new_v;
        let diff_pos = new_x.minus(&self.center);
        self.translate(diff_pos);
    }

    /// The kinetic energy carried by the body, floored at zero.
    pub open spec fn kinetic_energy_s(b: Rigidbody) -> int {
        let lin = fx_mul_s(fx_mul_s(32768, b.mass as int),
            dot_s(vw(b.velocity), vw(b.velocity)));
        let ang = fx_mul_s(fx_mul_s(fx_mul_s(32768, b.moment_of_inertia as int),
            b.angular_velocity as int), b.angular_velocity as int);
        let total = fx_add_s(lin, ang);
        if total < 0 {
            0
        } else {
            total
        }
    }

    /// The body's kinetic energy (translational plus rotational).
    pub fn calculate_energy(&self) -> (r: Fx)
        ensures
            r == Self::kinetic_energy_s(*self),
            0 <= r,
    {
        let lin = fx_mul(fx_mul(FX_HALF, self.mass), self.velocity.dot(&self.velocity));
        let ang = fx_mul(fx_mul(fx_mul(FX_HALF, self.moment_of_inertia),
            self.angular_velocity), self.angular_velocity);
        let total = fx_add(lin, ang);
        if total < 0 {
            0
        } else {
            total
        }
    }
}

} // verus!
