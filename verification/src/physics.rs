//! The physics system: the body, spring and joint collections, and the
//! driver that advances one fixed time slice.
//!
//! The step driver's contract is the staged composition itself: there are
//! intermediate body sequences, one per stage, chained by the exact
//! per-pair and per-body relations of the collision pass, the spring pass,
//! the integration pass and the two joint passes, in that order.

use vstd::prelude::*;
use crate::fx::Fx;
use crate::math::{Vec2, V2i, vw, v2i};
use crate::rigidbody::{Rigidbody, body_updated};
use crate::spring::{Spring, spring_applied};
use crate::pivot_joint::{PivotJoint, pivot_solved};
use crate::weld_joint::{WeldJoint, weld_solved};
use crate::energy::Energy;
use crate::collision_resolution::resolution_trace_ok;
use crate::utility::lemma_put_back;

verus! {

/// Global simulation parameters consumed by the step driver.
pub struct Parameters {
    /// Fixed time-step size; zero means the caller derives it from the
    /// wall clock.
    pub delta_time: Fx,
    /// Physics sub-steps per frame.
    pub updates_per_frame: u32,
    /// Multiplier applied to wall-clock time steps.
    pub time_multiplier: Fx,
    /// Whether collision impulses include the angular response.
    pub angular_velocity: bool,
    /// Whether gravity acts at all.
    pub gravity: bool,
    /// Bodies farther than this from the origin are despawned unless
    /// eternal; zero disables the bound.
    pub world_size: Fx,
    /// The gravity acceleration vector.
    pub gravity_force: Vec2,
    /// Whether the simulation advances.
    pub is_running: bool,
}

/// The simulation state: index-addressed bodies, springs and joints.
pub struct PhysicsSystem {
    pub springs: Vec<Spring>,
    pub polygons: Vec<Rigidbody>,
    pub weld_joints: Vec<WeldJoint>,
    pub pivot_joints: Vec<PivotJoint>,
    pub dt: Fx,
    pub energy: Energy,
}

/// `b` differs from `a` at most in its motion state and pose; mass
/// properties, flags, references and render data are untouched, and the
/// vertex count is preserved.
pub open spec fn motion_only(a: Rigidbody, b: Rigidbody) -> bool {
    b == (Rigidbody {
        velocity: b.velocity,
        angular_velocity: b.angular_velocity,
        angle: b.angle,
        center: b.center,
        vertices: b.vertices,
        ..a
    }) && b.vertices@.len() == a.vertices@.len()
}

/// The gravity vector one step uses: the configured acceleration when
/// gravity is enabled, zero otherwise.
pub open spec fn step_gravity_s(p: Parameters) -> V2i {
    if p.gravity {
        vw(p.gravity_force)
    } else {
        v2i(0, 0)
    }
}

/// The spring pass: `trace` chains one spring application per spring, in
/// order, from the bodies before the pass to the bodies after it.
pub open spec fn springs_stage_ok(springs: Seq<Spring>, dt: int, ps0: Seq<Rigidbody>,
    psf: Seq<Rigidbody>, trace: Seq<Seq<Rigidbody>>) -> bool {
    &&& trace.len() == springs.len() + 1
    &&& trace[0] == ps0
    &&& trace[springs.len() as int] == psf
    &&& forall|k: int| 0 <= k < springs.len() ==> spring_applied(#[trigger] springs[k],
        trace[k], trace[k + 1], dt)
}

/// The integration pass: every body advances one RK4 sub-step under the
/// same gravity vector.
pub open spec fn integrate_stage_ok(ps0: Seq<Rigidbody>, psf: Seq<Rigidbody>, g: V2i,
    dt: int) -> bool {
    &&& psf.len() == ps0.len()
    &&& forall|k: int| 0 <= k < ps0.len() ==> body_updated(#[trigger] ps0[k], psf[k], g, dt)
}

/// The weld pass: `trace` chains one solver call per weld joint, in
/// order.
pub open spec fn welds_stage_ok(joints: Seq<WeldJoint>, dt: int, ps0: Seq<Rigidbody>,
    psf: Seq<Rigidbody>, trace: Seq<Seq<Rigidbody>>) -> bool {
    &&& trace.len() == joints.len() + 1
    &&& trace[0] == ps0
    &&& trace[joints.len() as int] == psf
    &&& forall|k: int| 0 <= k < joints.len() ==> weld_solved(#[trigger] joints[k], trace[k],
        trace[k + 1], dt)
}

/// The pivot pass: `trace` chains one solver call per pivot joint, in
/// order.
pub open spec fn pivots_stage_ok(joints: Seq<PivotJoint>, dt: int, ps0: Seq<Rigidbody>,
    psf: Seq<Rigidbody>, trace: Seq<Seq<Rigidbody>>) -> bool {
    &&& trace.len() == joints.len() + 1
    &&& trace[0] == ps0
    &&& trace[joints.len() as int] == psf
    &&& forall|k: int| 0 <= k < joints.len() ==> pivot_solved(#[trigger] joints[k], trace[k],
        trace[k + 1], dt)
}

impl PhysicsSystem {
    /// Referential integrity: every spring and joint names two distinct
    /// existing bodies, and every body is a polygon with at least one
    /// vertex.
    pub open spec fn wf(self) -> bool {
        &&& self.polygons@.len() <= 65536
        &&& forall|i: int| 0 <= i < self.springs@.len() ==> {
            &&& (#[trigger] self.springs@[i]).body_a < self.polygons@.len()
            &&& self.springs@[i].body_b < self.polygons@.len()
            &&& self.springs@[i].body_a != self.springs@[i].body_b
        }
        &&& forall|i: int| 0 <= i < self.pivot_joints@.len() ==> {
            &&& (#[trigger] self.pivot_joints@[i]).body_a < self.polygons@.len()
            &&& self.pivot_joints@[i].body_b < self.polygons@.len()
            &&& self.pivot_joints@[i].body_a != self.pivot_joints@[i].body_b
        }
        &&& forall|i: int| 0 <= i < self.weld_joints@.len() ==> {
            &&& (#[trigger] self.weld_joints@[i]).body_a < self.polygons@.len()
            &&& self.weld_joints@[i].body_b < self.polygons@.len()
            &&& self.weld_joints@[i].body_a != self.weld_joints@[i].body_b
        }
        &&& forall|i: int| 0 <= i < self.polygons@.len() ==>
            (#[trigger] self.polygons@[i]).vertices@.len() >= 1
    }

    /// Advances one fixed time slice: resolve collisions, apply spring
    /// forces, integrate all bodies under the selected gravity, then
    /// solve the weld and pivot constraints, in that order. The outcome
    /// is pinned stage by stage: intermediate body sequences exist that
    /// the collision trace, the spring trace, the pointwise integration
    /// relation and the two joint traces chain together.
    #[verifier::rlimit(60)]
    pub fn update_physics(&mut self, parameters: &Parameters)
        requires
            old(self).wf(),
        ensures
            final(self).wf(),
            *final(self) == (PhysicsSystem { polygons: final(self).polygons, ..*old(self) }),
            final(self).polygons@.len() == old(self).polygons@.len(),
            forall|k: int| 0 <= k < old(self).polygons@.len() ==>
                motion_only(#[trigger] old(self).polygons@[k], final(self).polygons@[k]),
            exists|p1: Seq<Rigidbody>, p2: Seq<Rigidbody>, p3: Seq<Rigidbody>,
                p4: Seq<Rigidbody>, tr: Seq<Seq<Rigidbody>>, ts: Seq<Seq<Rigidbody>>,
                tw: Seq<Seq<Rigidbody>>, tp: Seq<Seq<Rigidbody>>|
                #![trigger resolution_trace_ok(old(self).polygons@, p1, tr),
                    springs_stage_ok(old(self).springs@, old(self).dt as int, p1, p2, ts),
                    welds_stage_ok(old(self).weld_joints@, old(self).dt as int, p3, p4, tw),
                    pivots_stage_ok(old(self).pivot_joints@, old(self).dt as int, p4,
                        final(self).polygons@, tp)]
                {
                    &&& resolution_trace_ok(old(self).polygons@, p1, tr)
                    &&& springs_stage_ok(old(self).springs@, old(self).dt as int, p1, p2, ts)
                    &&& integrate_stage_ok(p2, p3, step_gravity_s(*parameters),
                        old(self).dt as int)
                    &&& welds_stage_ok(old(self).weld_joints@, old(self).dt as int, p3, p4,
                        tw)
                    &&& pivots_stage_ok(old(self).pivot_joints@, old(self).dt as int, p4,
                        final(self).polygons@, tp)
                },
    {
        let ghost ps_start = self.polygons@;
        self.collision_resolution();
        let ghost p1 = self.polygons@;
        let ghost tr = choose|t: Seq<Seq<Rigidbody>>| resolution_trace_ok(ps_start, p1, t);

        let g: Vec2 = if parameters.gravity {
            parameters.gravity_force
        } else {
            Vec2::zero()
        };
        let dt = self.dt;
        proof {
            assert(vw(g) == step_gravity_s(*parameters));
        }

        let ns = self.springs.len();
        let ghost mut ts_trace: Seq<Seq<Rigidbody>> = seq![p1];
        let mut i: usize = 0;
        while i < ns
            invariant
                self.wf(),
                ns == self.springs@.len(),
                i <= ns,
                dt == old(self).dt,
                *self == (PhysicsSystem { polygons: self.polygons, ..*old(self) }),
                self.polygons@.len() == old(self).polygons@.len(),
                forall|k: int| 0 <= k < old(self).polygons@.len() ==>
                    motion_only(#[trigger] old(self).polygons@[k], self.polygons@[k]),
                ts_trace.len() == i + 1,
                ts_trace[0] == p1,
                ts_trace[ts_trace.len() - 1] == self.polygons@,
                forall|m: int| 0 <= m < i ==> spring_applied(#[trigger] self.springs@[m],
                    ts_trace[m], ts_trace[m + 1], dt as int),
            decreases ns - i,
        {
            let spring = &self.springs[i];
            spring.apply(dt, &mut self.polygons);
            proof {
                ts_trace = ts_trace.push(self.polygons@);
            }
            i = i + 1;
        }
        let ghost p2 = self.polygons@;
        proof {
            assert(springs_stage_ok(old(self).springs@, dt as int, p1, p2, ts_trace));
        }

        let np = self.polygons.len();
        let mut j: usize = 0;
        while j < np
            invariant
                self.wf(),
                np == self.polygons@.len(),
                j <= np,
                dt == old(self).dt,
                p2.len() == np,
                *self == (PhysicsSystem { polygons: self.polygons, ..*old(self) }),
                self.polygons@.len() == old(self).polygons@.len(),
                forall|k: int| 0 <= k < old(self).polygons@.len() ==>
                    motion_only(#[trigger] old(self).polygons@[k], self.polygons@[k]),
                forall|m: int| 0 <= m < j ==> body_updated(#[trigger] p2[m],
                    self.polygons@[m], vw(g), dt as int),
                forall|m: int| j <= m < np ==> #[trigger] self.polygons@[m] == p2[m],
            decreases np - j,
        {
            let mut body = self.polygons.remove(j);
            body.update_rigidbody(g, dt);
            self.polygons.insert(j, body);
            proof {
                lemma_put_back(self.polygons@.insert(j as int, body).remove(j as int), j as int,
                    body);
            }
            j = j + 1;
        }
        let ghost p3 = self.polygons@;
        proof {
            assert(integrate_stage_ok(p2, p3, vw(g), dt as int));
        }

        let nw = self.weld_joints.len();
        let ghost mut tw_trace: Seq<Seq<Rigidbody>> = seq![p3];
        let mut w: usize = 0;
        while w < nw
            invariant
                self.wf(),
                nw == self.weld_joints@.len(),
                w <= nw,
                dt == old(self).dt,
                *self == (PhysicsSystem { polygons: self.polygons, ..*old(self) }),
                self.polygons@.len() == old(self).polygons@.len(),
                forall|k: int| 0 <= k < old(self).polygons@.len() ==>
                    motion_only(#[trigger] old(self).polygons@[k], self.polygons@[k]),
                tw_trace.len() == w + 1,
                tw_trace[0] == p3,
                tw_trace[tw_trace.len() - 1] == self.polygons@,
                forall|m: int| 0 <= m < w ==> weld_solved(#[trigger] self.weld_joints@[m],
                    tw_trace[m], tw_trace[m + 1], dt as int),
            decreases nw - w,
        {
            let weld_joint = &self.weld_joints[w];
            weld_joint.solve_velocity_constraints(&mut self.polygons, dt);
            proof {
                tw_trace = tw_trace.push(self.polygons@);
            }
            w = w + 1;
        }
        let ghost p4 = self.polygons@;
        proof {
            assert(welds_stage_ok(old(self).weld_joints@, dt as int, p3, p4, tw_trace));
        }

        let npj = self.pivot_joints.len();
        let ghost mut tp_trace: Seq<Seq<Rigidbody>> = seq![p4];
        let mut p: usize = 0;
        while p < npj
            invariant
                self.wf(),
                npj == self.pivot_joints@.len(),
                p <= npj,
                dt == old(self).dt,
                *self == (PhysicsSystem { polygons: self.polygons, ..*old(self) }),
                self.polygons@.len() == old(self).polygons@.len(),
                forall|k: int| 0 <= k < old(self).polygons@.len() ==>
                    motion_only(#[trigger] old(self).polygons@[k], self.polygons@[k]),
                tp_trace.len() == p + 1,
                tp_trace[0] == p4,
                tp_trace[tp_trace.len() - 1] == self.polygons@,
                forall|m: int| 0 <= m < p ==> pivot_solved(#[trigger] self.pivot_joints@[m],
                    tp_trace[m], tp_trace[m + 1], dt as int),
            decreases npj - p,
        {
            let pivot_joint = &self.pivot_joints[p];
            pivot_joint.solve_velocity_constraints(&mut self.polygons, dt);
            proof {
                tp_trace = tp_trace.push(self.polygons@);
            }
            p = p + 1;
        }

        proof {
            assert(resolution_trace_ok(ps_start, p1, tr));
            assert(springs_stage_ok(old(self).springs@, old(self).dt as int, p1, p2,
                ts_trace));
            assert(integrate_stage_ok(p2, p3, step_gravity_s(*parameters),
                old(self).dt as int));
            assert(welds_stage_ok(old(self).weld_joints@, old(self).dt as int, p3, p4,
                tw_trace));
            assert(pivots_stage_ok(old(self).pivot_joints@, old(self).dt as int, p4,
                self.polygons@, tp_trace));
        }
    }
}

} // verus!
