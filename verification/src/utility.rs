//! Split-borrow support and entity removal with cascading re-indexing.
//!
//! Collision resolution, springs and joints all mutate two bodies of the
//! same collection at once. The two elements are checked out by value,
//! mutated, and put back; a proved lemma shows the round trip is exactly a
//! two-point update of the sequence.
//!
//! Body removal cascades: every spring and joint referencing the removed
//! body leaves its collection, every higher body index held anywhere drops
//! by one, and connected-anchor sets are cleaned the same way, so no
//! dangling reference can survive. The cascade's exact outcome is the
//! contract of [`PhysicsSystem::remove_rigidbody`].

use vstd::prelude::*;
use crate::fx::Fx;
use crate::math::{Vec2, dist_s, v2i, vw};
use crate::rigidbody::Rigidbody;
use crate::spring::Spring;
use crate::pivot_joint::PivotJoint;
use crate::weld_joint::WeldJoint;
use crate::physics::PhysicsSystem;
use crate::collision_detection::sat_collision;
use crate::collision_detection::sat_collides;

verus! {

/// Removes the elements at `lo < hi` from `v` and hands them out by value.
pub fn take_pair<T>(v: &mut Vec<T>, lo: usize, hi: usize) -> (pair: (T, T))
    requires
        lo < hi < old(v)@.len(),
    ensures
        pair.0 == old(v)@[lo as int],
        pair.1 == old(v)@[hi as int],
        final(v)@ == old(v)@.remove(hi as int).remove(lo as int),
{
    let bhi = v.remove(hi);
    let blo = v.remove(lo);
    (blo, bhi)
}

/// Puts a checked-out pair back at its positions `lo < hi`.
pub fn put_pair<T>(v: &mut Vec<T>, lo: usize, hi: usize, blo: T, bhi: T)
    requires
        lo <= old(v)@.len(),
        lo < hi,
        hi <= old(v)@.len() + 1,
    ensures
        final(v)@ == old(v)@.insert(lo as int, blo).insert(hi as int, bhi),
{
    v.insert(lo, blo);
    v.insert(hi, bhi);
}

/// Checking a pair out and putting it back is a two-point update.
pub proof fn lemma_pair_swap<T>(s: Seq<T>, lo: int, hi: int, x: T, y: T)
    requires
        0 <= lo < hi < s.len(),
    ensures
        s.remove(hi).remove(lo).insert(lo, x).insert(hi, y) == s.update(lo, x).update(hi, y),
{
    let lhs = s.remove(hi).remove(lo).insert(lo, x).insert(hi, y);
    let rhs = s.update(lo, x).update(hi, y);
    assert forall|k: int| 0 <= k < s.len() implies lhs[k] == rhs[k] by {
        if k < lo {
        } else if k == lo {
        } else if k < hi {
        } else if k == hi {
        } else {
        }
    }
    assert(lhs =~= rhs);
}

/// Removing an element and inserting a replacement at the same position is
/// a one-point update.
pub proof fn lemma_put_back<T>(s: Seq<T>, i: int, x: T)
    requires
        0 <= i < s.len(),
    ensures
        s.remove(i).insert(i, x) == s.update(i, x),
{
    let lhs = s.remove(i).insert(i, x);
    let rhs = s.update(i, x);
    assert forall|k: int| 0 <= k < s.len() implies lhs[k] == rhs[k] by {
        if k < i {
        } else if k == i {
        } else {
        }
    }
    assert(lhs =~= rhs);
}

/// `s` with every occurrence of `x` dropped, over the first `k` entries.
pub open spec fn keep_not(s: Seq<usize>, x: usize, k: int) -> Seq<usize>
    decreases k,
{
    if k <= 0 {
        Seq::<usize>::empty()
    } else {
        let r = keep_not(s, x, k - 1);
        if s[k - 1] == x {
            r
        } else {
            r.push(s[k - 1])
        }
    }
}

/// A connected-anchor list after body `idx` is removed: entries equal to
/// `idx` are dropped and higher entries shift down by one.
pub open spec fn anchors_clean(s: Seq<usize>, idx: usize, k: int) -> Seq<usize>
    decreases k,
{
    if k <= 0 {
        Seq::<usize>::empty()
    } else {
        let r = anchors_clean(s, idx, k - 1);
        let e = s[k - 1];
        if e == idx {
            r
        } else if e > idx {
            r.push((e - 1) as usize)
        } else {
            r.push(e)
        }
    }
}

/// The spring list after body `idx` is removed: springs touching `idx`
/// leave, and higher body indices shift down by one.
pub open spec fn springs_after(s: Seq<Spring>, idx: usize, k: int) -> Seq<Spring>
    decreases k,
{
    if k <= 0 {
        Seq::<Spring>::empty()
    } else {
        let r = springs_after(s, idx, k - 1);
        let sp = s[k - 1];
        if sp.body_a == idx || sp.body_b == idx {
            r
        } else {
            r.push(Spring {
                body_a: if sp.body_a > idx { (sp.body_a - 1) as usize } else { sp.body_a },
                body_b: if sp.body_b > idx { (sp.body_b - 1) as usize } else { sp.body_b },
                ..sp
            })
        }
    }
}

/// The weld-joint list after body `idx` is removed.
pub open spec fn welds_after(s: Seq<WeldJoint>, idx: usize, k: int) -> Seq<WeldJoint>
    decreases k,
{
    if k <= 0 {
        Seq::<WeldJoint>::empty()
    } else {
        let r = welds_after(s, idx, k - 1);
        let j = s[k - 1];
        if j.body_a == idx || j.body_b == idx {
            r
        } else {
            r.push(WeldJoint {
                body_a: if j.body_a > idx { (j.body_a - 1) as usize } else { j.body_a },
                body_b: if j.body_b > idx { (j.body_b - 1) as usize } else { j.body_b },
                ..j
            })
        }
    }
}

/// The pivot-joint list after body `idx` is removed.
pub open spec fn pivots_after(s: Seq<PivotJoint>, idx: usize, k: int) -> Seq<PivotJoint>
    decreases k,
{
    if k <= 0 {
        Seq::<PivotJoint>::empty()
    } else {
        let r = pivots_after(s, idx, k - 1);
        let j = s[k - 1];
        if j.body_a == idx || j.body_b == idx {
            r
        } else {
            r.push(PivotJoint {
                body_a: if j.body_a > idx { (j.body_a - 1) as usize } else { j.body_a },
                body_b: if j.body_b > idx { (j.body_b - 1) as usize } else { j.body_b },
                ..j
            })
        }
    }
}

/// No spring surviving the cascade dangles: both of its body indices stay
/// below the shrunken body count and stay distinct.
pub proof fn lemma_springs_after_wf(s: Seq<Spring>, idx: usize, k: int, n: int)
    requires
        0 <= k <= s.len(),
        idx < n,
        forall|i: int| 0 <= i < s.len() ==> (#[trigger] s[i]).body_a < n && s[i].body_b < n
            && s[i].body_a != s[i].body_b,
    ensures
        forall|j: int| 0 <= j < springs_after(s, idx, k).len() ==>
            (#[trigger] springs_after(s, idx, k)[j]).body_a < n - 1
            && springs_after(s, idx, k)[j].body_b < n - 1
            && springs_after(s, idx, k)[j].body_a != springs_after(s, idx, k)[j].body_b,
    decreases k,
{
    if k > 0 {
        lemma_springs_after_wf(s, idx, k - 1, n);
        let sp = s[k - 1];
        if !(sp.body_a == idx || sp.body_b == idx) {
            assert(sp.body_a < n && sp.body_b < n && sp.body_a != sp.body_b);
            assert forall|j: int| 0 <= j < springs_after(s, idx, k).len() implies
                (#[trigger] springs_after(s, idx, k)[j]).body_a < n - 1
                && springs_after(s, idx, k)[j].body_b < n - 1
                && springs_after(s, idx, k)[j].body_a != springs_after(s, idx, k)[j].body_b by {
                if j < springs_after(s, idx, k - 1).len() {
                    assert(springs_after(s, idx, k)[j] == springs_after(s, idx, k - 1)[j]);
                }
            }
        }
    }
}

/// No weld joint surviving the cascade dangles.
pub proof fn lemma_welds_after_wf(s: Seq<WeldJoint>, idx: usize, k: int, n: int)
    requires
        0 <= k <= s.len(),
        idx < n,
        forall|i: int| 0 <= i < s.len() ==> (#[trigger] s[i]).body_a < n && s[i].body_b < n
            && s[i].body_a != s[i].body_b,
    ensures
        forall|j: int| 0 <= j < welds_after(s, idx, k).len() ==>
            (#[trigger] welds_after(s, idx, k)[j]).body_a < n - 1
            && welds_after(s, idx, k)[j].body_b < n - 1
            && welds_after(s, idx, k)[j].body_a != welds_after(s, idx, k)[j].body_b,
    decreases k,
{
    if k > 0 {
        lemma_welds_after_wf(s, idx, k - 1, n);
        let sp = s[k - 1];
        if !(sp.body_a == idx || sp.body_b == idx) {
            assert(sp.body_a < n && sp.body_b < n && sp.body_a != sp.body_b);
            assert forall|j: int| 0 <= j < welds_after(s, idx, k).len() implies
                (#[trigger] welds_after(s, idx, k)[j]).body_a < n - 1
                && welds_after(s, idx, k)[j].body_b < n - 1
                && welds_after(s, idx, k)[j].body_a != welds_after(s, idx, k)[j].body_b by {
                if j < welds_after(s, idx, k - 1).len() {
                    assert(welds_after(s, idx, k)[j] == welds_after(s, idx, k - 1)[j]);
                }
            }
        }
    }
}

/// No pivot joint surviving the cascade dangles.
pub proof fn lemma_pivots_after_wf(s: Seq<PivotJoint>, idx: usize, k: int, n: int)
    requires
        0 <= k <= s.len(),
        idx < n,
        forall|i: int| 0 <= i < s.len() ==> (#[trigger] s[i]).body_a < n && s[i].body_b < n
            && s[i].body_a != s[i].body_b,
    ensures
        forall|j: int| 0 <= j < pivots_after(s, idx, k).len() ==>
            (#[trigger] pivots_after(s, idx, k)[j]).body_a < n - 1
            && pivots_after(s, idx, k)[j].body_b < n - 1
            && pivots_after(s, idx, k)[j].body_a != pivots_after(s, idx, k)[j].body_b,
    decreases k,
{
    if k > 0 {
        lemma_pivots_after_wf(s, idx, k - 1, n);
        let sp = s[k - 1];
        if !(sp.body_a == idx || sp.body_b == idx) {
            assert(sp.body_a < n && sp.body_b < n && sp.body_a != sp.body_b);
            assert forall|j: int| 0 <= j < pivots_after(s, idx, k).len() implies
                (#[trigger] pivots_after(s, idx, k)[j]).body_a < n - 1
                && pivots_after(s, idx, k)[j].body_b < n - 1
                && pivots_after(s, idx, k)[j].body_a != pivots_after(s, idx, k)[j].body_b by {
                if j < pivots_after(s, idx, k - 1).len() {
                    assert(pivots_after(s, idx, k)[j] == pivots_after(s, idx, k - 1)[j]);
                }
            }
        }
    }
}

/// The four entity collections of a system as one mathematical value,
/// for chaining removal steps.
pub ghost struct SysCols {
    pub springs: Seq<Spring>,
    pub welds: Seq<WeldJoint>,
    pub pivots: Seq<PivotJoint>,
    pub polygons: Seq<Rigidbody>,
}

/// The collections a system currently holds.
pub open spec fn sys_cols(s: PhysicsSystem) -> SysCols {
    SysCols {
        springs: s.springs@,
        welds: s.weld_joints@,
        pivots: s.pivot_joints@,
        polygons: s.polygons@,
    }
}

/// The cascade-removal relation: what removing the body at `idx` does to
/// all four collections — dependent springs and joints leave, survivors
/// shift their indices past the gap, the body list drops the slot, and
/// every surviving body's connected-anchor set is cleaned the same way.
pub open spec fn removal_rel(s1: SysCols, s2: SysCols, idx: usize) -> bool {
    &&& idx < s1.polygons.len()
    &&& s2.springs == springs_after(s1.springs, idx, s1.springs.len() as int)
    &&& s2.welds == welds_after(s1.welds, idx, s1.welds.len() as int)
    &&& s2.pivots == pivots_after(s1.pivots, idx, s1.pivots.len() as int)
    &&& s2.polygons.len() == s1.polygons.len() - 1
    &&& forall|k: int| 0 <= k < s2.polygons.len() ==> ({
        let src = if k < idx { s1.polygons[k] } else { s1.polygons[k + 1] };
        &&& #[trigger] s2.polygons[k] == (Rigidbody {
            connected_anchors: s2.polygons[k].connected_anchors,
            ..src
        })
        &&& s2.polygons[k].connected_anchors@ == anchors_clean(src.connected_anchors@, idx,
            src.connected_anchors@.len() as int)
    })
}

/// A despawn pass: `chain` links the collection states by one cascade
/// removal per step, each step removing a body that was, at that moment,
/// neither eternal nor within the world bound.
pub open spec fn despawn_chain_ok(s0: SysCols, sf: SysCols, world_size: int,
    steps: Seq<usize>, chain: Seq<SysCols>) -> bool {
    &&& chain.len() == steps.len() + 1
    &&& chain[0] == s0
    &&& chain[steps.len() as int] == sf
    &&& forall|k: int| 0 <= k < steps.len() ==> ({
        let idx = #[trigger] steps[k];
        &&& (idx as int) < chain[k].polygons.len()
        &&& !chain[k].polygons[idx as int].eternal
        &&& dist_s(vw(chain[k].polygons[idx as int].center), v2i(0, 0)) > world_size
        &&& removal_rel(chain[k], chain[k + 1], idx)
    })
}

impl PhysicsSystem {
    /// Remaps an externally held body index across a removal: higher
    /// indices shift down by one and the removed index itself is cleared.
    pub fn move_indices(option: &mut Option<usize>, index: usize)
        ensures
            *final(option) == match *old(option) {
                Option::Some(v) => if v > index {
                    Option::Some((v - 1) as usize)
                } else if v == index {
                    Option::None::<usize>
                } else {
                    Option::Some(v)
                },
                Option::None => Option::None::<usize>,
            },
    {
        match *option {
            Option::Some(v) => {
                if v > index {
                    *option = Option::Some(v - 1);
                } else if v == index {
                    *option = Option::None;
                }
            },
            Option::None => {},
        }
    }

    /// Removes one spring and unlinks the pair from each other's
    /// connected-anchor sets.
    pub fn remove_spring(&mut self, index: usize)
        requires
            old(self).wf(),
            index < old(self).springs@.len(),
        ensures
            final(self).wf(),
            *final(self) == (PhysicsSystem {
                springs: final(self).springs,
                polygons: final(self).polygons,
                ..*old(self)
            }),
            final(self).springs@ == old(self).springs@.remove(index as int),
            final(self).polygons@.len() == old(self).polygons@.len(),
            ({
                let a = old(self).springs@[index as int].body_a;
                let b = old(self).springs@[index as int].body_b;
                let pa = old(self).polygons@[a as int];
                let pb = old(self).polygons@[b as int];
                &&& forall|k: int| 0 <= k < old(self).polygons@.len() && k != a && k != b ==>
                    #[trigger] final(self).polygons@[k] == old(self).polygons@[k]
                &&& final(self).polygons@[a as int] == (Rigidbody {
                    connected_anchors: final(self).polygons@[a as int].connected_anchors,
                    ..pa
                })
                &&& final(self).polygons@[a as int].connected_anchors@
                    == keep_not(pa.connected_anchors@, b, pa.connected_anchors@.len() as int)
                &&& final(self).polygons@[b as int] == (Rigidbody {
                    connected_anchors: final(self).polygons@[b as int].connected_anchors,
                    ..pb
                })
                &&& final(self).polygons@[b as int].connected_anchors@
                    == keep_not(pb.connected_anchors@, a, pb.connected_anchors@.len() as int)
            }),
    {
        let a = self.springs[index].body_a;
        let b = self.springs[index].body_b;
        Self::unlink_anchor(&mut self.polygons, a, b);
        Self::unlink_anchor(&mut self.polygons, b, a);
        self.springs.remove(index);
    }

    /// Removes one weld joint and unlinks the pair from each other's
    /// connected-anchor sets.
    pub fn remove_weld_joint(&mut self, index: usize)
        requires
            old(self).wf(),
            index < old(self).weld_joints@.len(),
        ensures
            final(self).wf(),
            *final(self) == (PhysicsSystem {
                weld_joints: final(self).weld_joints,
                polygons: final(self).polygons,
                ..*old(self)
            }),
            final(self).weld_joints@ == old(self).weld_joints@.remove(index as int),
            final(self).polygons@.len() == old(self).polygons@.len(),
            ({
                let a = old(self).weld_joints@[index as int].body_a;
                let b = old(self).weld_joints@[index as int].body_b;
                let pa = old(self).polygons@[a as int];
                let pb = old(self).polygons@[b as int];
                &&& forall|k: int| 0 <= k < old(self).polygons@.len() && k != a && k != b ==>
                    #[trigger] final(self).polygons@[k] == old(self).polygons@[k]
                &&& final(self).polygons@[a as int] == (Rigidbody {
                    connected_anchors: final(self).polygons@[a as int].connected_anchors,
                    ..pa
                })
                &&& final(self).polygons@[a as int].connected_anchors@
                    == keep_not(pa.connected_anchors@, b, pa.connected_anchors@.len() as int)
                &&& final(self).polygons@[b as int] == (Rigidbody {
                    connected_anchors: final(self).polygons@[b as int].connected_anchors,
                    ..pb
                })
                &&& final(self).polygons@[b as int].connected_anchors@
                    == keep_not(pb.connected_anchors@, a, pb.connected_anchors@.len() as int)
            }),
    {
        let a = self.weld_joints[index].body_a;
        let b = self.weld_joints[index].body_b;
        Self::unlink_anchor(&mut self.polygons, a, b);
        Self::unlink_anchor(&mut self.polygons, b, a);
        self.weld_joints.remove(index);
    }

    /// Removes one pivot joint and unlinks the pair from each other's
    /// connected-anchor sets.
    pub fn remove_pivot_joint(&mut self, index: usize)
        requires
            old(self).wf(),
            index < old(self).pivot_joints@.len(),
        ensures
            final(self).wf(),
            *final(self) == (PhysicsSystem {
                pivot_joints: final(self).pivot_joints,
                polygons: final(self).polygons,
                ..*old(self)
            }),
            final(self).pivot_joints@ == old(self).pivot_joints@.remove(index as int),
            final(self).polygons@.len() == old(self).polygons@.len(),
            ({
                let a = old(self).pivot_joints@[index as int].body_a;
                let b = old(self).pivot_joints@[index as int].body_b;
                let pa = old(self).polygons@[a as int];
                let pb = old(self).polygons@[b as int];
                &&& forall|k: int| 0 <= k < old(self).polygons@.len() && k != a && k != b ==>
                    #[trigger] final(self).polygons@[k] == old(self).polygons@[k]
                &&& final(self).polygons@[a as int] == (Rigidbody {
                    connected_anchors: final(self).polygons@[a as int].connected_anchors,
                    ..pa
                })
                &&& final(self).polygons@[a as int].connected_anchors@
                    == keep_not(pa.connected_anchors@, b, pa.connected_anchors@.len() as int)
                &&& final(self).polygons@[b as int] == (Rigidbody {
                    connected_anchors: final(self).polygons@[b as int].connected_anchors,
                    ..pb
                })
                &&& final(self).polygons@[b as int].connected_anchors@
                    == keep_not(pb.connected_anchors@, a, pb.connected_anchors@.len() as int)
            }),
    {
        let a = self.pivot_joints[index].body_a;
        let b = self.pivot_joints[index].body_b;
        Self::unlink_anchor(&mut self.polygons, a, b);
        Self::unlink_anchor(&mut self.polygons, b, a);
        self.pivot_joints.remove(index);
    }

    /// Drops every occurrence of `other` from body `at`'s connected-anchor
    /// set.
    fn unlink_anchor(polygons: &mut Vec<Rigidbody>, at: usize, other: usize)
        requires
            at < old(polygons)@.len(),
        ensures
            final(polygons)@.len() == old(polygons)@.len(),
            forall|k: int| 0 <= k < old(polygons)@.len() && k != at ==>
                #[trigger] final(polygons)@[k] == old(polygons)@[k],
            final(polygons)@[at as int] == (Rigidbody {
                connected_anchors: final(polygons)@[at as int].connected_anchors,
                ..old(polygons)@[at as int]
            }),
            final(polygons)@[at as int].connected_anchors@ == keep_not(
                old(polygons)@[at as int].connected_anchors@, other,
                old(polygons)@[at as int].connected_anchors@.len() as int),
    {
        let ghost before = polygons@;
        let mut body = polygons.remove(at);
        let n = body.connected_anchors.len();
        let mut kept: Vec<usize> = Vec::new();
        let mut k: usize = 0;
        while k < n
            invariant
                n == old(polygons)@[at as int].connected_anchors@.len(),
                body.connected_anchors@ == old(polygons)@[at as int].connected_anchors@,
                k <= n,
                kept@ == keep_not(old(polygons)@[at as int].connected_anchors@, other, k as int),
            decreases n - k,
        {
            let e = body.connected_anchors[k];
            if e != other {
                kept.push(e);
            }
            k = k + 1;
        }
        body.connected_anchors = kept;
        let ghost gbody = body;
        polygons.insert(at, body);
        proof {
            lemma_put_back(before, at as int, gbody);
        }
    }

    /// Removes one body. Every spring and joint referencing it leaves its
    /// collection; every other body index held in a spring, joint or
    /// connected-anchor set shifts down past the gap; and the survivors
    /// keep their order. The result is well-formed again: no dangling
    /// reference remains.
    pub fn remove_rigidbody(&mut self, index: usize)
        requires
            old(self).wf(),
            index < old(self).polygons@.len(),
        ensures
            final(self).wf(),
            *final(self) == (PhysicsSystem {
                springs: final(self).springs,
                weld_joints: final(self).weld_joints,
                pivot_joints: final(self).pivot_joints,
                polygons: final(self).polygons,
                ..*old(self)
            }),
            removal_rel(sys_cols(*old(self)), sys_cols(*final(self)), index),
    {
        let ghost old_sys = *self;

        // Springs: drop those touching the body, shift the rest.
        let ghost old_springs = self.springs@;
        let ns = self.springs.len();
        let mut out_springs: Vec<Spring> = Vec::new();
        let mut i: usize = 0;
        while i < ns
            invariant
                *self == (PhysicsSystem { springs: self.springs, ..old_sys }),
                i <= ns,
                ns == old_springs.len(),
                self.springs@ == old_springs.subrange(i as int, ns as int),
                out_springs@ == springs_after(old_springs, index, i as int),
            decreases ns - i,
        {
            let mut sp = self.springs.remove(0);
            proof {
                assert(self.springs@ =~= old_springs.subrange(i as int + 1, ns as int));
            }
            if sp.body_a != index && sp.body_b != index {
                if sp.body_a > index {
                    sp.body_a = sp.body_a - 1;
                }
                if sp.body_b > index {
                    sp.body_b = sp.body_b - 1;
                }
                out_springs.push(sp);
            }
            i = i + 1;
        }
        self.springs = out_springs;

        // Weld joints.
        let ghost old_welds = self.weld_joints@;
        let nw = self.weld_joints.len();
        let mut out_welds: Vec<WeldJoint> = Vec::new();
        let mut w: usize = 0;
        while w < nw
            invariant
                *self == (PhysicsSystem {
                    springs: self.springs,
                    weld_joints: self.weld_joints,
                    ..old_sys
                }),
                self.springs@ == springs_after(old_springs, index, ns as int),
                w <= nw,
                nw == old_welds.len(),
                self.weld_joints@ == old_welds.subrange(w as int, nw as int),
                out_welds@ == welds_after(old_welds, index, w as int),
            decreases nw - w,
        {
            let mut j = self.weld_joints.remove(0);
            proof {
                assert(self.weld_joints@ =~= old_welds.subrange(w as int + 1, nw as int));
            }
            if j.body_a != index && j.body_b != index {
                if j.body_a > index {
                    j.body_a = j.body_a - 1;
                }
                if j.body_b > index {
                    j.body_b = j.body_b - 1;
                }
                out_welds.push(j);
            }
            w = w + 1;
        }
        self.weld_joints = out_welds;

        // Pivot joints.
        let ghost old_pivots = self.pivot_joints@;
        let np = self.pivot_joints.len();
        let mut out_pivots: Vec<PivotJoint> = Vec::new();
        let mut p: usize = 0;
        while p < np
            invariant
                *self == (PhysicsSystem {
                    springs: self.springs,
                    weld_joints: self.weld_joints,
                    pivot_joints: self.pivot_joints,
                    ..old_sys
                }),
                self.springs@ == springs_after(old_springs, index, ns as int),
                self.weld_joints@ == welds_after(old_welds, index, nw as int),
                p <= np,
                np == old_pivots.len(),
                self.pivot_joints@ == old_pivots.subrange(p as int, np as int),
                out_pivots@ == pivots_after(old_pivots, index, p as int),
            decreases np - p,
        {
            let mut j = self.pivot_joints.remove(0);
            proof {
                assert(self.pivot_joints@ =~= old_pivots.subrange(p as int + 1, np as int));
            }
            if j.body_a != index && j.body_b != index {
                if j.body_a > index {
                    j.body_a = j.body_a - 1;
                }
                if j.body_b > index {
                    j.body_b = j.body_b - 1;
                }
                out_pivots.push(j);
            }
            p = p + 1;
        }
        self.pivot_joints = out_pivots;

        // The bodies: drop the removed one and clean every surviving
        // connected-anchor set.
        self.polygons.remove(index);
        let nb = self.polygons.len();
        let mut b: usize = 0;
        while b < nb
            invariant
                *self == (PhysicsSystem {
                    springs: self.springs,
                    weld_joints: self.weld_joints,
                    pivot_joints: self.pivot_joints,
                    polygons: self.polygons,
                    ..old_sys
                }),
                self.springs@ == springs_after(old_sys.springs@, index,
                    old_sys.springs@.len() as int),
                self.weld_joints@ == welds_after(old_sys.weld_joints@, index,
                    old_sys.weld_joints@.len() as int),
                self.pivot_joints@ == pivots_after(old_sys.pivot_joints@, index,
                    old_sys.pivot_joints@.len() as int),
                old_sys.wf(),
                index < old_sys.polygons@.len(),
                self.polygons@.len() == nb,
                nb == old_sys.polygons@.len() - 1,
                index < old_sys.polygons@.len(),
                b <= nb,
                forall|k: int| b <= k < nb ==> #[trigger] self.polygons@[k]
                    == old_sys.polygons@.remove(index as int)[k],
                forall|k: int| 0 <= k < b ==> ({
                    let src = old_sys.polygons@.remove(index as int)[k];
                    &&& #[trigger] self.polygons@[k] == (Rigidbody {
                        connected_anchors: self.polygons@[k].connected_anchors,
                        ..src
                    })
                    &&& self.polygons@[k].connected_anchors@ == anchors_clean(
                        src.connected_anchors@, index, src.connected_anchors@.len() as int)
                }),
            decreases nb - b,
        {
            let ghost before = self.polygons@;
            let mut body = self.polygons.remove(b);
            let na = body.connected_anchors.len();
            let mut kept: Vec<usize> = Vec::new();
            let mut k: usize = 0;
            while k < na
                invariant
                    na == body.connected_anchors@.len(),
                    body.connected_anchors@
                        == old_sys.polygons@.remove(index as int)[b as int].connected_anchors@,
                    k <= na,
                    kept@ == anchors_clean(body.connected_anchors@, index, k as int),
                decreases na - k,
            {
                let e = body.connected_anchors[k];
                if e != index {
                    if e > index {
                        kept.push(e - 1);
                    } else {
                        kept.push(e);
                    }
                }
                k = k + 1;
            }
            body.connected_anchors = kept;
            let ghost gbody = body;
            self.polygons.insert(b, body);
            proof {
                lemma_put_back(before, b as int, gbody);
            }
            b = b + 1;
        }

        proof {
            lemma_springs_after_wf(old_sys.springs@, index, old_sys.springs@.len() as int,
                old_sys.polygons@.len() as int);
            lemma_welds_after_wf(old_sys.weld_joints@, index,
                old_sys.weld_joints@.len() as int, old_sys.polygons@.len() as int);
            lemma_pivots_after_wf(old_sys.pivot_joints@, index,
                old_sys.pivot_joints@.len() as int, old_sys.polygons@.len() as int);
        }
    }

    /// Despawns every non-eternal body farther than `world_size` from the
    /// origin, cascading each removal; disabled when `world_size` is not
    /// positive. Afterwards every body is eternal or within the bound,
    /// and the whole pass is a chain of cascade removals, each at a body
    /// that was far and not eternal when it was removed.
    pub fn despawn_outside(&mut self, world_size: Fx)
        requires
            old(self).wf(),
        ensures
            final(self).wf(),
            *final(self) == (PhysicsSystem {
                springs: final(self).springs,
                weld_joints: final(self).weld_joints,
                pivot_joints: final(self).pivot_joints,
                polygons: final(self).polygons,
                ..*old(self)
            }),
            world_size <= 0 ==> *final(self) == *old(self),
            world_size > 0 ==> forall|k: int| 0 <= k < final(self).polygons@.len() ==>
                ((#[trigger] final(self).polygons@[k]).eternal
                    || dist_s(vw(final(self).polygons@[k].center), v2i(0, 0))
                        <= world_size as int),
            exists|steps: Seq<usize>, chain: Seq<SysCols>| #[trigger] despawn_chain_ok(
                sys_cols(*old(self)), sys_cols(*final(self)), world_size as int, steps, chain),
    {
        let ghost s0 = sys_cols(*self);
        let ghost mut steps: Seq<usize> = Seq::empty();
        let ghost mut chain: Seq<SysCols> = seq![s0];
        if world_size <= 0 {
            proof {
                assert(despawn_chain_ok(s0, sys_cols(*self), world_size as int, steps, chain));
            }
            return;
        }
        let mut i: usize = 0;
        while i < self.polygons.len()
            invariant
                self.wf(),
                world_size > 0,
                *self == (PhysicsSystem {
                    springs: self.springs,
                    weld_joints: self.weld_joints,
                    pivot_joints: self.pivot_joints,
                    polygons: self.polygons,
                    ..*old(self)
                }),
                i <= self.polygons@.len(),
                forall|k: int| 0 <= k < i ==> ((#[trigger] self.polygons@[k]).eternal
                    || dist_s(vw(self.polygons@[k].center), v2i(0, 0)) <= world_size as int),
                chain.len() == steps.len() + 1,
                chain[0] == s0,
                chain[chain.len() - 1] == sys_cols(*self),
                forall|k: int| 0 <= k < steps.len() ==> ({
                    let idx = #[trigger] steps[k];
                    &&& (idx as int) < chain[k].polygons.len()
                    &&& !chain[k].polygons[idx as int].eternal
                    &&& dist_s(vw(chain[k].polygons[idx as int].center), v2i(0, 0))
                        > world_size as int
                    &&& removal_rel(chain[k], chain[k + 1], idx)
                }),
            decreases self.polygons@.len() - i,
        {
            let far = self.polygons[i].center.distance(&Vec2::zero()) > world_size;
            if far && !self.polygons[i].eternal {
                let ghost before = self.polygons@;
                self.remove_rigidbody(i);
                proof {
                    steps = steps.push(i);
                    chain = chain.push(sys_cols(*self));
                    assert forall|k: int| 0 <= k < i implies
                        ((#[trigger] self.polygons@[k]).eternal
                        || dist_s(vw(self.polygons@[k].center), v2i(0, 0))
                            <= world_size as int) by {
                        assert(self.polygons@[k].center == before[k].center);
                        assert(self.polygons@[k].eternal == before[k].eternal);
                    }
                }
            } else {
                i = i + 1;
            }
        }
        proof {
            assert(despawn_chain_ok(s0, sys_cols(*self), world_size as int, steps, chain));
        }
    }
}

/// Whether the body at `j` is hit by the probe and not excluded by either
/// held index.
pub open spec fn probe_hits(ps: Seq<Rigidbody>, probe: Rigidbody, j: int, skip1: Option<usize>,
    skip2: Option<usize>) -> bool {
    &&& sat_collides(ps[j], probe)
    &&& (skip1 is None || skip1->0 != j)
    &&& (skip2 is None || skip2->0 != j)
}

/// The indices of probe hits within `[lo, hi)`, from the highest down.
pub open spec fn hits_in_desc(ps: Seq<Rigidbody>, probe: Rigidbody, skip1: Option<usize>,
    skip2: Option<usize>, lo: int, hi: int) -> Seq<usize>
    decreases hi - lo,
{
    if hi <= lo {
        Seq::<usize>::empty()
    } else {
        let head = if probe_hits(ps, probe, hi - 1, skip1, skip2) {
            seq![(hi - 1) as usize]
        } else {
            Seq::<usize>::empty()
        };
        head + hits_in_desc(ps, probe, skip1, skip2, lo, hi - 1)
    }
}

proof fn lemma_hits_in_desc_bottom(ps: Seq<Rigidbody>, probe: Rigidbody, skip1: Option<usize>,
    skip2: Option<usize>, lo: int, hi: int)
    requires
        0 <= lo < hi,
    ensures
        hits_in_desc(ps, probe, skip1, skip2, lo, hi) == hits_in_desc(ps, probe, skip1, skip2,
            lo + 1, hi) + (if probe_hits(ps, probe, lo, skip1, skip2) {
            seq![lo as usize]
        } else {
            Seq::<usize>::empty()
        }),
    decreases hi - lo,
{
    let head_hi = if probe_hits(ps, probe, hi - 1, skip1, skip2) {
        seq![(hi - 1) as usize]
    } else {
        Seq::<usize>::empty()
    };
    let head_lo = if probe_hits(ps, probe, lo, skip1, skip2) {
        seq![lo as usize]
    } else {
        Seq::<usize>::empty()
    };
    if lo == hi - 1 {
        assert(hits_in_desc(ps, probe, skip1, skip2, lo, hi)
            =~= hits_in_desc(ps, probe, skip1, skip2, lo + 1, hi) + head_lo);
    } else {
        lemma_hits_in_desc_bottom(ps, probe, skip1, skip2, lo, hi - 1);
        assert(hits_in_desc(ps, probe, skip1, skip2, lo, hi)
            == head_hi + hits_in_desc(ps, probe, skip1, skip2, lo, hi - 1));
        assert(hits_in_desc(ps, probe, skip1, skip2, lo + 1, hi)
            == head_hi + hits_in_desc(ps, probe, skip1, skip2, lo + 1, hi - 1));
        assert(hits_in_desc(ps, probe, skip1, skip2, lo, hi)
            =~= hits_in_desc(ps, probe, skip1, skip2, lo + 1, hi) + head_lo);
    }
}

impl PhysicsSystem {
    /// The topmost body hit by the probe (the highest index, since later
    /// bodies draw on top), skipping up to two externally held indices.
    pub fn get_polygon_under_mouse(&self, probe: &Rigidbody, skip1: Option<usize>,
        skip2: Option<usize>) -> (r: Option<usize>)
        requires
            probe.vertices@.len() >= 1,
            forall|j: int| 0 <= j < self.polygons@.len() ==>
                (#[trigger] self.polygons@[j]).vertices@.len() >= 1,
        ensures
            match r {
                Option::Some(i) => i < self.polygons@.len()
                    && probe_hits(self.polygons@, *probe, i as int, skip1, skip2)
                    && forall|j: int| i < j < self.polygons@.len() ==>
                        !probe_hits(self.polygons@, *probe, j, skip1, skip2),
                Option::None => forall|j: int| 0 <= j < self.polygons@.len() ==>
                    !probe_hits(self.polygons@, *probe, j, skip1, skip2),
            },
    {
        let n = self.polygons.len();
        let mut i: usize = n;
        while i > 0
            invariant
                n == self.polygons@.len(),
                i <= n,
                probe.vertices@.len() >= 1,
                forall|j: int| 0 <= j < self.polygons@.len() ==>
                    (#[trigger] self.polygons@[j]).vertices@.len() >= 1,
                forall|j: int| i <= j < n ==>
                    !probe_hits(self.polygons@, *probe, j, skip1, skip2),
            decreases i,
        {
            i = i - 1;
            let result = sat_collision(&self.polygons[i], probe);
            let excluded1 = match skip1 {
                Option::Some(v) => v == i,
                Option::None => false,
            };
            let excluded2 = match skip2 {
                Option::Some(v) => v == i,
                Option::None => false,
            };
            if result.collided && !excluded1 && !excluded2 {
                return Option::Some(i);
            }
        }
        Option::None
    }

    /// Every body hit by the probe, topmost first.
    pub fn get_all_polygons_under_mouse(&self, probe: &Rigidbody, skip1: Option<usize>,
        skip2: Option<usize>) -> (r: Vec<usize>)
        requires
            probe.vertices@.len() >= 1,
            forall|j: int| 0 <= j < self.polygons@.len() ==>
                (#[trigger] self.polygons@[j]).vertices@.len() >= 1,
        ensures
            r@ == hits_in_desc(self.polygons@, *probe, skip1, skip2, 0,
                self.polygons@.len() as int),
    {
        let n = self.polygons.len();
        let mut found: Vec<usize> = Vec::new();
        let mut i: usize = n;
        while i > 0
            invariant
                n == self.polygons@.len(),
                i <= n,
                probe.vertices@.len() >= 1,
                forall|j: int| 0 <= j < self.polygons@.len() ==>
                    (#[trigger] self.polygons@[j]).vertices@.len() >= 1,
                found@ == hits_in_desc(self.polygons@, *probe, skip1, skip2, i as int, n as int),
            decreases i,
        {
            i = i - 1;
            let result = sat_collision(&self.polygons[i], probe);
            let excluded1 = match skip1 {
                Option::Some(v) => v == i,
                Option::None => false,
            };
            let excluded2 = match skip2 {
                Option::Some(v) => v == i,
                Option::None => false,
            };
            if result.collided && !excluded1 && !excluded2 {
                found.push(i);
            }
            proof {
                lemma_hits_in_desc_bottom(self.polygons@, *probe, skip1, skip2, i as int,
                    n as int);
            }
        }
        found
    }

    /// Whether the probe touches no body at all (besides the excluded
    /// ones), so a spawn there would be unobstructed.
    pub fn under_mouse_is_clear(&self, probe: &Rigidbody, skip1: Option<usize>,
        skip2: Option<usize>) -> (r: bool)
        requires
            probe.vertices@.len() >= 1,
            forall|j: int| 0 <= j < self.polygons@.len() ==>
                (#[trigger] self.polygons@[j]).vertices@.len() >= 1,
        ensures
            r == forall|j: int| 0 <= j < self.polygons@.len() ==>
                !probe_hits(self.polygons@, *probe, j, skip1, skip2),
    {
        let n = self.polygons.len();
        let mut i: usize = 0;
        while i < n
            invariant
                n == self.polygons@.len(),
                i <= n,
                probe.vertices@.len() >= 1,
                forall|j: int| 0 <= j < self.polygons@.len() ==>
                    (#[trigger] self.polygons@[j]).vertices@.len() >= 1,
                forall|j: int| 0 <= j < i ==>
                    !probe_hits(self.polygons@, *probe, j, skip1, skip2),
            decreases n - i,
        {
            let result = sat_collision(&self.polygons[i], probe);
            let excluded1 = match skip1 {
                Option::Some(v) => v == i,
                Option::None => false,
            };
            let excluded2 = match skip2 {
                Option::Some(v) => v == i,
                Option::None => false,
            };
            if result.collided && !excluded1 && !excluded2 {
                proof {
                    assert(probe_hits(self.polygons@, *probe, i as int, skip1, skip2));
                }
                return false;
            }
            i = i + 1;
        }
        true
    }

    /// The first spring whose connector the probe touches, if any.
    pub fn get_spring_under_mouse(&self, probe: &Rigidbody, skip: Option<usize>) -> (r: Option<
        usize>)
        requires
            probe.vertices@.len() >= 1,
            forall|j: int| 0 <= j < self.springs@.len() ==>
                (#[trigger] self.springs@[j]).connector.vertices@.len() >= 1,
        ensures
            match r {
                Option::Some(i) => i < self.springs@.len()
                    && sat_collides(*probe, self.springs@[i as int].connector)
                    && (skip is None || skip->0 != i)
                    && forall|j: int| 0 <= j < i ==>
                        !(sat_collides(*probe, (#[trigger] self.springs@[j]).connector)
                            && (skip is None || skip->0 != j)),
                Option::None => forall|j: int| 0 <= j < self.springs@.len() ==>
                    !(sat_collides(*probe, (#[trigger] self.springs@[j]).connector)
                        && (skip is None || skip->0 != j)),
            },
    {
        let n = self.springs.len();
        let mut i: usize = 0;
        while i < n
            invariant
                n == self.springs@.len(),
                i <= n,
                probe.vertices@.len() >= 1,
                forall|j: int| 0 <= j < self.springs@.len() ==>
                    (#[trigger] self.springs@[j]).connector.vertices@.len() >= 1,
                forall|j: int| 0 <= j < i ==>
                    !(sat_collides(*probe, (#[trigger] self.springs@[j]).connector)
                        && (skip is None || skip->0 != j)),
            decreases n - i,
        {
            let result = sat_collision(probe, &self.springs[i].connector);
            let excluded = match skip {
                Option::Some(v) => v == i,
                Option::None => false,
            };
            if result.collided && !excluded {
                return Option::Some(i);
            }
            i = i + 1;
        }
        Option::None
    }
}

} // verus!
