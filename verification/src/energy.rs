//! Aggregate energy figures for diagnostic display: kinetic, gravitational
//! potential, and spring potential energy.

use vstd::prelude::*;
use crate::fx::{Fx, FX_HALF, fx_add, fx_sub, fx_mul, fx_add_s, fx_sub_s, fx_mul_s};
use crate::math::{vw, mag_s, v_sub_s};
use crate::rigidbody::Rigidbody;
use crate::spring::{Spring, world_anchor_s};

verus! {

/// The three energy totals of the scene.
pub struct Energy {
    pub kinetic_energy: Fx,
    pub potential_energy: Fx,
    pub spring_energy: Fx,
}

/// The gravitational potential of a body relative to the height `origin`.
pub open spec fn grav_energy_s(b: Rigidbody, gravity: int, origin: int) -> int {
    let height = fx_sub_s(origin, b.center.y as int);
    fx_mul_s(fx_mul_s(fx_mul_s(b.mass as int, gravity), b.gravity_multiplier as int), height)
}

/// The elastic energy stored in a spring, from the anchor offsets
/// rotated by each body's orientation.
pub open spec fn spring_energy_s(sp: Spring, bodies: Seq<Rigidbody>) -> int {
    let a = bodies[sp.body_a as int];
    let b = bodies[sp.body_b as int];
    let wa = world_anchor_s(a, vw(sp.anchor_a));
    let wb = world_anchor_s(b, vw(sp.anchor_b));
    let stretch = fx_sub_s(mag_s(v_sub_s(wa, wb)), sp.rest_length as int);
    fx_mul_s(fx_mul_s(fx_mul_s(32768, sp.stiffness as int), stretch), stretch)
}

/// The summed kinetic energy of the first `k` bodies.
pub open spec fn kinetic_sum_s(bodies: Seq<Rigidbody>, k: int) -> int
    decreases k,
{
    if k <= 0 {
        0
    } else {
        fx_add_s(kinetic_sum_s(bodies, k - 1), Rigidbody::kinetic_energy_s(bodies[k - 1]))
    }
}

/// The summed gravitational potential of the first `k` bodies.
pub open spec fn potential_sum_s(bodies: Seq<Rigidbody>, k: int, gravity: int, origin: int) -> int
    decreases k,
{
    if k <= 0 {
        0
    } else {
        fx_add_s(potential_sum_s(bodies, k - 1, gravity, origin),
            grav_energy_s(bodies[k - 1], gravity, origin))
    }
}

/// The summed elastic energy of the first `k` springs.
pub open spec fn spring_sum_s(springs: Seq<Spring>, bodies: Seq<Rigidbody>, k: int) -> int
    decreases k,
{
    if k <= 0 {
        0
    } else {
        fx_add_s(spring_sum_s(springs, bodies, k - 1), spring_energy_s(springs[k - 1], bodies))
    }
}

impl Energy {
    /// The kinetic energy of one body, floored at zero.
    pub fn calculate_kinetic_energy(rigidbody: &Rigidbody) -> (r: Fx)
        ensures
            r == Rigidbody::kinetic_energy_s(*rigidbody),
    {
        rigidbody.calculate_energy()
    }

    /// The gravitational potential of one body relative to `origin`.
    pub fn calculate_gravitational_energy(rigidbody: &Rigidbody, gravity: Fx, origin: Fx) -> (r:
        Fx)
        ensures
            r == grav_energy_s(*rigidbody, gravity as int, origin as int),
    {
        let height = fx_sub(origin, rigidbody.center.y);
        fx_mul(fx_mul(fx_mul(rigidbody.mass, gravity), rigidbody.gravity_multiplier), height)
    }

    /// The elastic energy of one spring.
    pub fn calculate_spring_energy(spring: &Spring, rigidbodys: &Vec<Rigidbody>) -> (r: Fx)
        requires
            spring.body_a < rigidbodys@.len(),
            spring.body_b < rigidbodys@.len(),
        ensures
            r == spring_energy_s(*spring, rigidbodys@),
    {
        let a = &rigidbodys[spring.body_a];
        let b = &rigidbodys[spring.body_b];

        let world_anchor_a = a.center.plus(&spring.anchor_a.rotated(a.angle));
        let world_anchor_b = b.center.plus(&spring.anchor_b.rotated(b.angle));

        let distance = world_anchor_a.distance(&world_anchor_b);
        let stretch = fx_sub(distance, spring.rest_length);

        fx_mul(fx_mul(fx_mul(FX_HALF, spring.stiffness), stretch), stretch)
    }

    /// Recomputes all three energy totals over the scene.
    pub fn update_energy(&mut self, rigidbodys: &Vec<Rigidbody>, springs: &Vec<Spring>,
        gravity: Fx, origin: Fx)
        requires
            forall|i: int| 0 <= i < springs@.len() ==>
                (#[trigger] springs@[i]).body_a < rigidbodys@.len()
                && springs@[i].body_b < rigidbodys@.len(),
        ensures
            final(self).kinetic_energy == kinetic_sum_s(rigidbodys@, rigidbodys@.len() as int),
            final(self).potential_energy == potential_sum_s(rigidbodys@,
                rigidbodys@.len() as int, gravity as int, origin as int),
            final(self).spring_energy == spring_sum_s(springs@, rigidbodys@,
                springs@.len() as int),
    {
        self.kinetic_energy = 0;
        self.spring_energy = 0;
        self.potential_energy = 0;
        let n = rigidbodys.len();
        let mut i: usize = 0;
        while i < n
            invariant
                n == rigidbodys@.len(),
                i <= n,
                self.kinetic_energy as int == kinetic_sum_s(rigidbodys@, i as int),
                self.potential_energy as int == potential_sum_s(rigidbodys@, i as int,
                    gravity as int, origin as int),
                self.spring_energy == 0,
            decreases n - i,
        {
            let ke = Self::calculate_kinetic_energy(&rigidbodys[i]);
            self.kinetic_energy = fx_add(self.kinetic_energy, ke);
            let pe = Self::calculate_gravitational_energy(&rigidbodys[i], gravity, origin);
            self.potential_energy = fx_add(self.potential_energy, pe);
            i = i + 1;
        }
        let m = springs.len();
        let mut j: usize = 0;
        while j < m
            invariant
                m == springs@.len(),
                n == rigidbodys@.len(),
                forall|k: int| 0 <= k < springs@.len() ==>
                    (#[trigger] springs@[k]).body_a < rigidbodys@.len()
                    && springs@[k].body_b < rigidbodys@.len(),
                j <= m,
                self.kinetic_energy as int == kinetic_sum_s(rigidbodys@, n as int),
                self.potential_energy as int == potential_sum_s(rigidbodys@, n as int,
                    gravity as int, origin as int),
                self.spring_energy as int == spring_sum_s(springs@, rigidbodys@, j as int),
            decreases m - j,
        {
            let se = Self::calculate_spring_energy(&springs[j], rigidbodys);
            self.spring_energy = fx_add(self.spring_energy, se);
            j = j + 1;
        }
    }

    /// The total of the three energy figures.
    pub fn get_energy(&self) -> (r: Fx)
        ensures
            r == fx_add_s(fx_add_s(self.kinetic_energy as int, self.spring_energy as int),
                self.potential_energy as int),
    {
        fx_add(fx_add(self.kinetic_energy, self.spring_energy), self.potential_energy)
    }
}

} // verus!
