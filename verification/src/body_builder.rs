//! Construction of bodies, springs and joint markers from a bundle of
//! spawn parameters.
//!
//! Random color drawing lives outside the engine; callers pass the color
//! to use when the parameters do not fix one.

use vstd::prelude::*;
use crate::fx::{Fx, FX_ONE};
use crate::math::{Vec2, vw, v2i, rotate_about_s};
use crate::rigidbody::{Rigidbody, rect_seq_s, ngon_seq_s, area_s, centroid_s, radius_s, moi_s};
use crate::spring::Spring;
use crate::color::ColorRGBA;
use crate::enums::{BodyType, ColorType};

verus! {

/// Parameters for spawning one body.
pub struct RigidbodyParams {
    pub sides: u32,
    pub radius: Fx,
    pub width: Fx,
    pub height: Fx,
    pub pos: Vec2,
    pub mass: Fx,
    pub restitution: Fx,
    pub color: Option<ColorRGBA>,
    pub collides: bool,
    pub rotation: Fx,
    pub angular_velocity: Fx,
    pub velocity: Vec2,
    pub color_type: ColorType,
    pub gravity_multiplier: Fx,
    pub eternal: bool,
}

/// Parameters for spawning one spring.
pub struct SpringParams {
    pub stiffness: Fx,
    pub dampening: Fx,
    pub rest_length: Fx,
    pub body_a: usize,
    pub body_b: usize,
    pub anchor_a: Vec2,
    pub anchor_b: Vec2,
}

/// A spawn request: the entity kind plus both parameter bundles.
pub struct BodyBuilder {
    pub body_type: BodyType,
    pub rigidbody_params: RigidbodyParams,
    pub spring_params: SpringParams,
}

impl BodyBuilder {
    /// Builds a body from the parameters: a rectangle or a regular
    /// polygon, colored by the parameters or by the caller-supplied
    /// `random_color`, then rotated and given its initial motion.
    pub fn create_rigidbody(&self, random_color: ColorRGBA) -> (r: Rigidbody)
        requires
            self.body_type == BodyType::Rectangle || 3 <= self.rigidbody_params.sides <= 65536,
        ensures
            r.vertices@.len() == if self.body_type == BodyType::Rectangle {
                4int
            } else {
                self.rigidbody_params.sides as int
            },
            r.mass == self.rigidbody_params.mass,
            r.restitution == self.rigidbody_params.restitution,
            r.color == if self.rigidbody_params.color is Some {
                self.rigidbody_params.color->Some_0
            } else {
                random_color
            },
            r.eternal == self.rigidbody_params.eternal,
            r.collision == self.rigidbody_params.collides,
            r.angular_velocity == self.rigidbody_params.angular_velocity,
            r.velocity == self.rigidbody_params.velocity,
            r.gravity_multiplier == self.rigidbody_params.gravity_multiplier,
            vw(r.force) == v2i(0, 0),
            r.torque == 0,
            r.angle == 0,
            ({
                let base = if self.body_type == BodyType::Rectangle {
                    rect_seq_s(self.rigidbody_params.width as int,
                        self.rigidbody_params.height as int, vw(self.rigidbody_params.pos))
                } else {
                    ngon_seq_s(self.rigidbody_params.sides as int,
                        self.rigidbody_params.radius as int, vw(self.rigidbody_params.pos))
                };
                &&& r.area as int == area_s(base)
                &&& vw(r.center) == centroid_s(base, area_s(base))
                &&& r.radius as int == radius_s(base, vw(r.center))
                &&& r.moment_of_inertia as int == moi_s(base, area_s(base), vw(r.center),
                    self.rigidbody_params.mass as int)
                &&& r.vertices@.len() == base.len()
                &&& forall|i: int| 0 <= i < base.len() ==>
                    vw(#[trigger] r.vertices@[i]) == rotate_about_s(vw(base[i]), vw(r.center),
                        self.rigidbody_params.rotation as int)
            }),
    {
        let body_params = &self.rigidbody_params;
        let chosen = match body_params.color {
            Option::Some(c) => c,
            Option::None => random_color,
        };

        let mut rigidbody: Rigidbody = match self.body_type {
            BodyType::Rectangle => Rigidbody::rectangle(
                body_params.width,
                body_params.height,
                body_params.pos,
                body_params.mass,
                body_params.restitution,
                chosen,
            ),
            _ => Rigidbody::polygon(
                body_params.sides,
                body_params.radius,
                body_params.pos,
                body_params.mass,
                body_params.restitution,
                chosen,
            ),
        };
        rigidbody.eternal = body_params.eternal;
        rigidbody.collision = body_params.collides;
        rigidbody.rotate(body_params.rotation);
        rigidbody.angular_velocity = body_params.angular_velocity;
        rigidbody.velocity = body_params.velocity;
        rigidbody.gravity_multiplier = body_params.gravity_multiplier;
        rigidbody
    }

    /// Builds a spring from the spring parameters, registering the two
    /// bodies in each other's connected-anchor sets.
    pub fn create_spring(&self, rigidbodies: &mut Vec<Rigidbody>) -> (r: Spring)
        requires
            self.body_type != BodyType::Spring,
            self.spring_params.body_a < old(rigidbodies)@.len(),
            self.spring_params.body_b < old(rigidbodies)@.len(),
            self.spring_params.body_a != self.spring_params.body_b,
        ensures
            final(rigidbodies)@.len() == old(rigidbodies)@.len(),
            forall|k: int| 0 <= k < old(rigidbodies)@.len()
                && k != self.spring_params.body_a && k != self.spring_params.body_b ==>
                #[trigger] final(rigidbodies)@[k] == old(rigidbodies)@[k],
            final(rigidbodies)@[self.spring_params.body_a as int].connected_anchors@
                == old(rigidbodies)@[self.spring_params.body_a as int].connected_anchors@.push(
                self.spring_params.body_b),
            final(rigidbodies)@[self.spring_params.body_b as int].connected_anchors@
                == old(rigidbodies)@[self.spring_params.body_b as int].connected_anchors@.push(
                self.spring_params.body_a),
            r.body_a == self.spring_params.body_a,
            r.body_b == self.spring_params.body_b,
            r.anchor_a == self.spring_params.anchor_a,
            r.anchor_b == self.spring_params.anchor_b,
            r.rest_length == self.spring_params.rest_length,
            r.stiffness == self.spring_params.stiffness,
            r.damping == self.spring_params.dampening,
    {
        let spring_params = &self.spring_params;
        Spring::new(
            spring_params.body_a,
            spring_params.body_b,
            spring_params.anchor_a,
            spring_params.anchor_b,
            spring_params.rest_length,
            spring_params.stiffness,
            spring_params.dampening,
            rigidbodies,
        )
    }

    /// Builds the small non-colliding marker body used to visualize a
    /// joint being placed.
    pub fn create_joint() -> (r: Rigidbody)
        ensures
            r.vertices@.len() == 32,
            !r.eternal,
            !r.collision,
            r.gravity_multiplier == 0,
            r.mass == FX_ONE,
            r.restitution == 0,
    {
        let mut rigidbody = Rigidbody::polygon(
            32,
            3277,
            Vec2::zero(),
            FX_ONE,
            0,
            ColorRGBA::white(),
        );
        rigidbody.eternal = false;
        rigidbody.collision = false;
        rigidbody.gravity_multiplier = 0;
        rigidbody
    }
}

} // verus!
