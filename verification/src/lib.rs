//! A verified 2D rigid-body physics engine.
//!
//! All simulation arithmetic is carried out in signed 64-bit fixed-point
//! numbers with 16 fractional bits, so that every numeric step has an exact
//! mathematical specification. Saturation replaces overflow, and division by
//! zero yields zero; both policies are stated precisely in the contracts.

pub mod fx;
pub mod math;
pub mod color;
pub mod enums;
pub mod ode_solver;
pub mod rigidbody;
pub mod collision_detection;
pub mod utility;
pub mod spring;
pub mod pivot_joint;
pub mod weld_joint;
pub mod energy;
pub mod physics;
pub mod collision_resolution;
pub mod body_builder;
