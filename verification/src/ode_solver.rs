//! Classical 4-stage Runge-Kutta steppers for linear and angular state.
//!
//! Every use in the engine advances motion under a force or torque that is
//! constant over the sub-step, so the steppers take that constant value
//! directly rather than a callback; a caller that wants a state-dependent
//! force evaluates it at the start of the sub-step, like every caller in
//! this engine does. The staged computation is kept so the rounding
//! behaviour matches the textbook scheme stage for stage.

use vstd::prelude::*;
use crate::fx::{Fx, FX_HALF, FX_TWO, FX_SIX, fx_add, fx_mul, fx_div, fx_add_s, fx_mul_s, fx_div_s};
use crate::math::{Vec2, V2i, vw, v_add_s, v_scale_s, v_div_s};

verus! {

/// The next position produced by one constant-force RK4 step. The final
/// stage is the fused rescale `(sum * dt) / 6`, which is exact whenever
/// the staged sum times the step is; a separate `dt / 6` would truncate
/// one sixth to 10922/65536 and lose the closed form for constant
/// acceleration.
pub open spec fn rk4_pos_s(x: V2i, v: V2i, dt: int, m: int, f: V2i) -> V2i {
    let a = v_div_s(f, m);
    let dt_half = fx_mul_s(32768, dt);
    let k1_x = v;
    let k2_x = v_add_s(v, v_scale_s(a, dt_half));
    let k3_x = v_add_s(v, v_scale_s(a, dt_half));
    let k4_x = v_add_s(v, v_scale_s(a, dt));
    let sum = v_add_s(v_add_s(v_add_s(k1_x, v_scale_s(k2_x, 131072)), v_scale_s(k3_x, 131072)), k4_x);
    v_add_s(x, v_div_s(v_scale_s(sum, dt), 393216))
}

/// The next velocity produced by one constant-force RK4 step.
pub open spec fn rk4_vel_s(v: V2i, dt: int, m: int, f: V2i) -> V2i {
    let a = v_div_s(f, m);
    let sum = v_add_s(v_add_s(v_add_s(a, v_scale_s(a, 131072)), v_scale_s(a, 131072)), a);
    v_add_s(v, v_div_s(v_scale_s(sum, dt), 393216))
}

/// Advances position `x` and velocity `v` by `dt` under the constant force
/// `force` acting on mass `m`.
pub fn rk4_step(x: Vec2, v: Vec2, dt: Fx, m: Fx, force: Vec2) -> (r: (Vec2, Vec2))
    ensures
        vw(r.0) == rk4_pos_s(vw(x), vw(v), dt as int, m as int, vw(force)),
        vw(r.1) == rk4_vel_s(vw(v), dt as int, m as int, vw(force)),
{
    let a = force.divided(m);
    let dt_half = fx_mul(FX_HALF, dt);

    let k1_x = v;
    let k2_x = v.plus(&a.scaled(dt_half));
    let k3_x = v.plus(&a.scaled(dt_half));
    let k4_x = v.plus(&a.scaled(dt));

    let sum_x = k1_x.plus(&k2_x.scaled(FX_TWO)).plus(&k3_x.scaled(FX_TWO)).plus(&k4_x);
    let x_next = x.plus(&sum_x.scaled(dt).divided(FX_SIX));

    let sum_v = a.plus(&a.scaled(FX_TWO)).plus(&a.scaled(FX_TWO)).plus(&a);
    let v_next = v.plus(&sum_v.scaled(dt).divided(FX_SIX));

    (x_next, v_next)
}

/// The next angle produced by one constant-torque RK4 step, with the same
/// fused `(sum * dt) / 6` final stage as the linear stepper, so a
/// zero-torque step advances the angle by exactly `omega * dt`.
pub open spec fn rk4_ang_s(angle: int, omega: int, dt: int, moi: int, tau: int) -> int {
    let alpha = fx_div_s(tau, moi);
    let dt_half = fx_mul_s(32768, dt);
    let k1_t = omega;
    let k2_t = fx_add_s(omega, fx_mul_s(dt_half, alpha));
    let k3_t = fx_add_s(omega, fx_mul_s(dt_half, alpha));
    let k4_t = fx_add_s(omega, fx_mul_s(dt, alpha));
    let sum = fx_add_s(
        fx_add_s(fx_add_s(k1_t, fx_mul_s(131072, k2_t)), fx_mul_s(131072, k3_t)),
        k4_t,
    );
    fx_add_s(angle, fx_div_s(fx_mul_s(sum, dt), 393216))
}

/// The next angular velocity produced by one constant-torque RK4 step.
pub open spec fn rk4_omega_s(omega: int, dt: int, moi: int, tau: int) -> int {
    let alpha = fx_div_s(tau, moi);
    let sum = fx_add_s(
        fx_add_s(fx_add_s(alpha, fx_mul_s(131072, alpha)), fx_mul_s(131072, alpha)),
        alpha,
    );
    fx_add_s(omega, fx_div_s(fx_mul_s(sum, dt), 393216))
}

/// Advances angle and angular velocity by `dt` under the constant torque
/// `torque` acting on a body with moment of inertia `moment_of_inertia`.
pub fn rk4_angular_step(
    angle: Fx,
    angular_velocity: Fx,
    dt: Fx,
    moment_of_inertia: Fx,
    torque: Fx,
) -> (r: (Fx, Fx))
    ensures
        r.0 == rk4_ang_s(angle as int, angular_velocity as int, dt as int,
            moment_of_inertia as int, torque as int),
        r.1 == rk4_omega_s(angular_velocity as int, dt as int, moment_of_inertia as int,
            torque as int),
{
    let alpha = fx_div(torque, moment_of_inertia);
    let dt_half = fx_mul(FX_HALF, dt);

    let k1_t = angular_velocity;
    let k2_t = fx_add(angular_velocity, fx_mul(dt_half, alpha));
    let k3_t = fx_add(angular_velocity, fx_mul(dt_half, alpha));
    let k4_t = fx_add(angular_velocity, fx_mul(dt, alpha));

    let sum_t = fx_add(fx_add(fx_add(k1_t, fx_mul(FX_TWO, k2_t)), fx_mul(FX_TWO, k3_t)), k4_t);
    let theta_next = fx_add(angle, fx_div(fx_mul(sum_t, dt), FX_SIX));

    let sum_o = fx_add(fx_add(fx_add(alpha, fx_mul(FX_TWO, alpha)), fx_mul(FX_TWO, alpha)), alpha);
    let omega_next = fx_add(angular_velocity, fx_div(fx_mul(sum_o, dt), FX_SIX));

    (theta_next, omega_next)
}

} // verus!
