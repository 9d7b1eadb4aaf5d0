//! The constraint assembler: for each joint it emits one velocity constraint
//! row per locked axis, plus one row per motored or limited free axis, into
//! the canonical order the solver visits. Each row's fields follow the
//! design: world-space anchor frames, the Jacobian row for the axis, the
//! inverse effective mass, a bias proportional to the positional error, and
//! warm-started impulse bounds.

use vstd::prelude::*;

use crate::constraint::{
    JointVelocityConstraint, JointVelocityGroundConstraint, SolverBody, WritebackId,
};
use crate::fx::{
    fx_add, fx_add_v, fx_div_v, fx_max, fx_mul, fx_mul_v, fx_neg, fx_sub, fx_sub_v, inv, inv_v,
    sat64, FX_ONE,
};
use crate::joint::{
    axis_bit, axis_bit_s, motor_params_s, ImpulseJoint, JointLimits, JointMotor,
};
use crate::params::IntegrationParameters;
use crate::quat::{quat_conj_s, quat_mul_s, quat_rotate_s, Iso};
use crate::sdp::sdp_transform_s;
use crate::vect::{
    v3_add_s, v3_comp_mul_s, v3_cross_s, v3_dot_s, v3_scale_s, v3_sub_s, Vec3,
};

verus! {

/// The local unit direction of axis `i` (axes 3 to 5 are the angular
/// counterparts of 0 to 2).
pub open spec fn unit_axis_s(i: int) -> Vec3 {
    if i == 0 || i == 3 {
        Vec3 { x: FX_ONE, y: 0i64, z: 0i64 }
    } else if i == 1 || i == 4 {
        Vec3 { x: 0i64, y: FX_ONE, z: 0i64 }
    } else {
        Vec3 { x: 0i64, y: 0i64, z: FX_ONE }
    }
}

/// The world direction of axis `i` of the first anchor frame.
pub open spec fn world_axis_s(f1: Iso, i: int) -> Vec3 {
    quat_rotate_s(f1.rotation, unit_axis_s(i))
}

/// The small-angle rotation error between the two anchor frames: twice the
/// imaginary part of the relative rotation.
pub open spec fn ang_err_s(f1: Iso, f2: Iso) -> Vec3 {
    let rel = quat_mul_s(f2.rotation, quat_conj_s(f1.rotation));
    v3_scale_s(Vec3 { x: rel.x, y: rel.y, z: rel.z }, 2 * (FX_ONE as int))
}

/// The geometry of one constraint row of axis `i`:
/// `(lin_jac, ang_jac1, ang_jac2, lhs, curr_vel, curr_pos)`, where `lhs` is
/// the effective-mass denominator `J M^-1 J^T`, `curr_vel` the measured
/// constraint-space velocity and `curr_pos` the positional error along the
/// axis.
pub open spec fn axis_geometry_s(
    b1: SolverBody,
    b2: SolverBody,
    f1: Iso,
    f2: Iso,
    i: int,
) -> (Vec3, Vec3, Vec3, int, int, int) {
    let axis = world_axis_s(f1, i);
    if i < 3 {
        let r1 = v3_sub_s(f1.translation, b1.world_com);
        let r2 = v3_sub_s(f2.translation, b2.world_com);
        let aj1 = sdp_transform_s(b1.sqrt_ii, v3_cross_s(r1, axis));
        let aj2 = sdp_transform_s(b2.sqrt_ii, v3_cross_s(r2, axis));
        let vel1 = v3_add_s(b1.linvel, v3_cross_s(b1.angvel, r1));
        let vel2 = v3_add_s(b2.linvel, v3_cross_s(b2.angvel, r2));
        let curr_vel = v3_dot_s(axis, v3_sub_s(vel2, vel1));
        let curr_pos = v3_dot_s(axis, v3_sub_s(f2.translation, f1.translation));
        let lhs = fx_add_v(
            fx_add_v(
                v3_dot_s(v3_comp_mul_s(axis, axis), v3_add_s(b1.im, b2.im)),
                v3_dot_s(aj1, aj1),
            ),
            v3_dot_s(aj2, aj2),
        );
        (axis, aj1, aj2, lhs, curr_vel, curr_pos)
    } else {
        let aj1 = sdp_transform_s(b1.sqrt_ii, axis);
        let aj2 = sdp_transform_s(b2.sqrt_ii, axis);
        let curr_vel = v3_dot_s(axis, v3_sub_s(b2.angvel, b1.angvel));
        let curr_pos = v3_dot_s(axis, ang_err_s(f1, f2));
        let lhs = fx_add_v(v3_dot_s(aj1, aj1), v3_dot_s(aj2, aj2));
        (Vec3 { x: 0i64, y: 0i64, z: 0i64 }, aj1, aj2, lhs, curr_vel, curr_pos)
    }
}

/// The local unit direction of axis `i`.
pub fn unit_axis(i: usize) -> (r: Vec3)
    requires
        i < 6,
    ensures
        r == unit_axis_s(i as int),
{
    if i == 0 || i == 3 {
        Vec3 { x: FX_ONE, y: 0, z: 0 }
    } else if i == 1 || i == 4 {
        Vec3 { x: 0, y: FX_ONE, z: 0 }
    } else {
        Vec3 { x: 0, y: 0, z: FX_ONE }
    }
}

fn axis_geometry(
    b1: &SolverBody,
    b2: &SolverBody,
    f1: &Iso,
    f2: &Iso,
    i: usize,
) -> (r: (Vec3, Vec3, Vec3, i64, i64, i64))
    requires
        i < 6,
    ensures
        ({
            let g = axis_geometry_s(*b1, *b2, *f1, *f2, i as int);
            &&& r.0 == g.0
            &&& r.1 == g.1
            &&& r.2 == g.2
            &&& r.3 as int == g.3
            &&& r.4 as int == g.4
            &&& r.5 as int == g.5
        }),
{
    let axis = f1.rotation.rotate(unit_axis(i));
    if i < 3 {
        let r1 = f1.translation.sub(b1.world_com);
        let r2 = f2.translation.sub(b2.world_com);
        let aj1 = b1.sqrt_ii.transform_vector(r1.gcross(axis));
        let aj2 = b2.sqrt_ii.transform_vector(r2.gcross(axis));
        let vel1 = b1.linvel.add(b1.angvel.gcross(r1));
        let vel2 = b2.linvel.add(b2.angvel.gcross(r2));
        let curr_vel = axis.gdot(vel2.sub(vel1));
        let curr_pos = axis.gdot(f2.translation.sub(f1.translation));
        let lhs = fx_add(
            fx_add(
                axis.component_mul(axis).gdot(b1.im.add(b2.im)),
                aj1.gdot(aj1),
            ),
            aj2.gdot(aj2),
        );
        (axis, aj1, aj2, lhs, curr_vel, curr_pos)
    } else {
        let aj1 = b1.sqrt_ii.transform_vector(axis);
        let aj2 = b2.sqrt_ii.transform_vector(axis);
        let curr_vel = axis.gdot(b2.angvel.sub(b1.angvel));
        let rel = f2.rotation.mul(f1.rotation.conjugate());
        let curr_pos = axis.gdot(rel.imag().scale(2 * FX_ONE));
        let lhs = fx_add(aj1.gdot(aj1), aj2.gdot(aj2));
        (Vec3::zero(), aj1, aj2, lhs, curr_vel, curr_pos)
    }
}

/// The exact equality row locking axis `i` of a joint between two dynamic
/// bodies: unbounded impulse, full error-reduction bias.
pub open spec fn dof_constraint_s(
    p: IntegrationParameters,
    joint_id: usize,
    b1: SolverBody,
    b2: SolverBody,
    f1: Iso,
    f2: Iso,
    cached: i64,
    i: int,
) -> JointVelocityConstraint {
    let g = axis_geometry_s(b1, b2, f1, f2, i);
    JointVelocityConstraint {
        mj_lambda1: b1.mj_lambda,
        mj_lambda2: b2.mj_lambda,
        joint_id,
        im1: b1.im,
        im2: b2.im,
        lin_jac: g.0,
        ang_jac1: g.1,
        ang_jac2: g.2,
        inv_lhs: inv_v(g.3) as i64,
        rhs: fx_add_v(g.4, fx_mul_v(g.5, fx_div_v(p.joint_erp as int, p.dt as int))) as i64,
        rhs_wo_bias: g.4 as i64,
        impulse: fx_mul_v(cached as int, p.warmstart_coeff as int) as i64,
        impulse_bounds: [i64::MIN, i64::MAX],
        writeback_id: WritebackId::Dof(i as usize),
    }
}

/// The exact motor row driving free axis `i` toward its target position and
/// velocity, bounded by the motor's maximum impulse.
pub open spec fn motor_constraint_s(
    p: IntegrationParameters,
    joint_id: usize,
    b1: SolverBody,
    b2: SolverBody,
    f1: Iso,
    f2: Iso,
    m: JointMotor,
    cached: i64,
    i: int,
) -> JointVelocityConstraint {
    let g = axis_geometry_s(b1, b2, f1, f2, i);
    let mp = motor_params_s(m, p.dt as int);
    let rhs = fx_add_v(
        fx_mul_v(fx_sub_v(g.5, mp.target_pos as int), mp.stiffness as int),
        fx_mul_v(fx_sub_v(g.4, mp.target_vel as int), mp.damping as int),
    );
    let max_imp = if mp.max_impulse < 0 {
        0
    } else {
        mp.max_impulse as int
    };
    JointVelocityConstraint {
        mj_lambda1: b1.mj_lambda,
        mj_lambda2: b2.mj_lambda,
        joint_id,
        im1: b1.im,
        im2: b2.im,
        lin_jac: g.0,
        ang_jac1: g.1,
        ang_jac2: g.2,
        inv_lhs: inv_v(g.3) as i64,
        rhs: rhs as i64,
        rhs_wo_bias: rhs as i64,
        impulse: fx_mul_v(cached as int, p.warmstart_coeff as int) as i64,
        impulse_bounds: [sat64(-max_imp) as i64, max_imp as i64],
        writeback_id: WritebackId::Motor(i as usize),
    }
}

/// The exact limit row of free axis `i`: one-sided impulse bounds enabled
/// only on the violated side, bias proportional to the overshoot.
pub open spec fn limit_constraint_s(
    p: IntegrationParameters,
    joint_id: usize,
    b1: SolverBody,
    b2: SolverBody,
    f1: Iso,
    f2: Iso,
    l: JointLimits,
    cached: i64,
    i: int,
) -> JointVelocityConstraint {
    let g = axis_geometry_s(b1, b2, f1, f2, i);
    let min_enabled = g.5 < l.min;
    let max_enabled = (l.max as int) < g.5;
    let over_max = if fx_sub_v(g.5, l.max as int) >= 0 {
        fx_sub_v(g.5, l.max as int)
    } else {
        0
    };
    let under_min = if fx_sub_v(l.min as int, g.5) >= 0 {
        fx_sub_v(l.min as int, g.5)
    } else {
        0
    };
    let rhs_bias = fx_mul_v(
        fx_sub_v(over_max, under_min),
        fx_div_v(p.erp as int, p.dt as int),
    );
    JointVelocityConstraint {
        mj_lambda1: b1.mj_lambda,
        mj_lambda2: b2.mj_lambda,
        joint_id,
        im1: b1.im,
        im2: b2.im,
        lin_jac: g.0,
        ang_jac1: g.1,
        ang_jac2: g.2,
        inv_lhs: inv_v(g.3) as i64,
        rhs: fx_add_v(g.4, rhs_bias) as i64,
        rhs_wo_bias: g.4 as i64,
        impulse: fx_mul_v(cached as int, p.warmstart_coeff as int) as i64,
        impulse_bounds: [
            if min_enabled {
                i64::MIN
            } else {
                0i64
            },
            if max_enabled {
                i64::MAX
            } else {
                0i64
            },
        ],
        writeback_id: WritebackId::Limit(i as usize),
    }
}

pub(crate) fn dof_constraint(
    p: &IntegrationParameters,
    joint_id: usize,
    b1: &SolverBody,
    b2: &SolverBody,
    f1: &Iso,
    f2: &Iso,
    cached: i64,
    i: usize,
) -> (c: JointVelocityConstraint)
    requires
        i < 6,
    ensures
        c == dof_constraint_s(*p, joint_id, *b1, *b2, *f1, *f2, cached, i as int),
{
    let g = axis_geometry(b1, b2, f1, f2, i);
    JointVelocityConstraint {
        mj_lambda1: b1.mj_lambda,
        mj_lambda2: b2.mj_lambda,
        joint_id,
        im1: b1.im,
        im2: b2.im,
        lin_jac: g.0,
        ang_jac1: g.1,
        ang_jac2: g.2,
        inv_lhs: inv(g.3),
        rhs: fx_add(g.4, fx_mul(g.5, p.joint_erp_inv_dt())),
        rhs_wo_bias: g.4,
        impulse: fx_mul(cached, p.warmstart_coeff),
        impulse_bounds: [i64::MIN, i64::MAX],
        writeback_id: WritebackId::Dof(i),
    }
}

fn motor_constraint(
    p: &IntegrationParameters,
    joint_id: usize,
    b1: &SolverBody,
    b2: &SolverBody,
    f1: &Iso,
    f2: &Iso,
    m: &JointMotor,
    cached: i64,
    i: usize,
) -> (c: JointVelocityConstraint)
    requires
        i < 6,
    ensures
        c == motor_constraint_s(*p, joint_id, *b1, *b2, *f1, *f2, *m, cached, i as int),
{
    let g = axis_geometry(b1, b2, f1, f2, i);
    let mp = m.motor_params(p.dt);
    let rhs = fx_add(
        fx_mul(fx_sub(g.5, mp.target_pos), mp.stiffness),
        fx_mul(fx_sub(g.4, mp.target_vel), mp.damping),
    );
    let max_imp = fx_max(mp.max_impulse, 0);
    JointVelocityConstraint {
        mj_lambda1: b1.mj_lambda,
        mj_lambda2: b2.mj_lambda,
        joint_id,
        im1: b1.im,
        im2: b2.im,
        lin_jac: g.0,
        ang_jac1: g.1,
        ang_jac2: g.2,
        inv_lhs: inv(g.3),
        rhs,
        rhs_wo_bias: rhs,
        impulse: fx_mul(cached, p.warmstart_coeff),
        impulse_bounds: [fx_neg(max_imp), max_imp],
        writeback_id: WritebackId::Motor(i),
    }
}

fn limit_constraint(
    p: &IntegrationParameters,
    joint_id: usize,
    b1: &SolverBody,
    b2: &SolverBody,
    f1: &Iso,
    f2: &Iso,
    l: &JointLimits,
    cached: i64,
    i: usize,
) -> (c: JointVelocityConstraint)
    requires
        i < 6,
    ensures
        c == limit_constraint_s(*p, joint_id, *b1, *b2, *f1, *f2, *l, cached, i as int),
{
    let g = axis_geometry(b1, b2, f1, f2, i);
    let min_enabled = g.5 < l.min;
    let max_enabled = l.max < g.5;
    let over_max = fx_max(fx_sub(g.5, l.max), 0);
    let under_min = fx_max(fx_sub(l.min, g.5), 0);
    let rhs_bias = fx_mul(fx_sub(over_max, under_min), p.erp_inv_dt());
    JointVelocityConstraint {
        mj_lambda1: b1.mj_lambda,
        mj_lambda2: b2.mj_lambda,
        joint_id,
        im1: b1.im,
        im2: b2.im,
        lin_jac: g.0,
        ang_jac1: g.1,
        ang_jac2: g.2,
        inv_lhs: inv(g.3),
        rhs: fx_add(g.4, rhs_bias),
        rhs_wo_bias: g.4,
        impulse: fx_mul(cached, p.warmstart_coeff),
        impulse_bounds: [
            if min_enabled {
                i64::MIN
            } else {
                0
            },
            if max_enabled {
                i64::MAX
            } else {
                0
            },
        ],
        writeback_id: WritebackId::Limit(i),
    }
}

/// The exact sequence of rows emitted for the first `n` axes of a joint, in
/// axis order: a locked axis contributes its equality row; a free axis
/// contributes its motor row and then its limit row where present.
pub open spec fn joint_constraints_upto_s(
    p: IntegrationParameters,
    joint_id: usize,
    b1: SolverBody,
    b2: SolverBody,
    f1: Iso,
    f2: Iso,
    j: ImpulseJoint,
    n: int,
) -> Seq<JointVelocityConstraint>
    decreases n,
{
    if n <= 0 {
        Seq::empty()
    } else {
        let prev = joint_constraints_upto_s(p, joint_id, b1, b2, f1, f2, j, n - 1);
        let i = n - 1;
        if axis_bit_s(j.data.locked_axes, i) {
            prev.push(dof_constraint_s(p, joint_id, b1, b2, f1, f2, j.impulses@[i], i))
        } else {
            let with_motor = if axis_bit_s(j.data.motor_axes, i) {
                prev.push(
                    motor_constraint_s(
                        p,
                        joint_id,
                        b1,
                        b2,
                        f1,
                        f2,
                        j.data.motors@[i],
                        j.motor_impulses@[i],
                        i,
                    ),
                )
            } else {
                prev
            };
            if axis_bit_s(j.data.limit_axes, i) {
                with_motor.push(
                    limit_constraint_s(
                        p,
                        joint_id,
                        b1,
                        b2,
                        f1,
                        f2,
                        j.data.limits@[i],
                        j.limit_impulses@[i],
                        i,
                    ),
                )
            } else {
                with_motor
            }
        }
    }
}

/// The exact sequence of rows emitted for a joint between two dynamic
/// bodies.
pub open spec fn joint_constraints_s(
    p: IntegrationParameters,
    joint_id: usize,
    b1: SolverBody,
    b2: SolverBody,
    f1: Iso,
    f2: Iso,
    j: ImpulseJoint,
) -> Seq<JointVelocityConstraint> {
    joint_constraints_upto_s(p, joint_id, b1, b2, f1, f2, j, 6)
}

/// The geometry of one ground constraint row of axis `i`: as
/// `axis_geometry_s`, but the effective-mass denominator counts only the
/// dynamic body, the static side being immovable.
pub open spec fn axis_geometry_ground_s(
    b1: SolverBody,
    b2: SolverBody,
    f1: Iso,
    f2: Iso,
    i: int,
) -> (Vec3, Vec3, int, int, int) {
    let g = axis_geometry_s(b1, b2, f1, f2, i);
    let axis = g.0;
    let aj2 = g.2;
    let lhs = if i < 3 {
        fx_add_v(v3_dot_s(v3_comp_mul_s(axis, axis), b2.im), v3_dot_s(aj2, aj2))
    } else {
        v3_dot_s(aj2, aj2)
    };
    (g.0, g.2, lhs, g.4, g.5)
}

pub(crate) fn axis_geometry_ground(
    b1: &SolverBody,
    b2: &SolverBody,
    f1: &Iso,
    f2: &Iso,
    i: usize,
) -> (r: (Vec3, Vec3, i64, i64, i64))
    requires
        i < 6,
    ensures
        ({
            let g = axis_geometry_ground_s(*b1, *b2, *f1, *f2, i as int);
            &&& r.0 == g.0
            &&& r.1 == g.1
            &&& r.2 as int == g.2
            &&& r.3 as int == g.3
            &&& r.4 as int == g.4
        }),
{
    let axis = f1.rotation.rotate(unit_axis(i));
    if i < 3 {
        let r1 = f1.translation.sub(b1.world_com);
        let r2 = f2.translation.sub(b2.world_com);
        let aj2 = b2.sqrt_ii.transform_vector(r2.gcross(axis));
        let vel1 = b1.linvel.add(b1.angvel.gcross(r1));
        let vel2 = b2.linvel.add(b2.angvel.gcross(r2));
        let curr_vel = axis.gdot(vel2.sub(vel1));
        let curr_pos = axis.gdot(f2.translation.sub(f1.translation));
        let lhs = fx_add(axis.component_mul(axis).gdot(b2.im), aj2.gdot(aj2));
        (axis, aj2, lhs, curr_vel, curr_pos)
    } else {
        let aj2 = b2.sqrt_ii.transform_vector(axis);
        let curr_vel = axis.gdot(b2.angvel.sub(b1.angvel));
        let rel = f2.rotation.mul(f1.rotation.conjugate());
        let curr_pos = axis.gdot(rel.imag().scale(2 * FX_ONE));
        let lhs = aj2.gdot(aj2);
        (Vec3::zero(), aj2, lhs, curr_vel, curr_pos)
    }
}

/// The exact ground equality row locking axis `i`.
pub open spec fn dof_ground_constraint_s(
    p: IntegrationParameters,
    joint_id: usize,
    b1: SolverBody,
    b2: SolverBody,
    f1: Iso,
    f2: Iso,
    cached: i64,
    i: int,
) -> JointVelocityGroundConstraint {
    let g = axis_geometry_ground_s(b1, b2, f1, f2, i);
    JointVelocityGroundConstraint {
        mj_lambda2: b2.mj_lambda,
        joint_id,
        im2: b2.im,
        lin_jac: g.0,
        ang_jac2: g.1,
        inv_lhs: inv_v(g.2) as i64,
        rhs: fx_add_v(g.3, fx_mul_v(g.4, fx_div_v(p.joint_erp as int, p.dt as int))) as i64,
        rhs_wo_bias: g.3 as i64,
        impulse: fx_mul_v(cached as int, p.warmstart_coeff as int) as i64,
        impulse_bounds: [i64::MIN, i64::MAX],
        writeback_id: WritebackId::Dof(i as usize),
    }
}

/// The exact ground motor row of free axis `i`.
pub open spec fn motor_ground_constraint_s(
    p: IntegrationParameters,
    joint_id: usize,
    b1: SolverBody,
    b2: SolverBody,
    f1: Iso,
    f2: Iso,
    m: JointMotor,
    cached: i64,
    i: int,
) -> JointVelocityGroundConstraint {
    let g = axis_geometry_ground_s(b1, b2, f1, f2, i);
    let mp = motor_params_s(m, p.dt as int);
    let rhs = fx_add_v(
        fx_mul_v(fx_sub_v(g.4, mp.target_pos as int), mp.stiffness as int),
        fx_mul_v(fx_sub_v(g.3, mp.target_vel as int), mp.damping as int),
    );
    let max_imp = if mp.max_impulse < 0 {
        0
    } else {
        mp.max_impulse as int
    };
    JointVelocityGroundConstraint {
        mj_lambda2: b2.mj_lambda,
        joint_id,
        im2: b2.im,
        lin_jac: g.0,
        ang_jac2: g.1,
        inv_lhs: inv_v(g.2) as i64,
        rhs: rhs as i64,
        rhs_wo_bias: rhs as i64,
        impulse: fx_mul_v(cached as int, p.warmstart_coeff as int) as i64,
        impulse_bounds: [sat64(-max_imp) as i64, max_imp as i64],
        writeback_id: WritebackId::Motor(i as usize),
    }
}

/// The exact ground limit row of free axis `i`.
pub open spec fn limit_ground_constraint_s(
    p: IntegrationParameters,
    joint_id: usize,
    b1: SolverBody,
    b2: SolverBody,
    f1: Iso,
    f2: Iso,
    l: JointLimits,
    cached: i64,
    i: int,
) -> JointVelocityGroundConstraint {
    let g = axis_geometry_ground_s(b1, b2, f1, f2, i);
    let min_enabled = g.4 < l.min;
    let max_enabled = (l.max as int) < g.4;
    let over_max = if fx_sub_v(g.4, l.max as int) >= 0 {
        fx_sub_v(g.4, l.max as int)
    } else {
        0
    };
    let under_min = if fx_sub_v(l.min as int, g.4) >= 0 {
        fx_sub_v(l.min as int, g.4)
    } else {
        0
    };
    let rhs_bias = fx_mul_v(fx_sub_v(over_max, under_min), fx_div_v(p.erp as int, p.dt as int));
    JointVelocityGroundConstraint {
        mj_lambda2: b2.mj_lambda,
        joint_id,
        im2: b2.im,
        lin_jac: g.0,
        ang_jac2: g.1,
        inv_lhs: inv_v(g.2) as i64,
        rhs: fx_add_v(g.3, rhs_bias) as i64,
        rhs_wo_bias: g.3 as i64,
        impulse: fx_mul_v(cached as int, p.warmstart_coeff as int) as i64,
        impulse_bounds: [
            if min_enabled {
                i64::MIN
            } else {
                0i64
            },
            if max_enabled {
                i64::MAX
            } else {
                0i64
            },
        ],
        writeback_id: WritebackId::Limit(i as usize),
    }
}

pub(crate) fn dof_ground_constraint(
    p: &IntegrationParameters,
    joint_id: usize,
    b1: &SolverBody,
    b2: &SolverBody,
    f1: &Iso,
    f2: &Iso,
    cached: i64,
    i: usize,
) -> (c: JointVelocityGroundConstraint)
    requires
        i < 6,
    ensures
        c == dof_ground_constraint_s(*p, joint_id, *b1, *b2, *f1, *f2, cached, i as int),
{
    let g = axis_geometry_ground(b1, b2, f1, f2, i);
    JointVelocityGroundConstraint {
        mj_lambda2: b2.mj_lambda,
        joint_id,
        im2: b2.im,
        lin_jac: g.0,
        ang_jac2: g.1,
        inv_lhs: inv(g.2),
        rhs: fx_add(g.3, fx_mul(g.4, p.joint_erp_inv_dt())),
        rhs_wo_bias: g.3,
        impulse: fx_mul(cached, p.warmstart_coeff),
        impulse_bounds: [i64::MIN, i64::MAX],
        writeback_id: WritebackId::Dof(i),
    }
}

fn motor_ground_constraint(
    p: &IntegrationParameters,
    joint_id: usize,
    b1: &SolverBody,
    b2: &SolverBody,
    f1: &Iso,
    f2: &Iso,
    m: &JointMotor,
    cached: i64,
    i: usize,
) -> (c: JointVelocityGroundConstraint)
    requires
        i < 6,
    ensures
        c == motor_ground_constraint_s(*p, joint_id, *b1, *b2, *f1, *f2, *m, cached, i as int),
{
    let g = axis_geometry_ground(b1, b2, f1, f2, i);
    let mp = m.motor_params(p.dt);
    let rhs = fx_add(
        fx_mul(fx_sub(g.4, mp.target_pos), mp.stiffness),
        fx_mul(fx_sub(g.3, mp.target_vel), mp.damping),
    );
    let max_imp = fx_max(mp.max_impulse, 0);
    JointVelocityGroundConstraint {
        mj_lambda2: b2.mj_lambda,
        joint_id,
        im2: b2.im,
        lin_jac: g.0,
        ang_jac2: g.1,
        inv_lhs: inv(g.2),
        rhs,
        rhs_wo_bias: rhs,
        impulse: fx_mul(cached, p.warmstart_coeff),
        impulse_bounds: [fx_neg(max_imp), max_imp],
        writeback_id: WritebackId::Motor(i),
    }
}

fn limit_ground_constraint(
    p: &IntegrationParameters,
    joint_id: usize,
    b1: &SolverBody,
    b2: &SolverBody,
    f1: &Iso,
    f2: &Iso,
    l: &JointLimits,
    cached: i64,
    i: usize,
) -> (c: JointVelocityGroundConstraint)
    requires
        i < 6,
    ensures
        c == limit_ground_constraint_s(*p, joint_id, *b1, *b2, *f1, *f2, *l, cached, i as int),
{
    let g = axis_geometry_ground(b1, b2, f1, f2, i);
    let min_enabled = g.4 < l.min;
    let max_enabled = l.max < g.4;
    let over_max = fx_max(fx_sub(g.4, l.max), 0);
    let under_min = fx_max(fx_sub(l.min, g.4), 0);
    let rhs_bias = fx_mul(fx_sub(over_max, under_min), p.erp_inv_dt());
    JointVelocityGroundConstraint {
        mj_lambda2: b2.mj_lambda,
        joint_id,
        im2: b2.im,
        lin_jac: g.0,
        ang_jac2: g.1,
        inv_lhs: inv(g.2),
        rhs: fx_add(g.3, rhs_bias),
        rhs_wo_bias: g.3,
        impulse: fx_mul(cached, p.warmstart_coeff),
        impulse_bounds: [
            if min_enabled {
                i64::MIN
            } else {
                0
            },
            if max_enabled {
                i64::MAX
            } else {
                0
            },
        ],
        writeback_id: WritebackId::Limit(i),
    }
}

/// The exact sequence of ground rows emitted for the first `n` axes of a
/// joint whose first body is not dynamic.
pub open spec fn joint_ground_constraints_upto_s(
    p: IntegrationParameters,
    joint_id: usize,
    b1: SolverBody,
    b2: SolverBody,
    f1: Iso,
    f2: Iso,
    j: ImpulseJoint,
    n: int,
) -> Seq<JointVelocityGroundConstraint>
    decreases n,
{
    if n <= 0 {
        Seq::empty()
    } else {
        let prev = joint_ground_constraints_upto_s(p, joint_id, b1, b2, f1, f2, j, n - 1);
        let i = n - 1;
        if axis_bit_s(j.data.locked_axes, i) {
            prev.push(dof_ground_constraint_s(p, joint_id, b1, b2, f1, f2, j.impulses@[i], i))
        } else {
            let with_motor = if axis_bit_s(j.data.motor_axes, i) {
                prev.push(
                    motor_ground_constraint_s(
                        p,
                        joint_id,
                        b1,
                        b2,
                        f1,
                        f2,
                        j.data.motors@[i],
                        j.motor_impulses@[i],
                        i,
                    ),
                )
            } else {
                prev
            };
            if axis_bit_s(j.data.limit_axes, i) {
                with_motor.push(
                    limit_ground_constraint_s(
                        p,
                        joint_id,
                        b1,
                        b2,
                        f1,
                        f2,
                        j.data.limits@[i],
                        j.limit_impulses@[i],
                        i,
                    ),
                )
            } else {
                with_motor
            }
        }
    }
}

/// The exact sequence of ground rows emitted for a joint whose first body is
/// not dynamic.
pub open spec fn joint_ground_constraints_s(
    p: IntegrationParameters,
    joint_id: usize,
    b1: SolverBody,
    b2: SolverBody,
    f1: Iso,
    f2: Iso,
    j: ImpulseJoint,
) -> Seq<JointVelocityGroundConstraint> {
    joint_ground_constraints_upto_s(p, joint_id, b1, b2, f1, f2, j, 6)
}

impl JointVelocityGroundConstraint {
    /// Emits the ground velocity rows of a joint whose first body is not
    /// dynamic into `out`, in canonical axis order, and returns how many
    /// were emitted.
    pub fn lock_axes(
        p: &IntegrationParameters,
        joint_id: usize,
        b1: &SolverBody,
        b2: &SolverBody,
        f1: &Iso,
        f2: &Iso,
        joint: &ImpulseJoint,
        out: &mut Vec<JointVelocityGroundConstraint>,
    ) -> (len: usize)
        ensures
            final(out)@ == old(out)@ + joint_ground_constraints_s(
                *p,
                joint_id,
                *b1,
                *b2,
                *f1,
                *f2,
                *joint,
            ),
            old(out)@.len() + len == final(out)@.len(),
    {
        let ghost base = out@;
        let start = out.len();
        let mut i: usize = 0;
        while i < 6
            invariant
                i <= 6,
                out@.len() >= start,
                out@ == base + joint_ground_constraints_upto_s(
                    *p,
                    joint_id,
                    *b1,
                    *b2,
                    *f1,
                    *f2,
                    *joint,
                    i as int,
                ),
            decreases 6 - i,
        {
            if axis_bit(joint.data.locked_axes, i) {
                let c = dof_ground_constraint(p, joint_id, b1, b2, f1, f2, joint.impulses[i], i);
                out.push(c);
            } else {
                if axis_bit(joint.data.motor_axes, i) {
                    let c = motor_ground_constraint(
                        p,
                        joint_id,
                        b1,
                        b2,
                        f1,
                        f2,
                        &joint.data.motors[i],
                        joint.motor_impulses[i],
                        i,
                    );
                    out.push(c);
                }
                if axis_bit(joint.data.limit_axes, i) {
                    let c = limit_ground_constraint(
                        p,
                        joint_id,
                        b1,
                        b2,
                        f1,
                        f2,
                        &joint.data.limits[i],
                        joint.limit_impulses[i],
                        i,
                    );
                    out.push(c);
                }
            }
            i += 1;
        }
        out.len() - start
    }
}

impl JointVelocityConstraint {
    /// Emits the velocity rows of a joint between two dynamic bodies into
    /// `out`, in canonical axis order, and returns how many were emitted.
    pub fn lock_axes(
        p: &IntegrationParameters,
        joint_id: usize,
        b1: &SolverBody,
        b2: &SolverBody,
        f1: &Iso,
        f2: &Iso,
        joint: &ImpulseJoint,
        out: &mut Vec<JointVelocityConstraint>,
    ) -> (len: usize)
        ensures
            final(out)@ == old(out)@ + joint_constraints_s(
                *p,
                joint_id,
                *b1,
                *b2,
                *f1,
                *f2,
                *joint,
            ),
            old(out)@.len() + len == final(out)@.len(),
    {
        let ghost base = out@;
        let start = out.len();
        let mut i: usize = 0;
        while i < 6
            invariant
                i <= 6,
                out@ == base + joint_constraints_upto_s(
                    *p,
                    joint_id,
                    *b1,
                    *b2,
                    *f1,
                    *f2,
                    *joint,
                    i as int,
                ),
            decreases 6 - i,
        {
            if axis_bit(joint.data.locked_axes, i) {
                let c = dof_constraint(p, joint_id, b1, b2, f1, f2, joint.impulses[i], i);
                out.push(c);
            } else {
                if axis_bit(joint.data.motor_axes, i) {
                    let c = motor_constraint(
                        p,
                        joint_id,
                        b1,
                        b2,
                        f1,
                        f2,
                        &joint.data.motors[i],
                        joint.motor_impulses[i],
                        i,
                    );
                    out.push(c);
                }
                if axis_bit(joint.data.limit_axes, i) {
                    let c = limit_constraint(
                        p,
                        joint_id,
                        b1,
                        b2,
                        f1,
                        f2,
                        &joint.data.limits[i],
                        joint.limit_impulses[i],
                        i,
                    );
                    out.push(c);
                }
            }
            i += 1;
        }
        out.len() - start
    }
}

} // verus!
