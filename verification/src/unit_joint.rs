//! Constraints on a single generalized degree of freedom of a multibody:
//! the shared unit-row construction, and the limit and motor constraints of
//! a multibody joint. A unit row writes `J = e_dof` and `M^-1 J^T` (through
//! the articulated inverse mass) into the shared Jacobian buffer and emits a
//! generic ground row consulting that block.

use vstd::prelude::*;

use crate::constraint::WritebackId;
use crate::fx::{fx_add, fx_add_v, fx_div_v, fx_max, fx_mul, fx_mul_v, fx_sub, fx_sub_v, inv, inv_v, FX_ONE};
use crate::generic::JointGenericVelocityGroundConstraint;
use crate::joint::{motor_params_s, JointMotor};
use crate::joint_constraint::AnyJointVelocityConstraint;
use crate::multibody::{ldlt_solve_s, multibody_wf, Multibody, MultibodyLink};
use crate::params::IntegrationParameters;

verus! {

/// A sequence with the entries of `[a, b)` replaced by zero.
pub open spec fn zero_range_s(s: Seq<i64>, a: int, b: int) -> Seq<i64> {
    Seq::new(s.len(), |k: int| if a <= k < b { 0i64 } else { s[k] })
}

/// A sequence with entry `i` replaced by `v`; unchanged in length whatever
/// `i` is.
pub open spec fn set_at_s(s: Seq<i64>, i: int, v: i64) -> Seq<i64> {
    Seq::new(s.len(), |k: int| if k == i { v } else { s[k] })
}

/// A sequence with `sub` written at offset `off`.
pub open spec fn write_range_s(s: Seq<i64>, off: int, sub: Seq<i64>) -> Seq<i64> {
    Seq::new(s.len(), |k: int| if off <= k < off + sub.len() { sub[k - off] } else { s[k] })
}

/// The exact Jacobian buffer after building one unit row: the row's block
/// zeroed, ones seeded at the degree of freedom's column in both halves,
/// and the second half solved against the articulated inverse mass.
pub open spec fn unit_jac_after_s(
    l: Seq<i64>,
    d: Seq<i64>,
    n: int,
    jac: Seq<i64>,
    j_id: int,
    dof_j_id: int,
) -> Seq<i64> {
    let zeroed = zero_range_s(jac, j_id, j_id + 2 * n);
    let seeded = set_at_s(set_at_s(zeroed, dof_j_id, FX_ONE), dof_j_id + n, FX_ONE);
    let solved = ldlt_solve_s(l, d, n, seeded.subrange(j_id + n, j_id + 2 * n));
    write_range_s(seeded, j_id + n, solved)
}

/// The exact generic ground row built over one generalized degree of
/// freedom, with the given right-hand side and impulse bounds.
pub open spec fn unit_row_s(
    mb: Multibody,
    link: MultibodyLink,
    jac: Seq<i64>,
    j_id: int,
    joint_id: usize,
    rhs_wo_bias: i64,
    rhs_bias: i64,
    lo: i64,
    hi: i64,
    wb: WritebackId,
    dof_id: int,
) -> JointGenericVelocityGroundConstraint {
    let n = mb.ndofs as int;
    let dof_j_id = j_id + dof_id + link.assembly_id;
    let jac2 = unit_jac_after_s(
        mb.inv_augmented_mass.l@,
        mb.inv_augmented_mass.d@,
        n,
        jac,
        j_id,
        dof_j_id,
    );
    JointGenericVelocityGroundConstraint {
        mj_lambda2: mb.solver_id,
        ndofs2: mb.ndofs,
        j_id2: j_id as usize,
        joint_id,
        impulse: 0,
        impulse_bounds: [lo, hi],
        inv_lhs: inv_v(jac2[dof_j_id + n] as int) as i64,
        rhs: fx_add_v(rhs_wo_bias as int, rhs_bias as int) as i64,
        rhs_wo_bias,
        writeback_id: wb,
    }
}

/// Builds one unit row: fills the Jacobian block and returns the generic
/// ground constraint consulting it, advancing the buffer cursor.
pub fn unit_row(
    multibody: &Multibody,
    link: &MultibodyLink,
    joint_id: usize,
    rhs_wo_bias: i64,
    rhs_bias: i64,
    lo: i64,
    hi: i64,
    wb: WritebackId,
    dof_id: usize,
    j_id: &mut usize,
    jacobians: &mut Vec<i64>,
) -> (c: (JointGenericVelocityGroundConstraint, i64))
    requires
        multibody_wf(*multibody),
        link.assembly_id + link.ndofs <= multibody.ndofs,
        dof_id < link.ndofs,
        *old(j_id) + 2 * multibody.ndofs <= old(jacobians)@.len(),
        lo <= hi,
    ensures
        c.1 as int == unit_jac_after_s(
            multibody.inv_augmented_mass.l@,
            multibody.inv_augmented_mass.d@,
            multibody.ndofs as int,
            old(jacobians)@,
            *old(j_id) as int,
            *old(j_id) + dof_id + link.assembly_id,
        )[*old(j_id) + dof_id + link.assembly_id + multibody.ndofs] as int,
        c.0 == unit_row_s(
            *multibody,
            *link,
            old(jacobians)@,
            *old(j_id) as int,
            joint_id,
            rhs_wo_bias,
            rhs_bias,
            lo,
            hi,
            wb,
            dof_id as int,
        ),
        final(jacobians)@ == unit_jac_after_s(
            multibody.inv_augmented_mass.l@,
            multibody.inv_augmented_mass.d@,
            multibody.ndofs as int,
            old(jacobians)@,
            *old(j_id) as int,
            *old(j_id) + dof_id + link.assembly_id,
        ),
        final(jacobians)@.len() == old(jacobians)@.len(),
        *final(j_id) == *old(j_id) + 2 * multibody.ndofs,
{
    let ndofs = multibody.ndofs();
    let j0 = *j_id;
    let jlen = jacobians.len();
    let dof_j_id = j0 + dof_id + link.assembly_id;
    let ghost jac0 = jacobians@;
    // Zero the block.
    let mut k: usize = 0;
    while k < 2 * ndofs
        invariant
            k <= 2 * ndofs,
            j0 + 2 * ndofs <= jlen,
            jlen == jacobians@.len(),
            jacobians@.len() == jac0.len(),
            forall|m: int|
                0 <= m < jac0.len() ==> jacobians@[m] == (if j0 <= m < j0 + k {
                    0i64
                } else {
                    jac0[m]
                }),
        decreases 2 * ndofs - k,
    {
        jacobians.set(j0 + k, 0);
        k += 1;
    }
    proof {
        assert(jacobians@ =~= zero_range_s(jac0, j0 as int, j0 + 2 * ndofs));
    }
    // Seed the unit entries.
    let ghost zeroed = jacobians@;
    jacobians.set(dof_j_id, FX_ONE);
    jacobians.set(dof_j_id + ndofs, FX_ONE);
    let ghost seeded = jacobians@;
    proof {
        assert(seeded =~= set_at_s(set_at_s(zeroed, dof_j_id as int, FX_ONE), dof_j_id + ndofs, FX_ONE));
    }
    // Solve the weighted half against the articulated inverse mass.
    let mut sub: Vec<i64> = Vec::new();
    let mut k2: usize = 0;
    while k2 < ndofs
        invariant
            k2 <= ndofs,
            j0 + 2 * ndofs <= jlen,
            jlen == jacobians@.len(),
            jacobians@ == seeded,
            sub@ == seeded.subrange(j0 + ndofs, j0 + ndofs + k2),
        decreases ndofs - k2,
    {
        sub.push(jacobians[j0 + ndofs + k2]);
        k2 += 1;
    }
    proof {
        assert(sub@ =~= seeded.subrange(j0 + ndofs, j0 + 2 * ndofs));
    }
    multibody.inv_augmented_mass().solve(&mut sub);
    let ghost solved = sub@;
    let mut k3: usize = 0;
    while k3 < ndofs
        invariant
            k3 <= ndofs,
            j0 + 2 * ndofs <= jlen,
            jlen == jacobians@.len(),
            solved.len() == ndofs,
            sub@ == solved,
            forall|m: int|
                0 <= m < jlen ==> jacobians@[m] == (if j0 + ndofs <= m < j0 + ndofs + k3 {
                    solved[m - (j0 + ndofs)]
                } else {
                    seeded[m]
                }),
        decreases ndofs - k3,
    {
        let v = sub[k3];
        jacobians.set(j0 + ndofs + k3, v);
        k3 += 1;
    }
    proof {
        assert(jacobians@ =~= write_range_s(seeded, j0 + ndofs, solved));
    }
    let lhs = jacobians[dof_j_id + ndofs];
    *j_id = j0 + 2 * ndofs;
    (
        JointGenericVelocityGroundConstraint {
            mj_lambda2: multibody.solver_id,
            ndofs2: ndofs,
            j_id2: j0,
            joint_id,
            impulse: 0,
            impulse_bounds: [lo, hi],
            inv_lhs: inv(lhs),
            rhs: fx_add(rhs_wo_bias, rhs_bias),
            rhs_wo_bias,
            writeback_id: wb,
        },
        lhs,
    )
}

/// The exact coupled row built over one generalized degree of freedom: the
/// ground construction with a rigid side attached, whose effective-mass
/// contribution is folded into the row's denominator.
pub open spec fn unit_coupled_row_s(
    mb: Multibody,
    link: MultibodyLink,
    jac: Seq<i64>,
    j_id: int,
    joint_id: usize,
    rhs_wo_bias: i64,
    dof_id: int,
    mj_lambda1: usize,
    im1: crate::vect::Vec3,
    lin_jac1: crate::vect::Vec3,
    ang_jac1: crate::vect::Vec3,
    extra_lhs: i64,
) -> crate::generic::JointGenericVelocityConstraint {
    let n = mb.ndofs as int;
    let dof_j_id = j_id + dof_id + link.assembly_id;
    let jac2 = unit_jac_after_s(
        mb.inv_augmented_mass.l@,
        mb.inv_augmented_mass.d@,
        n,
        jac,
        j_id,
        dof_j_id,
    );
    crate::generic::JointGenericVelocityConstraint {
        mj_lambda1,
        im1,
        lin_jac: lin_jac1,
        ang_jac1,
        mj_lambda2: mb.solver_id,
        ndofs2: mb.ndofs,
        j_id2: j_id as usize,
        joint_id,
        impulse: 0,
        impulse_bounds: [i64::MIN, i64::MAX],
        inv_lhs: inv_v(fx_add_v(jac2[dof_j_id + n] as int, extra_lhs as int)) as i64,
        rhs: rhs_wo_bias,
        rhs_wo_bias,
        writeback_id: WritebackId::Dof(dof_id as usize),
    }
}

/// Builds one coupled row: fills the Jacobian block like `unit_row` and
/// attaches the rigid side's axis Jacobian and effective-mass contribution.
pub fn unit_row_coupled(
    multibody: &Multibody,
    link: &MultibodyLink,
    joint_id: usize,
    rhs_wo_bias: i64,
    dof_id: usize,
    mj_lambda1: usize,
    im1: crate::vect::Vec3,
    lin_jac1: crate::vect::Vec3,
    ang_jac1: crate::vect::Vec3,
    extra_lhs: i64,
    j_id: &mut usize,
    jacobians: &mut Vec<i64>,
) -> (c: crate::generic::JointGenericVelocityConstraint)
    requires
        multibody_wf(*multibody),
        link.assembly_id + link.ndofs <= multibody.ndofs,
        dof_id < link.ndofs,
        *old(j_id) + 2 * multibody.ndofs <= old(jacobians)@.len(),
    ensures
        c == unit_coupled_row_s(
            *multibody,
            *link,
            old(jacobians)@,
            *old(j_id) as int,
            joint_id,
            rhs_wo_bias,
            dof_id as int,
            mj_lambda1,
            im1,
            lin_jac1,
            ang_jac1,
            extra_lhs,
        ),
        final(jacobians)@ == unit_jac_after_s(
            multibody.inv_augmented_mass.l@,
            multibody.inv_augmented_mass.d@,
            multibody.ndofs as int,
            old(jacobians)@,
            *old(j_id) as int,
            *old(j_id) + dof_id + link.assembly_id,
        ),
        final(jacobians)@.len() == old(jacobians)@.len(),
        *final(j_id) == *old(j_id) + 2 * multibody.ndofs,
{
    let (g, lhs) = unit_row(
        multibody,
        link,
        joint_id,
        rhs_wo_bias,
        0,
        i64::MIN,
        i64::MAX,
        WritebackId::Dof(dof_id),
        dof_id,
        j_id,
        jacobians,
    );
    crate::generic::JointGenericVelocityConstraint {
        mj_lambda1,
        im1,
        lin_jac: lin_jac1,
        ang_jac1,
        mj_lambda2: g.mj_lambda2,
        ndofs2: g.ndofs2,
        j_id2: g.j_id2,
        joint_id,
        impulse: 0,
        impulse_bounds: [i64::MIN, i64::MAX],
        inv_lhs: inv(fx_add(lhs, extra_lhs)),
        rhs: rhs_wo_bias,
        rhs_wo_bias,
        writeback_id: WritebackId::Dof(dof_id),
    }
}

/// The exact limit row of one generalized degree of freedom, as
/// `unit_joint_limit_constraint` emits it.
pub open spec fn unit_limit_row_s(
    p: IntegrationParameters,
    mb: Multibody,
    link: MultibodyLink,
    jac: Seq<i64>,
    j_id: int,
    limits: [i64; 2],
    curr_pos: i64,
    dof_id: int,
) -> JointGenericVelocityGroundConstraint {
    let over_max = if fx_sub_v(curr_pos as int, limits[1] as int) >= 0 {
        fx_sub_v(curr_pos as int, limits[1] as int)
    } else {
        0
    };
    let under_min = if fx_sub_v(limits[0] as int, curr_pos as int) >= 0 {
        fx_sub_v(limits[0] as int, curr_pos as int)
    } else {
        0
    };
    let rhs_bias = fx_mul_v(
        fx_sub_v(over_max, under_min),
        fx_div_v(p.erp as int, p.dt as int),
    );
    let lo = if curr_pos < limits[0] {
        i64::MIN
    } else {
        0i64
    };
    let hi = if limits[1] < curr_pos {
        i64::MAX
    } else {
        0i64
    };
    unit_row_s(
        mb,
        link,
        jac,
        j_id,
        usize::MAX,
        mb.velocities@[link.assembly_id + dof_id],
        rhs_bias as i64,
        lo,
        hi,
        WritebackId::Limit(dof_id as usize),
        dof_id,
    )
}

/// Initializes and generates the velocity constraint applicable to the
/// multibody links attached to this multibody joint: a limit on one
/// generalized degree of freedom, enabled on the violated side only.
pub fn unit_joint_limit_constraint(
    params: &IntegrationParameters,
    multibody: &Multibody,
    link: &MultibodyLink,
    limits: [i64; 2],
    curr_pos: i64,
    dof_id: usize,
    j_id: &mut usize,
    jacobians: &mut Vec<i64>,
    constraints: &mut Vec<AnyJointVelocityConstraint>,
)
    requires
        multibody_wf(*multibody),
        link.assembly_id + link.ndofs <= multibody.ndofs,
        dof_id < link.ndofs,
        *old(j_id) + 2 * multibody.ndofs <= old(jacobians)@.len(),
    ensures
        final(constraints)@.len() == old(constraints)@.len() + 1,
        final(constraints)@ == old(constraints)@.push(
            AnyJointVelocityConstraint::JointGenericGroundConstraint(
                unit_limit_row_s(
                    *params,
                    *multibody,
                    *link,
                    old(jacobians)@,
                    *old(j_id) as int,
                    limits,
                    curr_pos,
                    dof_id as int,
                ),
            ),
        ),
        final(jacobians)@ == unit_jac_after_s(
            multibody.inv_augmented_mass.l@,
            multibody.inv_augmented_mass.d@,
            multibody.ndofs as int,
            old(jacobians)@,
            *old(j_id) as int,
            *old(j_id) + dof_id + link.assembly_id,
        ),
        final(jacobians)@.len() == old(jacobians)@.len(),
        *final(j_id) == *old(j_id) + 2 * multibody.ndofs,
{
    let joint_velocity = multibody.joint_velocity(link);
    let min_enabled = curr_pos < limits[0];
    let max_enabled = limits[1] < curr_pos;
    let erp_inv_dt = params.erp_inv_dt();
    let rhs_bias = fx_mul(
        fx_sub(
            fx_max(fx_sub(curr_pos, limits[1]), 0),
            fx_max(fx_sub(limits[0], curr_pos), 0),
        ),
        erp_inv_dt,
    );
    let rhs_wo_bias = joint_velocity[dof_id];
    let lo = if min_enabled {
        i64::MIN
    } else {
        0
    };
    let hi = if max_enabled {
        i64::MAX
    } else {
        0
    };
    let (constraint, _lhs) = unit_row(
        multibody,
        link,
        usize::MAX,
        rhs_wo_bias,
        rhs_bias,
        lo,
        hi,
        WritebackId::Limit(dof_id),
        dof_id,
        j_id,
        jacobians,
    );
    constraints.push(AnyJointVelocityConstraint::JointGenericGroundConstraint(constraint));
}

/// The exact motor row of one generalized degree of freedom, as
/// `unit_joint_motor_constraint` emits it.
pub open spec fn unit_motor_row_s(
    p: IntegrationParameters,
    mb: Multibody,
    link: MultibodyLink,
    jac: Seq<i64>,
    j_id: int,
    motor: JointMotor,
    curr_pos: i64,
    dof_id: int,
) -> JointGenericVelocityGroundConstraint {
    let mp = motor_params_s(motor, p.dt as int);
    let dvel = mb.velocities@[link.assembly_id + dof_id];
    let rhs_wo_bias = fx_add_v(
        fx_mul_v(fx_sub_v(curr_pos as int, mp.target_pos as int), mp.stiffness as int),
        fx_mul_v(fx_sub_v(dvel as int, mp.target_vel as int), mp.damping as int),
    );
    let max_imp = if mp.max_impulse < 0 {
        0
    } else {
        mp.max_impulse as int
    };
    unit_row_s(
        mb,
        link,
        jac,
        j_id,
        usize::MAX,
        rhs_wo_bias as i64,
        0,
        crate::fx::sat64(-max_imp) as i64,
        max_imp as i64,
        WritebackId::Motor(dof_id as usize),
        dof_id,
    )
}

/// Initializes and generates the velocity constraint applicable to the
/// multibody links attached to this multibody joint: a motor driving one
/// generalized degree of freedom toward its target position and velocity.
pub fn unit_joint_motor_constraint(
    params: &IntegrationParameters,
    multibody: &Multibody,
    link: &MultibodyLink,
    motor: &JointMotor,
    curr_pos: i64,
    dof_id: usize,
    j_id: &mut usize,
    jacobians: &mut Vec<i64>,
    constraints: &mut Vec<AnyJointVelocityConstraint>,
)
    requires
        multibody_wf(*multibody),
        link.assembly_id + link.ndofs <= multibody.ndofs,
        dof_id < link.ndofs,
        *old(j_id) + 2 * multibody.ndofs <= old(jacobians)@.len(),
    ensures
        final(constraints)@.len() == old(constraints)@.len() + 1,
        final(constraints)@ == old(constraints)@.push(
            AnyJointVelocityConstraint::JointGenericGroundConstraint(
                unit_motor_row_s(
                    *params,
                    *multibody,
                    *link,
                    old(jacobians)@,
                    *old(j_id) as int,
                    *motor,
                    curr_pos,
                    dof_id as int,
                ),
            ),
        ),
        final(jacobians)@ == unit_jac_after_s(
            multibody.inv_augmented_mass.l@,
            multibody.inv_augmented_mass.d@,
            multibody.ndofs as int,
            old(jacobians)@,
            *old(j_id) as int,
            *old(j_id) + dof_id + link.assembly_id,
        ),
        final(jacobians)@.len() == old(jacobians)@.len(),
        *final(j_id) == *old(j_id) + 2 * multibody.ndofs,
{
    let joint_velocity = multibody.joint_velocity(link);
    let motor_params = motor.motor_params(params.dt);
    let mut rhs_wo_bias: i64 = 0;
    rhs_wo_bias = fx_add(
        fx_mul(fx_sub(curr_pos, motor_params.target_pos), motor_params.stiffness),
        fx_mul(fx_sub(joint_velocity[dof_id], motor_params.target_vel), motor_params.damping),
    );
    let max_imp = fx_max(motor_params.max_impulse, 0);
    let (constraint, _lhs) = unit_row(
        multibody,
        link,
        usize::MAX,
        rhs_wo_bias,
        0,
        crate::fx::fx_neg(max_imp),
        max_imp,
        WritebackId::Motor(dof_id),
        dof_id,
        j_id,
        jacobians,
    );
    constraints.push(AnyJointVelocityConstraint::JointGenericGroundConstraint(constraint));
}

} // verus!
