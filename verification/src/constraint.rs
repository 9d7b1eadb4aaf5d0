//! Velocity-level solver constraints over pairs of rigid bodies, and the
//! projected Gauss-Seidel kernel solving them: one constraint row holds a
//! Jacobian, an inverse effective mass, a right-hand side split into its
//! velocity part and its positional bias, the warm-started accumulated
//! impulse and its feasible interval.

use vstd::prelude::*;

use crate::fx::{
    fx_add, fx_add_v, fx_clamp, fx_mul, fx_mul_v, fx_sub, fx_sub_v, inv_v, FX_ONE,
};
use crate::joint::JointGraphEdge;
use crate::vect::{
    v3_add_s, v3_comp_mul_s, v3_dot_s, v3_scale_s, v3_sub_s, SdpMat3, Vec3,
};

verus! {

/// Accumulated delta velocity of one body during a solver pass: the unknown
/// the projected Gauss-Seidel sweep refines. The angular part is stored
/// multiplied by the square root of the world inverse inertia.
#[derive(Clone, Copy, PartialEq, Eq, Structural, Debug)]
pub struct DeltaVel {
    /// Linear delta velocity.
    pub linear: Vec3,
    /// Angular delta velocity, square-root-of-inertia scaled.
    pub angular: Vec3,
}

impl DeltaVel {
    /// The zero delta velocity.
    pub fn zero() -> (r: DeltaVel)
        ensures
            r == (DeltaVel {
                linear: Vec3 { x: 0i64, y: 0i64, z: 0i64 },
                angular: Vec3 { x: 0i64, y: 0i64, z: 0i64 },
            }),
    {
        DeltaVel { linear: Vec3::zero(), angular: Vec3::zero() }
    }
}

/// The solver-side view of one body, captured at constraint assembly.
#[derive(Clone, Copy, PartialEq, Eq, Structural, Debug)]
pub struct SolverBody {
    /// Linear velocity when the constraint was assembled.
    pub linvel: Vec3,
    /// Angular velocity when the constraint was assembled.
    pub angvel: Vec3,
    /// Per-axis inverse mass.
    pub im: Vec3,
    /// Square root of the world inverse inertia.
    pub sqrt_ii: SdpMat3,
    /// World-space centre of mass.
    pub world_com: Vec3,
    /// Index of this body's slot in the delta-velocity vector.
    pub mj_lambda: usize,
}

/// Which cached impulse a solved constraint persists into.
#[derive(Clone, Copy, PartialEq, Eq, Structural, Debug)]
pub enum WritebackId {
    /// The locked-axis cache of the given axis.
    Dof(usize),
    /// The limit cache of the given axis.
    Limit(usize),
    /// The motor cache of the given axis.
    Motor(usize),
}

/// A single velocity constraint row between two dynamic bodies.
#[derive(Clone, Copy, Debug)]
pub struct JointVelocityConstraint {
    /// Delta-velocity slot of the first body.
    pub mj_lambda1: usize,
    /// Delta-velocity slot of the second body.
    pub mj_lambda2: usize,
    /// Index of the joint this row came from.
    pub joint_id: usize,
    /// Per-axis inverse mass of the first body.
    pub im1: Vec3,
    /// Per-axis inverse mass of the second body.
    pub im2: Vec3,
    /// Linear part of the Jacobian row: the constrained world axis.
    pub lin_jac: Vec3,
    /// Angular part for the first body, square-root-of-inertia scaled.
    pub ang_jac1: Vec3,
    /// Angular part for the second body, square-root-of-inertia scaled.
    pub ang_jac2: Vec3,
    /// Inverse effective mass of the row; zero when singular.
    pub inv_lhs: i64,
    /// Right-hand side: measured constraint velocity plus positional bias.
    pub rhs: i64,
    /// Right-hand side without the positional bias.
    pub rhs_wo_bias: i64,
    /// Accumulated impulse, warm-started from the previous step.
    pub impulse: i64,
    /// Feasible interval of the accumulated impulse.
    pub impulse_bounds: [i64; 2],
    /// Cached slot the result is persisted into.
    pub writeback_id: WritebackId,
}

/// Well-formedness of a constraint row against a delta-velocity vector of
/// length `n`: slots in range and a non-empty feasible interval.
pub open spec fn jvc_wf(c: JointVelocityConstraint, n: int) -> bool {
    &&& c.mj_lambda1 < n
    &&& c.mj_lambda2 < n
    &&& c.impulse_bounds[0] <= c.impulse_bounds[1]
}

/// The exact constraint-space velocity of a row under delta velocities
/// `dv1`, `dv2`, including the right-hand side.
pub open spec fn jvc_dvel_s(c: JointVelocityConstraint, dv1: DeltaVel, dv2: DeltaVel) -> int {
    fx_add_v(
        fx_add_v(
            fx_sub_v(v3_dot_s(c.lin_jac, dv2.linear), v3_dot_s(c.lin_jac, dv1.linear)),
            fx_sub_v(v3_dot_s(c.ang_jac2, dv2.angular), v3_dot_s(c.ang_jac1, dv1.angular)),
        ),
        c.rhs as int,
    )
}

/// The exact clamped new accumulated impulse of a row.
pub open spec fn jvc_new_impulse_s(c: JointVelocityConstraint, dv1: DeltaVel, dv2: DeltaVel) -> int {
    let unclamped = fx_add_v(
        c.impulse as int,
        fx_mul_v(c.inv_lhs as int, jvc_dvel_s(c, dv1, dv2)),
    );
    if unclamped < c.impulse_bounds[0] {
        c.impulse_bounds[0] as int
    } else if unclamped > c.impulse_bounds[1] {
        c.impulse_bounds[1] as int
    } else {
        unclamped
    }
}

/// The exact delta velocity of the first body after an impulse change of
/// `delta`: the Jacobian row scaled and added.
pub open spec fn jvc_apply1_s(c: JointVelocityConstraint, dv1: DeltaVel, delta: int) -> DeltaVel {
    DeltaVel {
        linear: v3_add_s(dv1.linear, v3_scale_s(v3_comp_mul_s(c.lin_jac, c.im1), delta)),
        angular: v3_add_s(dv1.angular, v3_scale_s(c.ang_jac1, delta)),
    }
}

/// The exact delta velocity of the second body after an impulse change of
/// `delta`: the Jacobian row scaled and subtracted.
pub open spec fn jvc_apply2_s(c: JointVelocityConstraint, dv2: DeltaVel, delta: int) -> DeltaVel {
    DeltaVel {
        linear: v3_sub_s(dv2.linear, v3_scale_s(v3_comp_mul_s(c.lin_jac, c.im2), delta)),
        angular: v3_sub_s(dv2.angular, v3_scale_s(c.ang_jac2, delta)),
    }
}

/// The exact result of one projected Gauss-Seidel update of a row: the row
/// with its new accumulated impulse, and the delta-velocity vector with the
/// impulse change applied to both bodies.
pub open spec fn jvc_solve_s(
    c: JointVelocityConstraint,
    m: Seq<DeltaVel>,
) -> (JointVelocityConstraint, Seq<DeltaVel>) {
    let ni = jvc_new_impulse_s(c, m[c.mj_lambda1 as int], m[c.mj_lambda2 as int]);
    let delta = fx_sub_v(ni, c.impulse as int);
    let m1 = m.update(c.mj_lambda1 as int, jvc_apply1_s(c, m[c.mj_lambda1 as int], delta));
    let m2 = m1.update(c.mj_lambda2 as int, jvc_apply2_s(c, m1[c.mj_lambda2 as int], delta));
    (JointVelocityConstraint { impulse: ni as i64, ..c }, m2)
}

impl JointVelocityConstraint {
    /// A placeholder row that constrains nothing: zero Jacobian, zero
    /// effective mass, zero right-hand side.
    pub fn invalid() -> (r: JointVelocityConstraint)
        ensures
            r.inv_lhs == 0,
            r.rhs == 0,
            r.impulse == 0,
            r.mj_lambda1 == 0,
            r.mj_lambda2 == 0,
    {
        JointVelocityConstraint {
            mj_lambda1: 0,
            mj_lambda2: 0,
            joint_id: 0,
            im1: Vec3::zero(),
            im2: Vec3::zero(),
            lin_jac: Vec3::zero(),
            ang_jac1: Vec3::zero(),
            ang_jac2: Vec3::zero(),
            inv_lhs: 0,
            rhs: 0,
            rhs_wo_bias: 0,
            impulse: 0,
            impulse_bounds: [0, 0],
            writeback_id: WritebackId::Dof(0),
        }
    }

    /// Applies the warm-start impulse to the delta velocities of the two
    /// bodies.
    pub fn warmstart(&self, mj_lambdas: &mut Vec<DeltaVel>)
        requires
            jvc_wf(*self, old(mj_lambdas)@.len() as int),
        ensures
            final(mj_lambdas)@ == old(mj_lambdas)@.update(
                self.mj_lambda1 as int,
                jvc_apply1_s(*self, old(mj_lambdas)@[self.mj_lambda1 as int], self.impulse as int),
            ).update(
                self.mj_lambda2 as int,
                jvc_apply2_s(
                    *self,
                    old(mj_lambdas)@.update(
                        self.mj_lambda1 as int,
                        jvc_apply1_s(
                            *self,
                            old(mj_lambdas)@[self.mj_lambda1 as int],
                            self.impulse as int,
                        ),
                    )[self.mj_lambda2 as int],
                    self.impulse as int,
                ),
            ),
    {
        let dv1 = mj_lambdas[self.mj_lambda1];
        let new1 = DeltaVel {
            linear: dv1.linear.add(self.lin_jac.component_mul(self.im1).scale(self.impulse)),
            angular: dv1.angular.add(self.ang_jac1.scale(self.impulse)),
        };
        mj_lambdas.set(self.mj_lambda1, new1);
        let dv2 = mj_lambdas[self.mj_lambda2];
        let new2 = DeltaVel {
            linear: dv2.linear.sub(self.lin_jac.component_mul(self.im2).scale(self.impulse)),
            angular: dv2.angular.sub(self.ang_jac2.scale(self.impulse)),
        };
        mj_lambdas.set(self.mj_lambda2, new2);
    }

    /// One projected Gauss-Seidel update of this row: measure the residual
    /// constraint velocity, clamp the new accumulated impulse into its
    /// feasible interval, and apply the impulse change to both bodies.
    pub fn solve(&mut self, mj_lambdas: &mut Vec<DeltaVel>)
        requires
            jvc_wf(*old(self), old(mj_lambdas)@.len() as int),
        ensures
            final(self).impulse as int == jvc_new_impulse_s(
                *old(self),
                old(mj_lambdas)@[old(self).mj_lambda1 as int],
                old(mj_lambdas)@[old(self).mj_lambda2 as int],
            ),
            *final(self) == (JointVelocityConstraint { impulse: final(self).impulse, ..*old(self) }),
            final(mj_lambdas)@ == old(mj_lambdas)@.update(
                old(self).mj_lambda1 as int,
                jvc_apply1_s(
                    *old(self),
                    old(mj_lambdas)@[old(self).mj_lambda1 as int],
                    fx_sub_v(final(self).impulse as int, old(self).impulse as int),
                ),
            ).update(
                old(self).mj_lambda2 as int,
                jvc_apply2_s(
                    *old(self),
                    old(mj_lambdas)@.update(
                        old(self).mj_lambda1 as int,
                        jvc_apply1_s(
                            *old(self),
                            old(mj_lambdas)@[old(self).mj_lambda1 as int],
                            fx_sub_v(final(self).impulse as int, old(self).impulse as int),
                        ),
                    )[old(self).mj_lambda2 as int],
                    fx_sub_v(final(self).impulse as int, old(self).impulse as int),
                ),
            ),
            jvc_wf(*final(self), final(mj_lambdas)@.len() as int),
            (*final(self), final(mj_lambdas)@) == jvc_solve_s(*old(self), old(mj_lambdas)@),
    {
        let dv1 = mj_lambdas[self.mj_lambda1];
        let dv2 = mj_lambdas[self.mj_lambda2];
        let dvel = fx_add(
            fx_add(
                fx_sub(self.lin_jac.gdot(dv2.linear), self.lin_jac.gdot(dv1.linear)),
                fx_sub(self.ang_jac2.gdot(dv2.angular), self.ang_jac1.gdot(dv1.angular)),
            ),
            self.rhs,
        );
        let new_impulse = fx_clamp(
            fx_add(self.impulse, fx_mul(self.inv_lhs, dvel)),
            self.impulse_bounds[0],
            self.impulse_bounds[1],
        );
        let delta = fx_sub(new_impulse, self.impulse);
        let new1 = DeltaVel {
            linear: dv1.linear.add(self.lin_jac.component_mul(self.im1).scale(delta)),
            angular: dv1.angular.add(self.ang_jac1.scale(delta)),
        };
        mj_lambdas.set(self.mj_lambda1, new1);
        let dv2b = mj_lambdas[self.mj_lambda2];
        let new2 = DeltaVel {
            linear: dv2b.linear.sub(self.lin_jac.component_mul(self.im2).scale(delta)),
            angular: dv2b.angular.sub(self.ang_jac2.scale(delta)),
        };
        mj_lambdas.set(self.mj_lambda2, new2);
        self.impulse = new_impulse;
    }

    /// Drops the positional bias from the right-hand side, leaving the pure
    /// velocity target for the stabilisation-free sweep.
    pub fn remove_bias_from_rhs(&mut self)
        ensures
            *final(self) == (JointVelocityConstraint { rhs: old(self).rhs_wo_bias, ..*old(self) }),
    {
        self.rhs = self.rhs_wo_bias;
    }

    /// Persists the accumulated impulse into the owning joint's cache.
    pub fn writeback_impulses(&self, joints_all: &mut Vec<JointGraphEdge>)
        requires
            (self.joint_id as int) < old(joints_all)@.len(),
            wb_in_range(self.writeback_id),
        ensures
            final(joints_all)@.len() == old(joints_all)@.len(),
            final(joints_all)@ == old(joints_all)@.update(
                self.joint_id as int,
                final(joints_all)@[self.joint_id as int],
            ),
            written_back(
                old(joints_all)@[self.joint_id as int],
                final(joints_all)@[self.joint_id as int],
                self.writeback_id,
                self.impulse,
            ),
            final(joints_all)@ == old(joints_all)@.update(
                self.joint_id as int,
                written_edge_s(
                    old(joints_all)@[self.joint_id as int],
                    self.writeback_id,
                    self.impulse,
                ),
            ),
    {
        let ghost old_edge = joints_all@[self.joint_id as int];
        let mut edge = joints_all[self.joint_id];
        match self.writeback_id {
            WritebackId::Dof(i) => {
                edge.weight.impulses = set_entry6(&edge.weight.impulses, i, self.impulse);
                proof {
                    assert(edge.weight.impulses =~= set6_s(
                        old_edge.weight.impulses,
                        i as int,
                        self.impulse,
                    ));
                }
            },
            WritebackId::Limit(i) => {
                edge.weight.limit_impulses = set_entry6(&edge.weight.limit_impulses, i, self.impulse);
                proof {
                    assert(edge.weight.limit_impulses =~= set6_s(
                        old_edge.weight.limit_impulses,
                        i as int,
                        self.impulse,
                    ));
                }
            },
            WritebackId::Motor(i) => {
                edge.weight.motor_impulses = set_entry6(&edge.weight.motor_impulses, i, self.impulse);
                proof {
                    assert(edge.weight.motor_impulses =~= set6_s(
                        old_edge.weight.motor_impulses,
                        i as int,
                        self.impulse,
                    ));
                }
            },
        }
        joints_all.set(self.joint_id, edge);
    }
}

/// A single velocity constraint row whose first body is not dynamic: storage
/// and updates for the static side are omitted, and only the second body's
/// delta velocity is corrected.
#[derive(Clone, Copy, Debug)]
pub struct JointVelocityGroundConstraint {
    /// Delta-velocity slot of the dynamic body.
    pub mj_lambda2: usize,
    /// Index of the joint this row came from.
    pub joint_id: usize,
    /// Per-axis inverse mass of the dynamic body.
    pub im2: Vec3,
    /// Linear part of the Jacobian row: the constrained world axis.
    pub lin_jac: Vec3,
    /// Angular part for the dynamic body, square-root-of-inertia scaled.
    pub ang_jac2: Vec3,
    /// Inverse effective mass of the row; zero when singular.
    pub inv_lhs: i64,
    /// Right-hand side: measured constraint velocity plus positional bias.
    pub rhs: i64,
    /// Right-hand side without the positional bias.
    pub rhs_wo_bias: i64,
    /// Accumulated impulse, warm-started from the previous step.
    pub impulse: i64,
    /// Feasible interval of the accumulated impulse.
    pub impulse_bounds: [i64; 2],
    /// Cached slot the result is persisted into.
    pub writeback_id: WritebackId,
}

/// Well-formedness of a ground row against a delta-velocity vector of
/// length `n`.
pub open spec fn jvgc_wf(c: JointVelocityGroundConstraint, n: int) -> bool {
    &&& c.mj_lambda2 < n
    &&& c.impulse_bounds[0] <= c.impulse_bounds[1]
}

/// The exact constraint-space velocity of a ground row under the dynamic
/// body's delta velocity, including the right-hand side.
pub open spec fn jvgc_dvel_s(c: JointVelocityGroundConstraint, dv2: DeltaVel) -> int {
    fx_add_v(
        fx_add_v(v3_dot_s(c.lin_jac, dv2.linear), v3_dot_s(c.ang_jac2, dv2.angular)),
        c.rhs as int,
    )
}

/// The exact clamped new accumulated impulse of a ground row.
pub open spec fn jvgc_new_impulse_s(c: JointVelocityGroundConstraint, dv2: DeltaVel) -> int {
    let unclamped = fx_add_v(c.impulse as int, fx_mul_v(c.inv_lhs as int, jvgc_dvel_s(c, dv2)));
    if unclamped < c.impulse_bounds[0] {
        c.impulse_bounds[0] as int
    } else if unclamped > c.impulse_bounds[1] {
        c.impulse_bounds[1] as int
    } else {
        unclamped
    }
}

/// The exact delta velocity of the dynamic body of a ground row after an
/// impulse change of `delta`.
pub open spec fn jvgc_apply2_s(
    c: JointVelocityGroundConstraint,
    dv2: DeltaVel,
    delta: int,
) -> DeltaVel {
    DeltaVel {
        linear: v3_sub_s(dv2.linear, v3_scale_s(v3_comp_mul_s(c.lin_jac, c.im2), delta)),
        angular: v3_sub_s(dv2.angular, v3_scale_s(c.ang_jac2, delta)),
    }
}

/// The exact result of one projected Gauss-Seidel update of a ground row.
pub open spec fn jvgc_solve_s(
    c: JointVelocityGroundConstraint,
    m: Seq<DeltaVel>,
) -> (JointVelocityGroundConstraint, Seq<DeltaVel>) {
    let ni = jvgc_new_impulse_s(c, m[c.mj_lambda2 as int]);
    let delta = fx_sub_v(ni, c.impulse as int);
    let m2 = m.update(c.mj_lambda2 as int, jvgc_apply2_s(c, m[c.mj_lambda2 as int], delta));
    (JointVelocityGroundConstraint { impulse: ni as i64, ..c }, m2)
}

impl JointVelocityGroundConstraint {
    /// A placeholder row that constrains nothing.
    pub fn invalid() -> (r: JointVelocityGroundConstraint)
        ensures
            r.inv_lhs == 0,
            r.rhs == 0,
            r.impulse == 0,
            r.mj_lambda2 == 0,
    {
        JointVelocityGroundConstraint {
            mj_lambda2: 0,
            joint_id: 0,
            im2: Vec3::zero(),
            lin_jac: Vec3::zero(),
            ang_jac2: Vec3::zero(),
            inv_lhs: 0,
            rhs: 0,
            rhs_wo_bias: 0,
            impulse: 0,
            impulse_bounds: [0, 0],
            writeback_id: WritebackId::Dof(0),
        }
    }

    /// Applies the warm-start impulse to the dynamic body's delta velocity.
    pub fn warmstart(&self, mj_lambdas: &mut Vec<DeltaVel>)
        requires
            jvgc_wf(*self, old(mj_lambdas)@.len() as int),
        ensures
            final(mj_lambdas)@ == old(mj_lambdas)@.update(
                self.mj_lambda2 as int,
                jvgc_apply2_s(
                    *self,
                    old(mj_lambdas)@[self.mj_lambda2 as int],
                    self.impulse as int,
                ),
            ),
    {
        let dv2 = mj_lambdas[self.mj_lambda2];
        let new2 = DeltaVel {
            linear: dv2.linear.sub(self.lin_jac.component_mul(self.im2).scale(self.impulse)),
            angular: dv2.angular.sub(self.ang_jac2.scale(self.impulse)),
        };
        mj_lambdas.set(self.mj_lambda2, new2);
    }

    /// One projected Gauss-Seidel update of this ground row.
    pub fn solve(&mut self, mj_lambdas: &mut Vec<DeltaVel>)
        requires
            jvgc_wf(*old(self), old(mj_lambdas)@.len() as int),
        ensures
            final(self).impulse as int == jvgc_new_impulse_s(
                *old(self),
                old(mj_lambdas)@[old(self).mj_lambda2 as int],
            ),
            *final(self) == (JointVelocityGroundConstraint {
                impulse: final(self).impulse,
                ..*old(self)
            }),
            final(mj_lambdas)@ == old(mj_lambdas)@.update(
                old(self).mj_lambda2 as int,
                jvgc_apply2_s(
                    *old(self),
                    old(mj_lambdas)@[old(self).mj_lambda2 as int],
                    fx_sub_v(final(self).impulse as int, old(self).impulse as int),
                ),
            ),
            jvgc_wf(*final(self), final(mj_lambdas)@.len() as int),
            (*final(self), final(mj_lambdas)@) == jvgc_solve_s(*old(self), old(mj_lambdas)@),
    {
        let dv2 = mj_lambdas[self.mj_lambda2];
        let dvel = fx_add(
            fx_add(self.lin_jac.gdot(dv2.linear), self.ang_jac2.gdot(dv2.angular)),
            self.rhs,
        );
        let new_impulse = fx_clamp(
            fx_add(self.impulse, fx_mul(self.inv_lhs, dvel)),
            self.impulse_bounds[0],
            self.impulse_bounds[1],
        );
        let delta = fx_sub(new_impulse, self.impulse);
        let new2 = DeltaVel {
            linear: dv2.linear.sub(self.lin_jac.component_mul(self.im2).scale(delta)),
            angular: dv2.angular.sub(self.ang_jac2.scale(delta)),
        };
        mj_lambdas.set(self.mj_lambda2, new2);
        self.impulse = new_impulse;
    }

    /// Drops the positional bias from the right-hand side.
    pub fn remove_bias_from_rhs(&mut self)
        ensures
            *final(self) == (JointVelocityGroundConstraint {
                rhs: old(self).rhs_wo_bias,
                ..*old(self)
            }),
    {
        self.rhs = self.rhs_wo_bias;
    }

    /// Persists the accumulated impulse into the owning joint's cache.
    pub fn writeback_impulses(&self, joints_all: &mut Vec<JointGraphEdge>)
        requires
            (self.joint_id as int) < old(joints_all)@.len(),
            wb_in_range(self.writeback_id),
        ensures
            final(joints_all)@.len() == old(joints_all)@.len(),
            final(joints_all)@ == old(joints_all)@.update(
                self.joint_id as int,
                final(joints_all)@[self.joint_id as int],
            ),
            written_back(
                old(joints_all)@[self.joint_id as int],
                final(joints_all)@[self.joint_id as int],
                self.writeback_id,
                self.impulse,
            ),
            final(joints_all)@ == old(joints_all)@.update(
                self.joint_id as int,
                written_edge_s(
                    old(joints_all)@[self.joint_id as int],
                    self.writeback_id,
                    self.impulse,
                ),
            ),
    {
        let ghost old_edge = joints_all@[self.joint_id as int];
        let mut edge = joints_all[self.joint_id];
        match self.writeback_id {
            WritebackId::Dof(i) => {
                edge.weight.impulses = set_entry6(&edge.weight.impulses, i, self.impulse);
                proof {
                    assert(edge.weight.impulses =~= set6_s(
                        old_edge.weight.impulses,
                        i as int,
                        self.impulse,
                    ));
                }
            },
            WritebackId::Limit(i) => {
                edge.weight.limit_impulses = set_entry6(&edge.weight.limit_impulses, i, self.impulse);
                proof {
                    assert(edge.weight.limit_impulses =~= set6_s(
                        old_edge.weight.limit_impulses,
                        i as int,
                        self.impulse,
                    ));
                }
            },
            WritebackId::Motor(i) => {
                edge.weight.motor_impulses = set_entry6(&edge.weight.motor_impulses, i, self.impulse);
                proof {
                    assert(edge.weight.motor_impulses =~= set6_s(
                        old_edge.weight.motor_impulses,
                        i as int,
                        self.impulse,
                    ));
                }
            },
        }
        joints_all.set(self.joint_id, edge);
    }
}

/// Whether a writeback target designates one of the six axis slots.
pub open spec fn wb_in_range(id: WritebackId) -> bool {
    match id {
        WritebackId::Dof(i) => i < 6,
        WritebackId::Limit(i) => i < 6,
        WritebackId::Motor(i) => i < 6,
    }
}

/// A six-entry cache with entry `i` replaced by `v`.
pub open spec fn set6_s(a: [i64; 6], i: int, v: i64) -> [i64; 6] {
    [
        if i == 0 { v } else { a[0] },
        if i == 1 { v } else { a[1] },
        if i == 2 { v } else { a[2] },
        if i == 3 { v } else { a[3] },
        if i == 4 { v } else { a[4] },
        if i == 5 { v } else { a[5] },
    ]
}

/// The exact joint edge after one impulse writeback: the designated cache
/// slot holds the impulse, everything else is unchanged.
pub open spec fn written_edge_s(e: JointGraphEdge, id: WritebackId, impulse: i64) -> JointGraphEdge {
    match id {
        WritebackId::Dof(i) => JointGraphEdge {
            weight: crate::joint::ImpulseJoint {
                impulses: set6_s(e.weight.impulses, i as int, impulse),
                ..e.weight
            },
        },
        WritebackId::Limit(i) => JointGraphEdge {
            weight: crate::joint::ImpulseJoint {
                limit_impulses: set6_s(e.weight.limit_impulses, i as int, impulse),
                ..e.weight
            },
        },
        WritebackId::Motor(i) => JointGraphEdge {
            weight: crate::joint::ImpulseJoint {
                motor_impulses: set6_s(e.weight.motor_impulses, i as int, impulse),
                ..e.weight
            },
        },
    }
}

/// Relates a joint edge before and after one impulse writeback: the
/// designated cache slot holds the impulse, every other slot and every other
/// field is unchanged.
pub open spec fn written_back(
    before: JointGraphEdge,
    after: JointGraphEdge,
    id: WritebackId,
    impulse: i64,
) -> bool {
    &&& after.weight.body1 == before.weight.body1
    &&& after.weight.body2 == before.weight.body2
    &&& after.weight.data == before.weight.data
    &&& after.weight.handle == before.weight.handle
    &&& after.weight.constraint_index == before.weight.constraint_index
    &&& match id {
        WritebackId::Dof(i) => {
            &&& i < 6
            &&& after.weight.impulses@ == before.weight.impulses@.update(i as int, impulse)
            &&& after.weight.limit_impulses == before.weight.limit_impulses
            &&& after.weight.motor_impulses == before.weight.motor_impulses
        },
        WritebackId::Limit(i) => {
            &&& i < 6
            &&& after.weight.limit_impulses@ == before.weight.limit_impulses@.update(i as int, impulse)
            &&& after.weight.impulses == before.weight.impulses
            &&& after.weight.motor_impulses == before.weight.motor_impulses
        },
        WritebackId::Motor(i) => {
            &&& i < 6
            &&& after.weight.motor_impulses@ == before.weight.motor_impulses@.update(i as int, impulse)
            &&& after.weight.impulses == before.weight.impulses
            &&& after.weight.limit_impulses == before.weight.limit_impulses
        },
    }
}

/// A copy of a six-entry cache with one entry replaced.
pub fn set_entry6(a: &[i64; 6], i: usize, v: i64) -> (r: [i64; 6])
    requires
        i < 6,
    ensures
        r@ == a@.update(i as int, v),
{
    let r: [i64; 6] = [
        if i == 0 { v } else { a[0] },
        if i == 1 { v } else { a[1] },
        if i == 2 { v } else { a[2] },
        if i == 3 { v } else { a[3] },
        if i == 4 { v } else { a[4] },
        if i == 5 { v } else { a[5] },
    ];
    proof {
        assert(r@ =~= a@.update(i as int, v));
    }
    r
}

} // verus!
