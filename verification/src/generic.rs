//! Generic velocity constraints: rows involving a multibody, acting on the
//! generalized lambda vector through offsets into a shared dense Jacobian
//! buffer. The first `ndofs` entries of a row's block hold `J`, the next
//! `ndofs` hold `M^-1 J^T`, premultiplied once by the articulated inverse
//! mass.

use vstd::prelude::*;

use crate::constraint::{wb_in_range, written_back, written_edge_s, DeltaVel, WritebackId};
use crate::vect::{v3_add_s, v3_dot_s, v3_scale_s, Vec3};
use crate::fx::{fx_add, fx_add_v, fx_clamp, fx_mul, fx_mul_v, fx_sub, fx_sub_v};
use crate::joint::JointGraphEdge;

verus! {

/// A velocity constraint row between a multibody and a non-dynamic body.
#[derive(Clone, Copy, Debug)]
pub struct JointGenericVelocityGroundConstraint {
    /// Row offset of the multibody into the generic lambda vector.
    pub mj_lambda2: usize,
    /// Number of generalized degrees of freedom of the multibody.
    pub ndofs2: usize,
    /// Offset of this row's block in the shared Jacobian buffer.
    pub j_id2: usize,
    /// Index of the joint this row came from; `usize::MAX` for a row owned
    /// by a multibody joint, which has no impulse-joint cache.
    pub joint_id: usize,
    /// Accumulated impulse.
    pub impulse: i64,
    /// Feasible interval of the accumulated impulse.
    pub impulse_bounds: [i64; 2],
    /// Inverse effective mass of the row; zero when singular.
    pub inv_lhs: i64,
    /// Right-hand side: measured constraint velocity plus positional bias.
    pub rhs: i64,
    /// Right-hand side without the positional bias.
    pub rhs_wo_bias: i64,
    /// Cached slot the result is persisted into.
    pub writeback_id: WritebackId,
}

/// Well-formedness of a generic ground row against a Jacobian buffer of
/// length `jn` and a generic lambda vector of length `gn`.
pub open spec fn jggc_wf(c: JointGenericVelocityGroundConstraint, jn: int, gn: int) -> bool {
    &&& c.j_id2 + 2 * c.ndofs2 <= jn
    &&& c.mj_lambda2 + c.ndofs2 <= gn
    &&& c.impulse_bounds[0] <= c.impulse_bounds[1]
}

/// The exact left fold of `base` with the products of `k` Jacobian entries
/// and generic lambdas.
pub open spec fn gen_fold_s(
    jac: Seq<i64>,
    gen: Seq<i64>,
    j0: int,
    m0: int,
    base: int,
    k: int,
) -> int
    decreases k,
{
    if k <= 0 {
        base
    } else {
        fx_add_v(
            gen_fold_s(jac, gen, j0, m0, base, k - 1),
            fx_mul_v(jac[j0 + k - 1] as int, gen[m0 + k - 1] as int),
        )
    }
}

/// The exact generic lambda vector after applying an impulse change `delta`
/// through the weighted rows `M^-1 J^T` stored at offset `j0n`, over the
/// first `k` degrees of freedom.
pub open spec fn gen_apply_s(
    jac: Seq<i64>,
    gen: Seq<i64>,
    j0n: int,
    m0: int,
    delta: int,
    k: int,
) -> Seq<i64>
    decreases k,
{
    if k <= 0 {
        gen
    } else {
        let prev = gen_apply_s(jac, gen, j0n, m0, delta, k - 1);
        prev.update(
            m0 + k - 1,
            fx_sub_v(prev[m0 + k - 1] as int, fx_mul_v(jac[j0n + k - 1] as int, delta)) as i64,
        )
    }
}

/// The exact constraint-space velocity of a generic ground row.
pub open spec fn jggc_dvel_s(
    c: JointGenericVelocityGroundConstraint,
    jac: Seq<i64>,
    gen: Seq<i64>,
) -> int {
    gen_fold_s(jac, gen, c.j_id2 as int, c.mj_lambda2 as int, c.rhs as int, c.ndofs2 as int)
}

/// The exact clamped new accumulated impulse of a generic ground row.
pub open spec fn jggc_new_impulse_s(
    c: JointGenericVelocityGroundConstraint,
    jac: Seq<i64>,
    gen: Seq<i64>,
) -> int {
    let unclamped = fx_add_v(
        c.impulse as int,
        fx_mul_v(c.inv_lhs as int, jggc_dvel_s(c, jac, gen)),
    );
    if unclamped < c.impulse_bounds[0] {
        c.impulse_bounds[0] as int
    } else if unclamped > c.impulse_bounds[1] {
        c.impulse_bounds[1] as int
    } else {
        unclamped
    }
}

impl JointGenericVelocityGroundConstraint {
    /// A placeholder row that constrains nothing.
    pub fn invalid() -> (r: JointGenericVelocityGroundConstraint)
        ensures
            r.inv_lhs == 0,
            r.rhs == 0,
            r.impulse == 0,
            r.ndofs2 == 0,
    {
        JointGenericVelocityGroundConstraint {
            mj_lambda2: 0,
            ndofs2: 0,
            j_id2: 0,
            joint_id: 0,
            impulse: 0,
            impulse_bounds: [0, 0],
            inv_lhs: 0,
            rhs: 0,
            rhs_wo_bias: 0,
            writeback_id: WritebackId::Dof(0),
        }
    }

    /// One projected Gauss-Seidel update of this row: measure the residual
    /// through the Jacobian block, clamp the new impulse, and apply the
    /// change through the weighted block to the generic lambdas.
    pub fn solve(&mut self, jacobians: &Vec<i64>, generic_mj_lambdas: &mut Vec<i64>)
        requires
            jggc_wf(
                *old(self),
                jacobians@.len() as int,
                old(generic_mj_lambdas)@.len() as int,
            ),
        ensures
            final(self).impulse as int == jggc_new_impulse_s(
                *old(self),
                jacobians@,
                old(generic_mj_lambdas)@,
            ),
            *final(self) == (JointGenericVelocityGroundConstraint {
                impulse: final(self).impulse,
                ..*old(self)
            }),
            final(generic_mj_lambdas)@ == gen_apply_s(
                jacobians@,
                old(generic_mj_lambdas)@,
                old(self).j_id2 + old(self).ndofs2,
                old(self).mj_lambda2 as int,
                fx_sub_v(final(self).impulse as int, old(self).impulse as int),
                old(self).ndofs2 as int,
            ),
            final(generic_mj_lambdas)@.len() == old(generic_mj_lambdas)@.len(),
    {
        let jlen = jacobians.len();
        let glen = generic_mj_lambdas.len();
        let mut dvel: i64 = self.rhs;
        let mut k: usize = 0;
        while k < self.ndofs2
            invariant
                k <= self.ndofs2,
                jlen == jacobians@.len(),
                glen == generic_mj_lambdas@.len(),
                jggc_wf(*self, jacobians@.len() as int, generic_mj_lambdas@.len() as int),
                dvel as int == gen_fold_s(
                    jacobians@,
                    generic_mj_lambdas@,
                    self.j_id2 as int,
                    self.mj_lambda2 as int,
                    self.rhs as int,
                    k as int,
                ),
            decreases self.ndofs2 - k,
        {
            dvel = fx_add(
                dvel,
                fx_mul(jacobians[self.j_id2 + k], generic_mj_lambdas[self.mj_lambda2 + k]),
            );
            k += 1;
        }
        let new_impulse = fx_clamp(
            fx_add(self.impulse, fx_mul(self.inv_lhs, dvel)),
            self.impulse_bounds[0],
            self.impulse_bounds[1],
        );
        let delta = fx_sub(new_impulse, self.impulse);
        let mut k2: usize = 0;
        while k2 < self.ndofs2
            invariant
                k2 <= self.ndofs2,
                jlen == jacobians@.len(),
                glen == generic_mj_lambdas@.len(),
                jggc_wf(*self, jacobians@.len() as int, old(generic_mj_lambdas)@.len() as int),
                generic_mj_lambdas@.len() == old(generic_mj_lambdas)@.len(),
                generic_mj_lambdas@ == gen_apply_s(
                    jacobians@,
                    old(generic_mj_lambdas)@,
                    self.j_id2 + self.ndofs2,
                    self.mj_lambda2 as int,
                    delta as int,
                    k2 as int,
                ),
            decreases self.ndofs2 - k2,
        {
            let v = fx_sub(
                generic_mj_lambdas[self.mj_lambda2 + k2],
                fx_mul(jacobians[self.j_id2 + self.ndofs2 + k2], delta),
            );
            generic_mj_lambdas.set(self.mj_lambda2 + k2, v);
            k2 += 1;
        }
        self.impulse = new_impulse;
    }

    /// Drops the positional bias from the right-hand side.
    pub fn remove_bias_from_rhs(&mut self)
        ensures
            *final(self) == (JointGenericVelocityGroundConstraint {
                rhs: old(self).rhs_wo_bias,
                ..*old(self)
            }),
    {
        self.rhs = self.rhs_wo_bias;
    }

    /// Persists the accumulated impulse into the owning joint's cache; a row
    /// owned by a multibody joint (`joint_id == usize::MAX`) has no cache
    /// and is left alone.
    pub fn writeback_impulses(&self, joints_all: &mut Vec<JointGraphEdge>)
        requires
            self.joint_id == usize::MAX || (self.joint_id as int) < old(joints_all)@.len(),
            self.joint_id != usize::MAX ==> wb_in_range(self.writeback_id),
        ensures
            final(joints_all)@.len() == old(joints_all)@.len(),
            self.joint_id == usize::MAX ==> final(joints_all)@ == old(joints_all)@,
            self.joint_id != usize::MAX ==> {
                &&& final(joints_all)@ == old(joints_all)@.update(
                    self.joint_id as int,
                    written_edge_s(
                        old(joints_all)@[self.joint_id as int],
                        self.writeback_id,
                        self.impulse,
                    ),
                )
                &&& written_back(
                    old(joints_all)@[self.joint_id as int],
                    final(joints_all)@[self.joint_id as int],
                    self.writeback_id,
                    self.impulse,
                )
            },
    {
        if self.joint_id == usize::MAX {
            return ;
        }
        let ghost old_edge = joints_all@[self.joint_id as int];
        let mut edge = joints_all[self.joint_id];
        match self.writeback_id {
            WritebackId::Dof(i) => {
                edge.weight.impulses = crate::constraint::set_entry6(
                    &edge.weight.impulses,
                    i,
                    self.impulse,
                );
                proof {
                    assert(edge.weight.impulses =~= crate::constraint::set6_s(
                        old_edge.weight.impulses,
                        i as int,
                        self.impulse,
                    ));
                }
            },
            WritebackId::Limit(i) => {
                edge.weight.limit_impulses = crate::constraint::set_entry6(
                    &edge.weight.limit_impulses,
                    i,
                    self.impulse,
                );
                proof {
                    assert(edge.weight.limit_impulses =~= crate::constraint::set6_s(
                        old_edge.weight.limit_impulses,
                        i as int,
                        self.impulse,
                    ));
                }
            },
            WritebackId::Motor(i) => {
                edge.weight.motor_impulses = crate::constraint::set_entry6(
                    &edge.weight.motor_impulses,
                    i,
                    self.impulse,
                );
                proof {
                    assert(edge.weight.motor_impulses =~= crate::constraint::set6_s(
                        old_edge.weight.motor_impulses,
                        i as int,
                        self.impulse,
                    ));
                }
            },
        }
        joints_all.set(self.joint_id, edge);
    }
}

/// A velocity constraint row coupling a dynamic rigid body and a multibody:
/// the rigid side carries an axis Jacobian against the per-body delta
/// velocities (stored in the first-body convention: its terms enter the
/// residual negatively and impulse changes are added to it), while the
/// multibody side acts on the generic lambda vector through the shared
/// Jacobian buffer.
#[derive(Clone, Copy, Debug)]
pub struct JointGenericVelocityConstraint {
    /// Delta-velocity slot of the rigid body.
    pub mj_lambda1: usize,
    /// Per-axis inverse mass of the rigid body.
    pub im1: Vec3,
    /// Linear Jacobian of the rigid side.
    pub lin_jac: Vec3,
    /// Angular Jacobian of the rigid side, square-root-of-inertia scaled.
    pub ang_jac1: Vec3,
    /// Row offset of the multibody into the generic lambda vector.
    pub mj_lambda2: usize,
    /// Number of generalized degrees of freedom of the multibody.
    pub ndofs2: usize,
    /// Offset of this row's block in the shared Jacobian buffer.
    pub j_id2: usize,
    /// Index of the joint this row came from.
    pub joint_id: usize,
    /// Accumulated impulse.
    pub impulse: i64,
    /// Feasible interval of the accumulated impulse.
    pub impulse_bounds: [i64; 2],
    /// Inverse effective mass of the row; zero when singular.
    pub inv_lhs: i64,
    /// Right-hand side: measured constraint velocity plus positional bias.
    pub rhs: i64,
    /// Right-hand side without the positional bias.
    pub rhs_wo_bias: i64,
    /// Cached slot the result is persisted into.
    pub writeback_id: WritebackId,
}

/// Well-formedness of a coupled generic row against a Jacobian buffer of
/// length `jn`, a delta-velocity vector of length `mn` and a generic lambda
/// vector of length `gn`.
pub open spec fn jgc_wf(c: JointGenericVelocityConstraint, jn: int, mn: int, gn: int) -> bool {
    &&& c.mj_lambda1 < mn
    &&& c.j_id2 + 2 * c.ndofs2 <= jn
    &&& c.mj_lambda2 + c.ndofs2 <= gn
    &&& c.impulse_bounds[0] <= c.impulse_bounds[1]
}

/// The exact constraint-space velocity of a coupled row: the multibody fold
/// over the Jacobian block, minus the rigid side measured through its axis.
pub open spec fn jgc_dvel_s(
    c: JointGenericVelocityConstraint,
    jac: Seq<i64>,
    m: Seq<DeltaVel>,
    g: Seq<i64>,
) -> int {
    let dv1 = m[c.mj_lambda1 as int];
    fx_sub_v(
        gen_fold_s(jac, g, c.j_id2 as int, c.mj_lambda2 as int, c.rhs as int, c.ndofs2 as int),
        fx_add_v(v3_dot_s(c.lin_jac, dv1.linear), v3_dot_s(c.ang_jac1, dv1.angular)),
    )
}

/// The exact clamped new accumulated impulse of a coupled row.
pub open spec fn jgc_new_impulse_s(
    c: JointGenericVelocityConstraint,
    jac: Seq<i64>,
    m: Seq<DeltaVel>,
    g: Seq<i64>,
) -> int {
    let unclamped = fx_add_v(
        c.impulse as int,
        fx_mul_v(c.inv_lhs as int, jgc_dvel_s(c, jac, m, g)),
    );
    if unclamped < c.impulse_bounds[0] {
        c.impulse_bounds[0] as int
    } else if unclamped > c.impulse_bounds[1] {
        c.impulse_bounds[1] as int
    } else {
        unclamped
    }
}

/// The exact delta velocity of the rigid side of a coupled row after an
/// impulse change of `delta`.
pub open spec fn jgc_apply1_s(
    c: JointGenericVelocityConstraint,
    dv1: DeltaVel,
    delta: int,
) -> DeltaVel {
    DeltaVel {
        linear: v3_add_s(
            dv1.linear,
            v3_scale_s(crate::vect::v3_comp_mul_s(c.lin_jac, c.im1), delta),
        ),
        angular: v3_add_s(dv1.angular, v3_scale_s(c.ang_jac1, delta)),
    }
}

/// The exact result of one projected Gauss-Seidel update of a coupled row.
pub open spec fn jgc_solve_s(
    c: JointGenericVelocityConstraint,
    jac: Seq<i64>,
    m: Seq<DeltaVel>,
    g: Seq<i64>,
) -> (JointGenericVelocityConstraint, Seq<DeltaVel>, Seq<i64>) {
    let ni = jgc_new_impulse_s(c, jac, m, g);
    let delta = fx_sub_v(ni, c.impulse as int);
    let m2 = m.update(
        c.mj_lambda1 as int,
        jgc_apply1_s(c, m[c.mj_lambda1 as int], delta),
    );
    let g2 = gen_apply_s(jac, g, c.j_id2 + c.ndofs2, c.mj_lambda2 as int, delta, c.ndofs2 as int);
    (JointGenericVelocityConstraint { impulse: ni as i64, ..c }, m2, g2)
}

impl JointGenericVelocityConstraint {
    /// A placeholder row that constrains nothing.
    pub fn invalid() -> (r: JointGenericVelocityConstraint)
        ensures
            r.inv_lhs == 0,
            r.rhs == 0,
            r.impulse == 0,
            r.ndofs2 == 0,
    {
        JointGenericVelocityConstraint {
            mj_lambda1: 0,
            im1: Vec3 { x: 0, y: 0, z: 0 },
            lin_jac: Vec3 { x: 0, y: 0, z: 0 },
            ang_jac1: Vec3 { x: 0, y: 0, z: 0 },
            mj_lambda2: 0,
            ndofs2: 0,
            j_id2: 0,
            joint_id: 0,
            impulse: 0,
            impulse_bounds: [0, 0],
            inv_lhs: 0,
            rhs: 0,
            rhs_wo_bias: 0,
            writeback_id: WritebackId::Dof(0),
        }
    }

    /// One projected Gauss-Seidel update of this coupled row: measure the
    /// residual through the Jacobian block and the rigid side's axis, clamp
    /// the new impulse, and apply the change to both the rigid body's delta
    /// velocity and the generic lambdas.
    pub fn solve(
        &mut self,
        jacobians: &Vec<i64>,
        mj_lambdas: &mut Vec<DeltaVel>,
        generic_mj_lambdas: &mut Vec<i64>,
    )
        requires
            jgc_wf(
                *old(self),
                jacobians@.len() as int,
                old(mj_lambdas)@.len() as int,
                old(generic_mj_lambdas)@.len() as int,
            ),
        ensures
            (*final(self), final(mj_lambdas)@, final(generic_mj_lambdas)@) == jgc_solve_s(
                *old(self),
                jacobians@,
                old(mj_lambdas)@,
                old(generic_mj_lambdas)@,
            ),
            final(mj_lambdas)@.len() == old(mj_lambdas)@.len(),
            final(generic_mj_lambdas)@.len() == old(generic_mj_lambdas)@.len(),
    {
        let jlen = jacobians.len();
        let glen = generic_mj_lambdas.len();
        let mut fold: i64 = self.rhs;
        let mut k: usize = 0;
        while k < self.ndofs2
            invariant
                k <= self.ndofs2,
                jlen == jacobians@.len(),
                glen == generic_mj_lambdas@.len(),
                self.j_id2 + 2 * self.ndofs2 <= jlen,
                self.mj_lambda2 + self.ndofs2 <= glen,
                fold as int == gen_fold_s(
                    jacobians@,
                    generic_mj_lambdas@,
                    self.j_id2 as int,
                    self.mj_lambda2 as int,
                    self.rhs as int,
                    k as int,
                ),
            decreases self.ndofs2 - k,
        {
            fold = fx_add(
                fold,
                fx_mul(jacobians[self.j_id2 + k], generic_mj_lambdas[self.mj_lambda2 + k]),
            );
            k += 1;
        }
        let dv1 = mj_lambdas[self.mj_lambda1];
        let dvel = fx_sub(
            fold,
            fx_add(self.lin_jac.gdot(dv1.linear), self.ang_jac1.gdot(dv1.angular)),
        );
        let new_impulse = fx_clamp(
            fx_add(self.impulse, fx_mul(self.inv_lhs, dvel)),
            self.impulse_bounds[0],
            self.impulse_bounds[1],
        );
        let delta = fx_sub(new_impulse, self.impulse);
        let new1 = DeltaVel {
            linear: dv1.linear.add(self.lin_jac.component_mul(self.im1).scale(delta)),
            angular: dv1.angular.add(self.ang_jac1.scale(delta)),
        };
        mj_lambdas.set(self.mj_lambda1, new1);
        let mut k2: usize = 0;
        while k2 < self.ndofs2
            invariant
                k2 <= self.ndofs2,
                jlen == jacobians@.len(),
                glen == generic_mj_lambdas@.len(),
                self.j_id2 + 2 * self.ndofs2 <= jlen,
                self.mj_lambda2 + self.ndofs2 <= glen,
                generic_mj_lambdas@.len() == old(generic_mj_lambdas)@.len(),
                generic_mj_lambdas@ == gen_apply_s(
                    jacobians@,
                    old(generic_mj_lambdas)@,
                    self.j_id2 + self.ndofs2,
                    self.mj_lambda2 as int,
                    delta as int,
                    k2 as int,
                ),
            decreases self.ndofs2 - k2,
        {
            let v = fx_sub(
                generic_mj_lambdas[self.mj_lambda2 + k2],
                fx_mul(jacobians[self.j_id2 + self.ndofs2 + k2], delta),
            );
            generic_mj_lambdas.set(self.mj_lambda2 + k2, v);
            k2 += 1;
        }
        self.impulse = new_impulse;
    }

    /// Drops the positional bias from the right-hand side.
    pub fn remove_bias_from_rhs(&mut self)
        ensures
            *final(self) == (JointGenericVelocityConstraint {
                rhs: old(self).rhs_wo_bias,
                ..*old(self)
            }),
    {
        self.rhs = self.rhs_wo_bias;
    }

    /// Persists the accumulated impulse into the owning joint's cache.
    pub fn writeback_impulses(&self, joints_all: &mut Vec<JointGraphEdge>)
        requires
            self.joint_id == usize::MAX || (self.joint_id as int) < old(joints_all)@.len(),
            self.joint_id != usize::MAX ==> wb_in_range(self.writeback_id),
        ensures
            final(joints_all)@.len() == old(joints_all)@.len(),
            self.joint_id == usize::MAX ==> final(joints_all)@ == old(joints_all)@,
            self.joint_id != usize::MAX ==> final(joints_all)@ == old(joints_all)@.update(
                self.joint_id as int,
                written_edge_s(
                    old(joints_all)@[self.joint_id as int],
                    self.writeback_id,
                    self.impulse,
                ),
            ),
    {
        if self.joint_id == usize::MAX {
            return ;
        }
        let ghost old_edge = joints_all@[self.joint_id as int];
        let mut edge = joints_all[self.joint_id];
        match self.writeback_id {
            WritebackId::Dof(i) => {
                edge.weight.impulses = crate::constraint::set_entry6(
                    &edge.weight.impulses,
                    i,
                    self.impulse,
                );
                proof {
                    assert(edge.weight.impulses =~= crate::constraint::set6_s(
                        old_edge.weight.impulses,
                        i as int,
                        self.impulse,
                    ));
                }
            },
            WritebackId::Limit(i) => {
                edge.weight.limit_impulses = crate::constraint::set_entry6(
                    &edge.weight.limit_impulses,
                    i,
                    self.impulse,
                );
                proof {
                    assert(edge.weight.limit_impulses =~= crate::constraint::set6_s(
                        old_edge.weight.limit_impulses,
                        i as int,
                        self.impulse,
                    ));
                }
            },
            WritebackId::Motor(i) => {
                edge.weight.motor_impulses = crate::constraint::set_entry6(
                    &edge.weight.motor_impulses,
                    i,
                    self.impulse,
                );
                proof {
                    assert(edge.weight.motor_impulses =~= crate::constraint::set6_s(
                        old_edge.weight.motor_impulses,
                        i as int,
                        self.impulse,
                    ));
                }
            },
        }
        joints_all.set(self.joint_id, edge);
    }
}

} // verus!
