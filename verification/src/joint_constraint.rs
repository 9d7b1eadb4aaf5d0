//! The tagged union of joint velocity constraints the solver iterates over:
//! single-lane rigid-rigid and rigid-ground rows, lane-grouped wide rows,
//! and generic rows involving a multibody, with the dispatching solve,
//! bias-removal and writeback passes, and the entry points assembling them
//! from joints.

use vstd::prelude::*;

use crate::assembler::{joint_constraints_s, joint_ground_constraints_s};
use crate::body::{RigidBody, RigidBodySet, RigidBodyType};
use crate::constraint::{
    jvc_solve_s, jvc_wf, jvgc_solve_s, jvgc_wf, wb_in_range, written_edge_s, DeltaVel,
    JointVelocityConstraint, JointVelocityGroundConstraint, SolverBody, WritebackId,
};
use crate::generic::{
    gen_apply_s, jggc_new_impulse_s, jggc_wf, JointGenericVelocityGroundConstraint,
};
use crate::joint::{ImpulseJoint, JointGraphEdge, SPATIAL_DIM};
use crate::multibody::{multibody_wf, Multibody, MultibodyJointSet};
use crate::params::IntegrationParameters;

verus! {

/// Number of lanes of a wide constraint.
pub const SIMD_WIDTH: usize = 4;

/// A group of four rigid-rigid rows solved as one wide constraint. The
/// grouper only forms such a group from rows that share no body, so the
/// lanes are independent and are swept in lane order.
#[derive(Clone, Copy, Debug)]
pub struct WideJointVelocityConstraint {
    /// The four lanes.
    pub lanes: [JointVelocityConstraint; 4],
}

/// A group of four rigid-ground rows solved as one wide constraint.
#[derive(Clone, Copy, Debug)]
pub struct WideJointVelocityGroundConstraint {
    /// The four lanes.
    pub lanes: [JointVelocityGroundConstraint; 4],
}

/// Any velocity constraint emitted for a joint.
#[derive(Clone, Copy)]
pub enum AnyJointVelocityConstraint {
    /// A single rigid-rigid row.
    JointConstraint(JointVelocityConstraint),
    /// A single rigid-ground row.
    JointGroundConstraint(JointVelocityGroundConstraint),
    /// A generic row coupling a dynamic rigid body and a multibody.
    JointGenericConstraint(crate::generic::JointGenericVelocityConstraint),
    /// A generic ground row involving a multibody.
    JointGenericGroundConstraint(JointGenericVelocityGroundConstraint),
    /// Four rigid-rigid rows in lanes.
    JointConstraintSimd(WideJointVelocityConstraint),
    /// Four rigid-ground rows in lanes.
    JointGroundConstraintSimd(WideJointVelocityGroundConstraint),
    /// No constraint; a placeholder slot never solved.
    Empty,
}

/// Well-formedness of any constraint against a Jacobian buffer of length
/// `jn`, a delta-velocity vector of length `mn` and a generic lambda vector
/// of length `gn`.
pub open spec fn any_wf(c: AnyJointVelocityConstraint, jn: int, mn: int, gn: int) -> bool {
    match c {
        AnyJointVelocityConstraint::JointConstraint(c) => jvc_wf(c, mn),
        AnyJointVelocityConstraint::JointGroundConstraint(c) => jvgc_wf(c, mn),
        AnyJointVelocityConstraint::JointGenericConstraint(c) => crate::generic::jgc_wf(c, jn, mn, gn),
        AnyJointVelocityConstraint::JointGenericGroundConstraint(c) => jggc_wf(c, jn, gn),
        AnyJointVelocityConstraint::JointConstraintSimd(w) => {
            &&& jvc_wf(w.lanes[0], mn)
            &&& jvc_wf(w.lanes[1], mn)
            &&& jvc_wf(w.lanes[2], mn)
            &&& jvc_wf(w.lanes[3], mn)
        },
        AnyJointVelocityConstraint::JointGroundConstraintSimd(w) => {
            &&& jvgc_wf(w.lanes[0], mn)
            &&& jvgc_wf(w.lanes[1], mn)
            &&& jvgc_wf(w.lanes[2], mn)
            &&& jvgc_wf(w.lanes[3], mn)
        },
        AnyJointVelocityConstraint::Empty => false,
    }
}

/// The exact result of sweeping the four lanes of a wide rigid-rigid
/// constraint in lane order.
pub open spec fn wide_solve_s(
    w: WideJointVelocityConstraint,
    m: Seq<DeltaVel>,
) -> (WideJointVelocityConstraint, Seq<DeltaVel>) {
    let s0 = jvc_solve_s(w.lanes[0], m);
    let s1 = jvc_solve_s(w.lanes[1], s0.1);
    let s2 = jvc_solve_s(w.lanes[2], s1.1);
    let s3 = jvc_solve_s(w.lanes[3], s2.1);
    (WideJointVelocityConstraint { lanes: [s0.0, s1.0, s2.0, s3.0] }, s3.1)
}

/// The exact result of sweeping the four lanes of a wide rigid-ground
/// constraint in lane order.
pub open spec fn wide_ground_solve_s(
    w: WideJointVelocityGroundConstraint,
    m: Seq<DeltaVel>,
) -> (WideJointVelocityGroundConstraint, Seq<DeltaVel>) {
    let s0 = jvgc_solve_s(w.lanes[0], m);
    let s1 = jvgc_solve_s(w.lanes[1], s0.1);
    let s2 = jvgc_solve_s(w.lanes[2], s1.1);
    let s3 = jvgc_solve_s(w.lanes[3], s2.1);
    (WideJointVelocityGroundConstraint { lanes: [s0.0, s1.0, s2.0, s3.0] }, s3.1)
}

impl WideJointVelocityConstraint {
    /// Sweeps the four lanes in lane order.
    pub fn solve(&mut self, mj_lambdas: &mut Vec<DeltaVel>)
        requires
            jvc_wf(old(self).lanes[0], old(mj_lambdas)@.len() as int),
            jvc_wf(old(self).lanes[1], old(mj_lambdas)@.len() as int),
            jvc_wf(old(self).lanes[2], old(mj_lambdas)@.len() as int),
            jvc_wf(old(self).lanes[3], old(mj_lambdas)@.len() as int),
        ensures
            (*final(self), final(mj_lambdas)@) == wide_solve_s(*old(self), old(mj_lambdas)@),
            final(mj_lambdas)@.len() == old(mj_lambdas)@.len(),
    {
        let mut l0 = self.lanes[0];
        let mut l1 = self.lanes[1];
        let mut l2 = self.lanes[2];
        let mut l3 = self.lanes[3];
        l0.solve(mj_lambdas);
        l1.solve(mj_lambdas);
        l2.solve(mj_lambdas);
        l3.solve(mj_lambdas);
        self.lanes = [l0, l1, l2, l3];
    }

    /// Drops the positional bias from every lane.
    pub fn remove_bias_from_rhs(&mut self)
        ensures
            *final(self) == (WideJointVelocityConstraint {
                lanes: [
                    JointVelocityConstraint {
                        rhs: old(self).lanes[0].rhs_wo_bias,
                        ..old(self).lanes[0]
                    },
                    JointVelocityConstraint {
                        rhs: old(self).lanes[1].rhs_wo_bias,
                        ..old(self).lanes[1]
                    },
                    JointVelocityConstraint {
                        rhs: old(self).lanes[2].rhs_wo_bias,
                        ..old(self).lanes[2]
                    },
                    JointVelocityConstraint {
                        rhs: old(self).lanes[3].rhs_wo_bias,
                        ..old(self).lanes[3]
                    },
                ],
            }),
    {
        let mut l0 = self.lanes[0];
        let mut l1 = self.lanes[1];
        let mut l2 = self.lanes[2];
        let mut l3 = self.lanes[3];
        l0.remove_bias_from_rhs();
        l1.remove_bias_from_rhs();
        l2.remove_bias_from_rhs();
        l3.remove_bias_from_rhs();
        self.lanes = [l0, l1, l2, l3];
        proof {
            assert(self.lanes =~= [
                JointVelocityConstraint {
                    rhs: old(self).lanes[0].rhs_wo_bias,
                    ..old(self).lanes[0]
                },
                JointVelocityConstraint {
                    rhs: old(self).lanes[1].rhs_wo_bias,
                    ..old(self).lanes[1]
                },
                JointVelocityConstraint {
                    rhs: old(self).lanes[2].rhs_wo_bias,
                    ..old(self).lanes[2]
                },
                JointVelocityConstraint {
                    rhs: old(self).lanes[3].rhs_wo_bias,
                    ..old(self).lanes[3]
                },
            ]);
        }
    }

    /// Persists every lane's impulse into its joint's cache, in lane order.
    pub fn writeback_impulses(&self, joints_all: &mut Vec<JointGraphEdge>)
        requires
            forall|k: int|
                0 <= k < 4 ==> (self.lanes[k].joint_id as int) < old(joints_all)@.len()
                    && wb_in_range(self.lanes[k].writeback_id),
        ensures
            final(joints_all)@.len() == old(joints_all)@.len(),
            ({
                let e0 = old(joints_all)@.update(
                    self.lanes[0].joint_id as int,
                    written_edge_s(
                        old(joints_all)@[self.lanes[0].joint_id as int],
                        self.lanes[0].writeback_id,
                        self.lanes[0].impulse,
                    ),
                );
                let e1 = e0.update(
                    self.lanes[1].joint_id as int,
                    written_edge_s(
                        e0[self.lanes[1].joint_id as int],
                        self.lanes[1].writeback_id,
                        self.lanes[1].impulse,
                    ),
                );
                let e2 = e1.update(
                    self.lanes[2].joint_id as int,
                    written_edge_s(
                        e1[self.lanes[2].joint_id as int],
                        self.lanes[2].writeback_id,
                        self.lanes[2].impulse,
                    ),
                );
                let e3 = e2.update(
                    self.lanes[3].joint_id as int,
                    written_edge_s(
                        e2[self.lanes[3].joint_id as int],
                        self.lanes[3].writeback_id,
                        self.lanes[3].impulse,
                    ),
                );
                final(joints_all)@ == e3
            }),
    {
        let l0 = self.lanes[0];
        let l1 = self.lanes[1];
        let l2 = self.lanes[2];
        let l3 = self.lanes[3];
        l0.writeback_impulses(joints_all);
        l1.writeback_impulses(joints_all);
        l2.writeback_impulses(joints_all);
        l3.writeback_impulses(joints_all);
    }
}

impl WideJointVelocityGroundConstraint {
    /// Sweeps the four lanes in lane order.
    pub fn solve(&mut self, mj_lambdas: &mut Vec<DeltaVel>)
        requires
            jvgc_wf(old(self).lanes[0], old(mj_lambdas)@.len() as int),
            jvgc_wf(old(self).lanes[1], old(mj_lambdas)@.len() as int),
            jvgc_wf(old(self).lanes[2], old(mj_lambdas)@.len() as int),
            jvgc_wf(old(self).lanes[3], old(mj_lambdas)@.len() as int),
        ensures
            (*final(self), final(mj_lambdas)@) == wide_ground_solve_s(
                *old(self),
                old(mj_lambdas)@,
            ),
            final(mj_lambdas)@.len() == old(mj_lambdas)@.len(),
    {
        let mut l0 = self.lanes[0];
        let mut l1 = self.lanes[1];
        let mut l2 = self.lanes[2];
        let mut l3 = self.lanes[3];
        l0.solve(mj_lambdas);
        l1.solve(mj_lambdas);
        l2.solve(mj_lambdas);
        l3.solve(mj_lambdas);
        self.lanes = [l0, l1, l2, l3];
    }

    /// Drops the positional bias from every lane.
    pub fn remove_bias_from_rhs(&mut self)
        ensures
            *final(self) == (WideJointVelocityGroundConstraint {
                lanes: [
                    JointVelocityGroundConstraint {
                        rhs: old(self).lanes[0].rhs_wo_bias,
                        ..old(self).lanes[0]
                    },
                    JointVelocityGroundConstraint {
                        rhs: old(self).lanes[1].rhs_wo_bias,
                        ..old(self).lanes[1]
                    },
                    JointVelocityGroundConstraint {
                        rhs: old(self).lanes[2].rhs_wo_bias,
                        ..old(self).lanes[2]
                    },
                    JointVelocityGroundConstraint {
                        rhs: old(self).lanes[3].rhs_wo_bias,
                        ..old(self).lanes[3]
                    },
                ],
            }),
    {
        let mut l0 = self.lanes[0];
        let mut l1 = self.lanes[1];
        let mut l2 = self.lanes[2];
        let mut l3 = self.lanes[3];
        l0.remove_bias_from_rhs();
        l1.remove_bias_from_rhs();
        l2.remove_bias_from_rhs();
        l3.remove_bias_from_rhs();
        self.lanes = [l0, l1, l2, l3];
        proof {
            assert(self.lanes =~= [
                JointVelocityGroundConstraint {
                    rhs: old(self).lanes[0].rhs_wo_bias,
                    ..old(self).lanes[0]
                },
                JointVelocityGroundConstraint {
                    rhs: old(self).lanes[1].rhs_wo_bias,
                    ..old(self).lanes[1]
                },
                JointVelocityGroundConstraint {
                    rhs: old(self).lanes[2].rhs_wo_bias,
                    ..old(self).lanes[2]
                },
                JointVelocityGroundConstraint {
                    rhs: old(self).lanes[3].rhs_wo_bias,
                    ..old(self).lanes[3]
                },
            ]);
        }
    }

    /// Persists every lane's impulse into its joint's cache, in lane order.
    pub fn writeback_impulses(&self, joints_all: &mut Vec<JointGraphEdge>)
        requires
            forall|k: int|
                0 <= k < 4 ==> (self.lanes[k].joint_id as int) < old(joints_all)@.len()
                    && wb_in_range(self.lanes[k].writeback_id),
        ensures
            final(joints_all)@.len() == old(joints_all)@.len(),
            ({
                let e0 = old(joints_all)@.update(
                    self.lanes[0].joint_id as int,
                    written_edge_s(
                        old(joints_all)@[self.lanes[0].joint_id as int],
                        self.lanes[0].writeback_id,
                        self.lanes[0].impulse,
                    ),
                );
                let e1 = e0.update(
                    self.lanes[1].joint_id as int,
                    written_edge_s(
                        e0[self.lanes[1].joint_id as int],
                        self.lanes[1].writeback_id,
                        self.lanes[1].impulse,
                    ),
                );
                let e2 = e1.update(
                    self.lanes[2].joint_id as int,
                    written_edge_s(
                        e1[self.lanes[2].joint_id as int],
                        self.lanes[2].writeback_id,
                        self.lanes[2].impulse,
                    ),
                );
                let e3 = e2.update(
                    self.lanes[3].joint_id as int,
                    written_edge_s(
                        e2[self.lanes[3].joint_id as int],
                        self.lanes[3].writeback_id,
                        self.lanes[3].impulse,
                    ),
                );
                final(joints_all)@ == e3
            }),
    {
        let l0 = self.lanes[0];
        let l1 = self.lanes[1];
        let l2 = self.lanes[2];
        let l3 = self.lanes[3];
        l0.writeback_impulses(joints_all);
        l1.writeback_impulses(joints_all);
        l2.writeback_impulses(joints_all);
        l3.writeback_impulses(joints_all);
    }
}

/// The solver-side view of a body, as captured from its components.
pub open spec fn solver_body_s(rb: RigidBody) -> SolverBody {
    SolverBody {
        linvel: rb.vels.linvel,
        angvel: rb.vels.angvel,
        im: rb.mprops.effective_inv_mass,
        sqrt_ii: rb.mprops.effective_world_inv_inertia_sqrt,
        world_com: rb.mprops.world_com,
        mj_lambda: rb.ids.active_set_offset,
    }
}

impl SolverBody {
    /// Captures the solver-side view of a body.
    pub fn from_body(rb: &RigidBody) -> (r: SolverBody)
        ensures
            r == solver_body_s(*rb),
    {
        SolverBody {
            linvel: rb.vels.linvel,
            angvel: rb.vels.angvel,
            im: rb.mprops.effective_inv_mass,
            sqrt_ii: rb.mprops.effective_world_inv_inertia_sqrt,
            world_com: rb.mprops.world_com,
            mj_lambda: rb.ids.active_set_offset,
        }
    }
}

/// A Jacobian buffer extended with zeros up to `req` entries; unchanged when
/// already long enough.
pub open spec fn padded_jac_s(jac: Seq<i64>, req: int) -> Seq<i64> {
    if jac.len() >= req {
        jac
    } else {
        jac + Seq::new((req - jac.len()) as nat, |k: int| 0i64)
    }
}

/// The exact rows, Jacobian buffer and cursor after emitting generic
/// ground rows for the first `n` axes of a joint between a non-dynamic body
/// and a multibody link: each locked axis the link can move emits one row
/// on the corresponding generalized coordinate.
pub open spec fn mb_ground_rows_upto_s(
    mb: Multibody,
    link: crate::multibody::MultibodyLink,
    locked: u8,
    joint_id: usize,
    jac: Seq<i64>,
    j_id: int,
    n: int,
) -> (Seq<JointGenericVelocityGroundConstraint>, Seq<i64>, int)
    decreases n,
{
    if n <= 0 {
        (Seq::empty(), jac, j_id)
    } else {
        let prev = mb_ground_rows_upto_s(mb, link, locked, joint_id, jac, j_id, n - 1);
        let i = n - 1;
        if crate::joint::axis_bit_s(locked, i) && i < link.ndofs {
            let c = crate::unit_joint::unit_row_s(
                mb,
                link,
                prev.1,
                prev.2,
                joint_id,
                mb.velocities@[link.assembly_id + i],
                0,
                i64::MIN,
                i64::MAX,
                WritebackId::Dof(i as usize),
                i,
            );
            (
                prev.0.push(c),
                crate::unit_joint::unit_jac_after_s(
                    mb.inv_augmented_mass.l@,
                    mb.inv_augmented_mass.d@,
                    mb.ndofs as int,
                    prev.1,
                    prev.2,
                    prev.2 + i + link.assembly_id,
                ),
                prev.2 + 2 * mb.ndofs,
            )
        } else {
            prev
        }
    }
}

/// The buffer length and cursor of the ground generic emission stay
/// bounded: after `n` axes the cursor has advanced by at most `2 * ndofs`
/// per axis and the buffer keeps its length.
pub proof fn lemma_mb_ground_rows_bounds(
    mb: Multibody,
    link: crate::multibody::MultibodyLink,
    locked: u8,
    joint_id: usize,
    jac: Seq<i64>,
    j_id: int,
    n: int,
)
    requires
        0 <= n,
        0 <= j_id,
    ensures
        mb_ground_rows_upto_s(mb, link, locked, joint_id, jac, j_id, n).1.len() == jac.len(),
        j_id <= mb_ground_rows_upto_s(mb, link, locked, joint_id, jac, j_id, n).2,
        mb_ground_rows_upto_s(mb, link, locked, joint_id, jac, j_id, n).2 <= j_id + 2 * mb.ndofs
            * n,
    decreases n,
{
    if n > 0 {
        lemma_mb_ground_rows_bounds(mb, link, locked, joint_id, jac, j_id, n - 1);
        assert(j_id + 2 * mb.ndofs * (n - 1) + 2 * mb.ndofs == j_id + 2 * mb.ndofs * n)
            by (nonlinear_arith);
        assert(2 * mb.ndofs * (n - 1) <= 2 * mb.ndofs * n) by (nonlinear_arith);
    } else {
        assert(2 * mb.ndofs * 0 == 0) by (nonlinear_arith);
    }
}

/// The exact rows, Jacobian buffer and cursor after emitting coupled
/// generic rows for the first `n` axes of a joint between a rigid body and
/// a multibody link: each locked axis the link can move emits one row on
/// the corresponding generalized coordinate, carrying the rigid side's axis
/// Jacobian when the other side is a dynamic rigid body (negated when that
/// body is the second one, so it behaves as the second side of the row).
pub open spec fn mb_rows_upto_s(
    mb: Multibody,
    link: crate::multibody::MultibodyLink,
    locked: u8,
    joint_id: usize,
    jac: Seq<i64>,
    j_id: int,
    rigid: SolverBody,
    f_axis: crate::quat::Iso,
    f_anchor: crate::quat::Iso,
    flip: bool,
    coupled: bool,
    n: int,
) -> (Seq<crate::generic::JointGenericVelocityConstraint>, Seq<i64>, int)
    decreases n,
{
    if n <= 0 {
        (Seq::empty(), jac, j_id)
    } else {
        let prev = mb_rows_upto_s(
            mb,
            link,
            locked,
            joint_id,
            jac,
            j_id,
            rigid,
            f_axis,
            f_anchor,
            flip,
            coupled,
            n - 1,
        );
        let i = n - 1;
        if crate::joint::axis_bit_s(locked, i) && i < link.ndofs {
            let g = crate::assembler::axis_geometry_ground_s(rigid, rigid, f_axis, f_anchor, i);
            let lj = if coupled {
                if flip {
                    crate::vect::v3_neg_s(g.0)
                } else {
                    g.0
                }
            } else {
                crate::vect::Vec3 { x: 0i64, y: 0i64, z: 0i64 }
            };
            let aj = if coupled {
                if flip {
                    crate::vect::v3_neg_s(g.1)
                } else {
                    g.1
                }
            } else {
                crate::vect::Vec3 { x: 0i64, y: 0i64, z: 0i64 }
            };
            let xl: i64 = if coupled {
                g.2 as i64
            } else {
                0i64
            };
            let ml1: usize = if coupled {
                rigid.mj_lambda
            } else {
                0usize
            };
            let iv = if coupled {
                rigid.im
            } else {
                crate::vect::Vec3 { x: 0i64, y: 0i64, z: 0i64 }
            };
            let c = crate::unit_joint::unit_coupled_row_s(
                mb,
                link,
                prev.1,
                prev.2,
                joint_id,
                mb.velocities@[link.assembly_id + i],
                i,
                ml1,
                iv,
                lj,
                aj,
                xl,
            );
            (
                prev.0.push(c),
                crate::unit_joint::unit_jac_after_s(
                    mb.inv_augmented_mass.l@,
                    mb.inv_augmented_mass.d@,
                    mb.ndofs as int,
                    prev.1,
                    prev.2,
                    prev.2 + i + link.assembly_id,
                ),
                prev.2 + 2 * mb.ndofs,
            )
        } else {
            prev
        }
    }
}

/// The buffer length and cursor of the coupled generic emission stay
/// bounded.
pub proof fn lemma_mb_rows_bounds(
    mb: Multibody,
    link: crate::multibody::MultibodyLink,
    locked: u8,
    joint_id: usize,
    jac: Seq<i64>,
    j_id: int,
    rigid: SolverBody,
    f_axis: crate::quat::Iso,
    f_anchor: crate::quat::Iso,
    flip: bool,
    coupled: bool,
    n: int,
)
    requires
        0 <= n,
        0 <= j_id,
    ensures
        mb_rows_upto_s(
            mb,
            link,
            locked,
            joint_id,
            jac,
            j_id,
            rigid,
            f_axis,
            f_anchor,
            flip,
            coupled,
            n,
        ).1.len() == jac.len(),
        j_id <= mb_rows_upto_s(
            mb,
            link,
            locked,
            joint_id,
            jac,
            j_id,
            rigid,
            f_axis,
            f_anchor,
            flip,
            coupled,
            n,
        ).2,
        mb_rows_upto_s(
            mb,
            link,
            locked,
            joint_id,
            jac,
            j_id,
            rigid,
            f_axis,
            f_anchor,
            flip,
            coupled,
            n,
        ).2 <= j_id + 2 * mb.ndofs * n,
    decreases n,
{
    if n > 0 {
        lemma_mb_rows_bounds(
            mb,
            link,
            locked,
            joint_id,
            jac,
            j_id,
            rigid,
            f_axis,
            f_anchor,
            flip,
            coupled,
            n - 1,
        );
        assert(j_id + 2 * mb.ndofs * (n - 1) + 2 * mb.ndofs == j_id + 2 * mb.ndofs * n)
            by (nonlinear_arith);
        assert(2 * mb.ndofs * (n - 1) <= 2 * mb.ndofs * n) by (nonlinear_arith);
    } else {
        assert(2 * mb.ndofs * 0 == 0) by (nonlinear_arith);
    }
}

/// The exact result of one projected Gauss-Seidel update of any
/// constraint: the updated constraint, delta velocities and generic
/// lambdas.
#[verifier::opaque]
pub open spec fn any_solve_s(
    c: AnyJointVelocityConstraint,
    jac: Seq<i64>,
    m: Seq<DeltaVel>,
    g: Seq<i64>,
) -> (AnyJointVelocityConstraint, Seq<DeltaVel>, Seq<i64>) {
    match c {
        AnyJointVelocityConstraint::JointConstraint(cc) => {
            let r = jvc_solve_s(cc, m);
            (AnyJointVelocityConstraint::JointConstraint(r.0), r.1, g)
        },
        AnyJointVelocityConstraint::JointGroundConstraint(cc) => {
            let r = jvgc_solve_s(cc, m);
            (AnyJointVelocityConstraint::JointGroundConstraint(r.0), r.1, g)
        },
        AnyJointVelocityConstraint::JointConstraintSimd(w) => {
            let r = wide_solve_s(w, m);
            (AnyJointVelocityConstraint::JointConstraintSimd(r.0), r.1, g)
        },
        AnyJointVelocityConstraint::JointGroundConstraintSimd(w) => {
            let r = wide_ground_solve_s(w, m);
            (AnyJointVelocityConstraint::JointGroundConstraintSimd(r.0), r.1, g)
        },
        AnyJointVelocityConstraint::JointGenericConstraint(cc) => {
            let r = crate::generic::jgc_solve_s(cc, jac, m, g);
            (AnyJointVelocityConstraint::JointGenericConstraint(r.0), r.1, r.2)
        },
        AnyJointVelocityConstraint::JointGenericGroundConstraint(cc) => {
            let ni = jggc_new_impulse_s(cc, jac, g);
            (
                AnyJointVelocityConstraint::JointGenericGroundConstraint(
                    JointGenericVelocityGroundConstraint { impulse: ni as i64, ..cc },
                ),
                m,
                gen_apply_s(
                    jac,
                    g,
                    cc.j_id2 + cc.ndofs2,
                    cc.mj_lambda2 as int,
                    crate::fx::fx_sub_v(ni, cc.impulse as int),
                    cc.ndofs2 as int,
                ),
            )
        },
        AnyJointVelocityConstraint::Empty => (c, m, g),
    }
}

/// The exact rows appended, Jacobian buffer and cursor produced by
/// `from_joint` for one joint between two dynamic bodies, over all of its
/// branches: the rigid-rigid path emits the canonical single-lane rows and
/// leaves the buffer alone; a multibody path first pads the buffer
/// zero-filled to the cursor plus the participating degrees of freedom
/// times twice the spatial dimension, then emits one coupled generic row
/// per locked axis the link can move; two fixed multibodies emit nothing.
#[verifier::opaque]
pub open spec fn from_joint_result_s(
    p: IntegrationParameters,
    joint_id: usize,
    j: ImpulseJoint,
    bodies: RigidBodySet,
    mbs: MultibodyJointSet,
    jac: Seq<i64>,
    j_id: int,
) -> (Seq<AnyJointVelocityConstraint>, Seq<i64>, int) {
    let b1 = solver_body_s(bodies.body_at(j.body1));
    let b2 = solver_body_s(bodies.body_at(j.body2));
    let f1 = crate::quat::iso_mul_s(bodies.body_at(j.body1).pos.position, j.data.local_frame1);
    let f2 = crate::quat::iso_mul_s(bodies.body_at(j.body2).pos.position, j.data.local_frame2);
    let l1 = crate::multibody::link_of_s(mbs, j.body1);
    let l2 = crate::multibody::link_of_s(mbs, j.body2);
    if l1 is Some || l2 is Some {
        let ndofs1: int = if l1 is Some {
            mbs.multibodies@[l1->0.multibody as int].ndofs as int
        } else {
            6
        };
        let ndofs2: int = if l2 is Some {
            mbs.multibodies@[l2->0.multibody as int].ndofs as int
        } else {
            6
        };
        let total = ndofs1 + ndofs2;
        if total == 0 {
            (Seq::empty(), jac, j_id)
        } else {
            let padded = padded_jac_s(jac, j_id + total * 12);
            let loc = if l2 is Some {
                l2->0
            } else {
                l1->0
            };
            let mb = mbs.multibodies@[loc.multibody as int];
            let link = mb.links@[loc.id as int];
            let n = mb.ndofs as int;
            if n == 0 || link.assembly_id + link.ndofs > mb.ndofs || padded.len() < j_id + 12 * n {
                (Seq::empty(), padded, j_id)
            } else {
                let flip = !(l2 is Some);
                let rigid = if l2 is Some {
                    b1
                } else {
                    b2
                };
                let f_anchor = if l2 is Some {
                    f1
                } else {
                    f2
                };
                let coupled = if l2 is Some {
                    l1 is None && bodies.body_at(j.body1).body_type == RigidBodyType::Dynamic
                } else {
                    bodies.body_at(j.body2).body_type == RigidBodyType::Dynamic
                };
                let r = mb_rows_upto_s(
                    mb,
                    link,
                    j.data.locked_axes,
                    joint_id,
                    padded,
                    j_id,
                    rigid,
                    f1,
                    f_anchor,
                    flip,
                    coupled,
                    6,
                );
                (
                    r.0.map_values(
                        |c: crate::generic::JointGenericVelocityConstraint| AnyJointVelocityConstraint::JointGenericConstraint(
                            c,
                        ),
                    ),
                    r.1,
                    r.2,
                )
            }
        }
    } else {
        (
            joint_constraints_s(p, joint_id, b1, b2, f1, f2, j).map_values(
                |c: JointVelocityConstraint| AnyJointVelocityConstraint::JointConstraint(c),
            ),
            jac,
            j_id,
        )
    }
}

/// The exact rows appended, Jacobian buffer and cursor produced by
/// `from_joint_ground` for one joint with a non-dynamic side: the sides are
/// swapped so the dynamic body is the corrected one; a rigid dynamic side
/// gets the canonical ground rows; a multibody dynamic side gets one
/// generic ground row per locked axis the link can move, after the buffer
/// is padded; a fixed multibody emits nothing.
#[verifier::opaque]
pub open spec fn from_joint_ground_result_s(
    p: IntegrationParameters,
    joint_id: usize,
    j: ImpulseJoint,
    bodies: RigidBodySet,
    mbs: MultibodyJointSet,
    jac: Seq<i64>,
    j_id: int,
) -> (Seq<AnyJointVelocityConstraint>, Seq<i64>, int) {
    let flipped = bodies.body_at(j.body2).body_type != RigidBodyType::Dynamic;
    let h1 = if flipped {
        j.body2
    } else {
        j.body1
    };
    let h2 = if flipped {
        j.body1
    } else {
        j.body2
    };
    let lf1 = if flipped {
        j.data.local_frame2
    } else {
        j.data.local_frame1
    };
    let lf2 = if flipped {
        j.data.local_frame1
    } else {
        j.data.local_frame2
    };
    let b1 = solver_body_s(bodies.body_at(h1));
    let b2 = solver_body_s(bodies.body_at(h2));
    let f1 = crate::quat::iso_mul_s(bodies.body_at(h1).pos.position, lf1);
    let f2 = crate::quat::iso_mul_s(bodies.body_at(h2).pos.position, lf2);
    let l2 = crate::multibody::link_of_s(mbs, h2);
    if l2 is Some {
        let loc = l2->0;
        let mb = mbs.multibodies@[loc.multibody as int];
        let n = mb.ndofs as int;
        if n == 0 {
            (Seq::empty(), jac, j_id)
        } else {
            let padded = padded_jac_s(jac, j_id + n * 12);
            let link = mb.links@[loc.id as int];
            if link.assembly_id + link.ndofs > mb.ndofs || padded.len() < j_id + 12 * n {
                (Seq::empty(), padded, j_id)
            } else {
                let r = mb_ground_rows_upto_s(
                    mb,
                    link,
                    j.data.locked_axes,
                    joint_id,
                    padded,
                    j_id,
                    6,
                );
                (
                    r.0.map_values(
                        |c: JointGenericVelocityGroundConstraint| AnyJointVelocityConstraint::JointGenericGroundConstraint(
                            c,
                        ),
                    ),
                    r.1,
                    r.2,
                )
            }
        }
    } else {
        (
            joint_ground_constraints_s(p, joint_id, b1, b2, f1, f2, j).map_values(
                |c: JointVelocityGroundConstraint| AnyJointVelocityConstraint::JointGroundConstraint(
                    c,
                ),
            ),
            jac,
            j_id,
        )
    }
}

impl AnyJointVelocityConstraint {
    /// The number of solver-constraint slots one joint occupies in the
    /// parallel solver's bookkeeping.
    pub fn num_active_constraints(_joint: &ImpulseJoint) -> (r: usize)
        ensures
            r == 1,
    {
        1
    }

    /// Assembles the velocity rows of a joint between two dynamic bodies,
    /// exactly as `from_joint_result_s` states. When neither side belongs
    /// to a multibody this emits one single-lane row per locked, motored or
    /// limited axis; when a side is a multibody link, each locked axis the
    /// link can move emits one generic row on the link's generalized
    /// coordinates through the articulated inverse mass, growing the shared
    /// Jacobian buffer on demand, with the other side's axis Jacobian
    /// coupled in when it is a dynamic rigid body. Rows on generalized
    /// coordinates start from a zero accumulated impulse: they are not
    /// warm-started, unlike the rigid rows, whose cached impulses are
    /// scaled by the warm-start coefficient.
    #[verifier::rlimit(100)]
    pub fn from_joint(
        params: &IntegrationParameters,
        joint_id: usize,
        joint: &ImpulseJoint,
        bodies: &RigidBodySet,
        multibodies: &MultibodyJointSet,
        j_id: &mut usize,
        jacobians: &mut Vec<i64>,
        out: &mut Vec<AnyJointVelocityConstraint>,
    )
        requires
            bodies.wf(),
            bodies.is_live(joint.body1),
            bodies.is_live(joint.body2),
            crate::multibody::multibody_set_wf(*multibodies),
            *old(j_id) <= 0x100_0000,
            old(jacobians)@.len() <= 0x200_0000,
            forall|i: int|
                0 <= i < multibodies.multibodies@.len() ==> (
                #[trigger] multibodies.multibodies@[i]).ndofs <= 0x1000,
        ensures
            ({
                let r = from_joint_result_s(
                    *params,
                    joint_id,
                    *joint,
                    *bodies,
                    *multibodies,
                    old(jacobians)@,
                    *old(j_id) as int,
                );
                &&& final(out)@ == old(out)@ + r.0
                &&& final(jacobians)@ == r.1
                &&& *final(j_id) as int == r.2
            }),
            final(out)@.len() >= old(out)@.len(),
    {
        proof {
            reveal(from_joint_result_s);
        }
        let rb1 = bodies.get(joint.body1).unwrap();
        let rb2 = bodies.get(joint.body2).unwrap();
        let frame1 = rb1.pos.position.mul(joint.data.local_frame1);
        let frame2 = rb2.pos.position.mul(joint.data.local_frame2);
        let body1 = SolverBody::from_body(rb1);
        let body2 = SolverBody::from_body(rb2);

        let mb1 = multibodies.rigid_body_link(joint.body1);
        let mb2 = multibodies.rigid_body_link(joint.body2);

        if mb1.is_some() || mb2.is_some() {
            let ndofs1 = match mb1 {
                Some(l) => multibodies.multibodies[l.multibody].ndofs(),
                None => SPATIAL_DIM,
            };
            let ndofs2 = match mb2 {
                Some(l) => multibodies.multibodies[l.multibody].ndofs(),
                None => SPATIAL_DIM,
            };
            proof {
                assert(ndofs1 <= 0x1000);
                assert(ndofs2 <= 0x1000);
                assert(SPATIAL_DIM == 6);
            }
            let multibodies_ndof = ndofs1 + ndofs2;
            proof {
                assert(multibodies_ndof * 2 * SPATIAL_DIM <= 0x2000 * 2 * 6)
                    by (nonlinear_arith)
                    requires
                        multibodies_ndof <= 0x2000,
                        SPATIAL_DIM == 6,
                ;
            }
            if multibodies_ndof == 0 {
                // Both multibodies are fixed; no constraint is generated.
                proof {
                    assert(old(out)@ + Seq::<AnyJointVelocityConstraint>::empty() =~= old(out)@);
                }
                return ;
            }
            let required_jacobian_len = *j_id + multibodies_ndof * 2 * SPATIAL_DIM;
            while jacobians.len() < required_jacobian_len
                invariant
                    jacobians@.len() <= required_jacobian_len || jacobians@.len() == old(
                        jacobians,
                    )@.len(),
                    jacobians@ == padded_jac_s(old(jacobians)@, jacobians@.len() as int),
                decreases required_jacobian_len - jacobians@.len(),
            {
                jacobians.push(0);
            }
            proof {
                assert(jacobians@ =~= padded_jac_s(
                    old(jacobians)@,
                    required_jacobian_len as int,
                ));
            }
            let loc = match mb2 {
                Some(l) => l,
                None => mb1.unwrap(),
            };
            let mb = &multibodies.multibodies[loc.multibody];
            let link = mb.links[loc.id];
            let n = mb.ndofs();
            let j_start = *j_id;
            let jlen = jacobians.len();
            if n == 0 || link.assembly_id + link.ndofs > n || jlen < j_start + 12 * n {
                proof {
                    assert(old(out)@ + Seq::<AnyJointVelocityConstraint>::empty() =~= old(out)@);
                }
                return ;
            }
            let (flip, rigid_sb, f_anchor, coupled) = if mb2.is_some() {
                (false, body1, frame1, mb1.is_none() && rb1.body_type.is_dynamic())
            } else {
                (true, body2, frame2, rb2.body_type.is_dynamic())
            };
            let ghost jac1 = jacobians@;
            let ghost j1 = *j_id as int;
            let mut i: usize = 0;
            while i < 6
                invariant
                    i <= 6,
                    multibody_wf(*mb),
                    link.assembly_id + link.ndofs <= n,
                    n == mb.ndofs,
                    jlen == jacobians@.len(),
                    j_start + 12 * n <= jlen,
                    j1 == j_start as int,
                    j1 >= 0,
                    jac1.len() == jlen,
                    ({
                        let r = mb_rows_upto_s(
                            *mb,
                            link,
                            joint.data.locked_axes,
                            joint_id,
                            jac1,
                            j1,
                            rigid_sb,
                            frame1,
                            f_anchor,
                            flip,
                            coupled,
                            i as int,
                        );
                        &&& out@ == old(out)@ + r.0.map_values(
                            |c: crate::generic::JointGenericVelocityConstraint| AnyJointVelocityConstraint::JointGenericConstraint(
                                c,
                            ),
                        )
                        &&& jacobians@ == r.1
                        &&& *j_id as int == r.2
                    }),
                decreases 6 - i,
            {
                proof {
                    lemma_mb_rows_bounds(
                        *mb,
                        link,
                        joint.data.locked_axes,
                        joint_id,
                        jac1,
                        j1,
                        rigid_sb,
                        frame1,
                        f_anchor,
                        flip,
                        coupled,
                        i as int,
                    );
                    assert(2 * (n as int) * (i as int) + 2 * (n as int) <= 12 * (n as int))
                        by (nonlinear_arith)
                        requires
                            0 <= i as int <= 5,
                    ;
                }
                if crate::joint::axis_bit(joint.data.locked_axes, i) && i < link.ndofs {
                    let g = crate::assembler::axis_geometry_ground(
                        &rigid_sb,
                        &rigid_sb,
                        &frame1,
                        &f_anchor,
                        i,
                    );
                    let (lj, aj, xl, ml1, iv) = if coupled {
                        if flip {
                            (g.0.neg(), g.1.neg(), g.2, rigid_sb.mj_lambda, rigid_sb.im)
                        } else {
                            (g.0, g.1, g.2, rigid_sb.mj_lambda, rigid_sb.im)
                        }
                    } else {
                        (
                            crate::vect::Vec3::zero(),
                            crate::vect::Vec3::zero(),
                            0i64,
                            0usize,
                            crate::vect::Vec3::zero(),
                        )
                    };
                    let c = crate::unit_joint::unit_row_coupled(
                        mb,
                        &link,
                        joint_id,
                        mb.velocities[link.assembly_id + i],
                        i,
                        ml1,
                        iv,
                        lj,
                        aj,
                        xl,
                        j_id,
                        jacobians,
                    );
                    out.push(AnyJointVelocityConstraint::JointGenericConstraint(c));
                }
                i += 1;
            }
        } else {
            let mut out_tmp: Vec<JointVelocityConstraint> = Vec::new();
            let out_tmp_len = JointVelocityConstraint::lock_axes(
                params,
                joint_id,
                &body1,
                &body2,
                &frame1,
                &frame2,
                joint,
                &mut out_tmp,
            );
            let mut k: usize = 0;
            while k < out_tmp.len()
                invariant
                    k <= out_tmp@.len(),
                    out@ == old(out)@ + out_tmp@.take(k as int).map_values(
                        |c: JointVelocityConstraint| AnyJointVelocityConstraint::JointConstraint(c),
                    ),
                decreases out_tmp@.len() - k,
            {
                let c = out_tmp[k];
                out.push(AnyJointVelocityConstraint::JointConstraint(c));
                k += 1;
            }
            proof {
                assert(out_tmp@.take(out_tmp@.len() as int) =~= out_tmp@);
            }
        }
    }

    /// Assembles the ground velocity rows of a joint with one non-dynamic
    /// side, exactly as `from_joint_ground_result_s` states. When the
    /// second body is the non-dynamic one, the sides and frames are swapped
    /// so that the dynamic body is always the corrected one; when the
    /// dynamic side is a multibody link, each locked axis the link can move
    /// emits one generic ground row on its generalized coordinates.
    #[verifier::rlimit(100)]
    pub fn from_joint_ground(
        params: &IntegrationParameters,
        joint_id: usize,
        joint: &ImpulseJoint,
        bodies: &RigidBodySet,
        multibodies: &MultibodyJointSet,
        j_id: &mut usize,
        jacobians: &mut Vec<i64>,
        out: &mut Vec<AnyJointVelocityConstraint>,
    )
        requires
            bodies.wf(),
            bodies.is_live(joint.body1),
            bodies.is_live(joint.body2),
            crate::multibody::multibody_set_wf(*multibodies),
            *old(j_id) <= 0x100_0000,
            old(jacobians)@.len() <= 0x200_0000,
            forall|i: int|
                0 <= i < multibodies.multibodies@.len() ==> (
                #[trigger] multibodies.multibodies@[i]).ndofs <= 0x1000,
        ensures
            ({
                let r = from_joint_ground_result_s(
                    *params,
                    joint_id,
                    *joint,
                    *bodies,
                    *multibodies,
                    old(jacobians)@,
                    *old(j_id) as int,
                );
                &&& final(out)@ == old(out)@ + r.0
                &&& final(jacobians)@ == r.1
                &&& *final(j_id) as int == r.2
            }),
            final(out)@.len() >= old(out)@.len(),
    {
        proof {
            reveal(from_joint_ground_result_s);
        }
        let status2 = bodies.get(joint.body2).unwrap().body_type;
        let flipped = !status2.is_dynamic();

        let (handle1, handle2, local_frame1, local_frame2) = if flipped {
            (joint.body2, joint.body1, joint.data.local_frame2, joint.data.local_frame1)
        } else {
            (joint.body1, joint.body2, joint.data.local_frame1, joint.data.local_frame2)
        };

        let rb1 = bodies.get(handle1).unwrap();
        let rb2 = bodies.get(handle2).unwrap();
        let frame1 = rb1.pos.position.mul(local_frame1);
        let frame2 = rb2.pos.position.mul(local_frame2);
        let body1 = SolverBody::from_body(rb1);
        let body2 = SolverBody::from_body(rb2);

        let mb2 = multibodies.rigid_body_link(handle2);
        if mb2.is_some() {
            // The dynamic side is a multibody link: its rows live on the
            // generalized coordinates through the articulated inverse mass.
            let loc = mb2.unwrap();
            let mb = &multibodies.multibodies[loc.multibody];
            let n = mb.ndofs();
            proof {
                assert(n <= 0x1000);
                assert(SPATIAL_DIM == 6);
                assert(n * 2 * SPATIAL_DIM <= 0x1000 * 2 * 6) by (nonlinear_arith)
                    requires
                        n <= 0x1000,
                        SPATIAL_DIM == 6,
                ;
            }
            if n == 0 {
                // The multibody is fixed; no constraint is generated.
                proof {
                    assert(old(out)@ + Seq::<AnyJointVelocityConstraint>::empty() =~= old(out)@);
                }
                return ;
            }
            let required_jacobian_len = *j_id + n * 2 * SPATIAL_DIM;
            while jacobians.len() < required_jacobian_len
                invariant
                    jacobians@.len() <= required_jacobian_len || jacobians@.len() == old(
                        jacobians,
                    )@.len(),
                    jacobians@ == padded_jac_s(old(jacobians)@, jacobians@.len() as int),
                decreases required_jacobian_len - jacobians@.len(),
            {
                jacobians.push(0);
            }
            proof {
                assert(jacobians@ =~= padded_jac_s(
                    old(jacobians)@,
                    required_jacobian_len as int,
                ));
            }
            let link = mb.links[loc.id];
            let j_start = *j_id;
            let jlen = jacobians.len();
            if link.assembly_id + link.ndofs > n || jlen < j_start + 12 * n {
                proof {
                    assert(old(out)@ + Seq::<AnyJointVelocityConstraint>::empty() =~= old(out)@);
                }
                return ;
            }
            let ghost jac1 = jacobians@;
            let ghost j1 = *j_id as int;
            let mut i: usize = 0;
            while i < 6
                invariant
                    i <= 6,
                    multibody_wf(*mb),
                    link.assembly_id + link.ndofs <= n,
                    n == mb.ndofs,
                    jlen == jacobians@.len(),
                    j_start + 12 * n <= jlen,
                    j1 == j_start as int,
                    j1 >= 0,
                    jac1.len() == jlen,
                    ({
                        let r = mb_ground_rows_upto_s(
                            *mb,
                            link,
                            joint.data.locked_axes,
                            joint_id,
                            jac1,
                            j1,
                            i as int,
                        );
                        &&& out@ == old(out)@ + r.0.map_values(
                            |c: JointGenericVelocityGroundConstraint| AnyJointVelocityConstraint::JointGenericGroundConstraint(
                                c,
                            ),
                        )
                        &&& jacobians@ == r.1
                        &&& *j_id as int == r.2
                    }),
                decreases 6 - i,
            {
                proof {
                    lemma_mb_ground_rows_bounds(
                        *mb,
                        link,
                        joint.data.locked_axes,
                        joint_id,
                        jac1,
                        j1,
                        i as int,
                    );
                    assert(2 * (n as int) * (i as int) + 2 * (n as int) <= 12 * (n as int))
                        by (nonlinear_arith)
                        requires
                            0 <= i as int <= 5,
                    ;
                }
                if crate::joint::axis_bit(joint.data.locked_axes, i) && i < link.ndofs {
                    let (c, _lhs) = crate::unit_joint::unit_row(
                        mb,
                        &link,
                        joint_id,
                        mb.velocities[link.assembly_id + i],
                        0,
                        i64::MIN,
                        i64::MAX,
                        WritebackId::Dof(i),
                        i,
                        j_id,
                        jacobians,
                    );
                    out.push(AnyJointVelocityConstraint::JointGenericGroundConstraint(c));
                }
                i += 1;
            }
            return ;
        }
        let mut out_tmp: Vec<JointVelocityGroundConstraint> = Vec::new();
        let out_tmp_len = JointVelocityGroundConstraint::lock_axes(
            params,
            joint_id,
            &body1,
            &body2,
            &frame1,
            &frame2,
            joint,
            &mut out_tmp,
        );
        let mut k: usize = 0;
        while k < out_tmp.len()
            invariant
                k <= out_tmp@.len(),
                out@ == old(out)@ + out_tmp@.take(k as int).map_values(
                    |c: JointVelocityGroundConstraint| AnyJointVelocityConstraint::JointGroundConstraint(c),
                ),
            decreases out_tmp@.len() - k,
        {
            let c = out_tmp[k];
            out.push(AnyJointVelocityConstraint::JointGroundConstraint(c));
            k += 1;
        }
        proof {
            assert(out_tmp@.take(out_tmp@.len() as int) =~= out_tmp@);
        }
    }
}

/// The rigid-rigid lane `k` of a wide row on axis `i`: the equality row of
/// that lane's joint and bodies.
#[verifier::opaque]
pub open spec fn wide_lane_s(
    p: IntegrationParameters,
    ids: [usize; 4],
    js: Seq<JointGraphEdge>,
    bodies: RigidBodySet,
    k: int,
    i: int,
) -> JointVelocityConstraint {
    let j = js[ids[k] as int].weight;
    crate::assembler::dof_constraint_s(
        p,
        ids[k],
        solver_body_s(bodies.body_at(j.body1)),
        solver_body_s(bodies.body_at(j.body2)),
        crate::quat::iso_mul_s(bodies.body_at(j.body1).pos.position, j.data.local_frame1),
        crate::quat::iso_mul_s(bodies.body_at(j.body2).pos.position, j.data.local_frame2),
        j.impulses@[i],
        i,
    )
}

/// The wide rows emitted for the first `n` axes of four joints grouped in
/// lanes: one wide row per axis locked in the first lane's mask, which the
/// grouper guarantees is shared by all lanes.
pub open spec fn wide_joint_constraints_upto_s(
    p: IntegrationParameters,
    ids: [usize; 4],
    js: Seq<JointGraphEdge>,
    bodies: RigidBodySet,
    n: int,
) -> Seq<WideJointVelocityConstraint>
    decreases n,
{
    if n <= 0 {
        Seq::empty()
    } else {
        let prev = wide_joint_constraints_upto_s(p, ids, js, bodies, n - 1);
        let i = n - 1;
        if crate::joint::axis_bit_s(js[ids[0] as int].weight.data.locked_axes, i) {
            prev.push(
                WideJointVelocityConstraint {
                    lanes: [
                        wide_lane_s(p, ids, js, bodies, 0, i),
                        wide_lane_s(p, ids, js, bodies, 1, i),
                        wide_lane_s(p, ids, js, bodies, 2, i),
                        wide_lane_s(p, ids, js, bodies, 3, i),
                    ],
                },
            )
        } else {
            prev
        }
    }
}

/// The ground lane `k` of a wide ground row on axis `i`, with the sides
/// swapped when the lane's second body is the non-dynamic one.
#[verifier::opaque]
pub open spec fn wide_ground_lane_s(
    p: IntegrationParameters,
    ids: [usize; 4],
    js: Seq<JointGraphEdge>,
    bodies: RigidBodySet,
    k: int,
    i: int,
) -> JointVelocityGroundConstraint {
    let j = js[ids[k] as int].weight;
    let flipped = bodies.body_at(j.body2).body_type != RigidBodyType::Dynamic;
    let h1 = if flipped {
        j.body2
    } else {
        j.body1
    };
    let h2 = if flipped {
        j.body1
    } else {
        j.body2
    };
    let lf1 = if flipped {
        j.data.local_frame2
    } else {
        j.data.local_frame1
    };
    let lf2 = if flipped {
        j.data.local_frame1
    } else {
        j.data.local_frame2
    };
    crate::assembler::dof_ground_constraint_s(
        p,
        ids[k],
        solver_body_s(bodies.body_at(h1)),
        solver_body_s(bodies.body_at(h2)),
        crate::quat::iso_mul_s(bodies.body_at(h1).pos.position, lf1),
        crate::quat::iso_mul_s(bodies.body_at(h2).pos.position, lf2),
        j.impulses@[i],
        i,
    )
}

/// The wide ground rows emitted for the first `n` axes of four joints
/// grouped in lanes.
pub open spec fn wide_ground_constraints_upto_s(
    p: IntegrationParameters,
    ids: [usize; 4],
    js: Seq<JointGraphEdge>,
    bodies: RigidBodySet,
    n: int,
) -> Seq<WideJointVelocityGroundConstraint>
    decreases n,
{
    if n <= 0 {
        Seq::empty()
    } else {
        let prev = wide_ground_constraints_upto_s(p, ids, js, bodies, n - 1);
        let i = n - 1;
        if crate::joint::axis_bit_s(js[ids[0] as int].weight.data.locked_axes, i) {
            prev.push(
                WideJointVelocityGroundConstraint {
                    lanes: [
                        wide_ground_lane_s(p, ids, js, bodies, 0, i),
                        wide_ground_lane_s(p, ids, js, bodies, 1, i),
                        wide_ground_lane_s(p, ids, js, bodies, 2, i),
                        wide_ground_lane_s(p, ids, js, bodies, 3, i),
                    ],
                },
            )
        } else {
            prev
        }
    }
}

impl AnyJointVelocityConstraint {
    /// Assembles the wide velocity rows of four joints grouped in lanes,
    /// all between dynamic bodies: one wide equality row per axis locked in
    /// the first lane's mask. Motors and limits degrade to scalar rows and
    /// are not grouped.
    #[verifier::rlimit(100)]
    pub fn from_wide_joint(
        params: &IntegrationParameters,
        joint_ids: [usize; 4],
        joints: &Vec<JointGraphEdge>,
        bodies: &RigidBodySet,
        out: &mut Vec<AnyJointVelocityConstraint>,
    )
        requires
            bodies.wf(),
            forall|k: int|
                0 <= k < 4 ==> (joint_ids[k] as int) < joints@.len() && bodies.is_live(
                    joints@[joint_ids[k] as int].weight.body1,
                ) && bodies.is_live(joints@[joint_ids[k] as int].weight.body2),
        ensures
            final(out)@ == old(out)@ + wide_joint_constraints_upto_s(
                *params,
                joint_ids,
                joints@,
                *bodies,
                6,
            ).map_values(
                |w: WideJointVelocityConstraint| AnyJointVelocityConstraint::JointConstraintSimd(w),
            ),
    {
        let mask = joints[joint_ids[0]].weight.data.locked_axes;
        let mut i: usize = 0;
        while i < 6
            invariant
                i <= 6,
                bodies.wf(),
                mask == joints@[joint_ids[0] as int].weight.data.locked_axes,
                forall|k: int|
                    0 <= k < 4 ==> (joint_ids[k] as int) < joints@.len() && bodies.is_live(
                        joints@[joint_ids[k] as int].weight.body1,
                    ) && bodies.is_live(joints@[joint_ids[k] as int].weight.body2),
                out@ == old(out)@ + wide_joint_constraints_upto_s(
                    *params,
                    joint_ids,
                    joints@,
                    *bodies,
                    i as int,
                ).map_values(
                    |w: WideJointVelocityConstraint| AnyJointVelocityConstraint::JointConstraintSimd(
                        w,
                    ),
                ),
            decreases 6 - i,
        {
            if crate::joint::axis_bit(mask, i) {
                let l0 = Self::wide_lane(params, joint_ids, joints, bodies, 0, i);
                let l1 = Self::wide_lane(params, joint_ids, joints, bodies, 1, i);
                let l2 = Self::wide_lane(params, joint_ids, joints, bodies, 2, i);
                let l3 = Self::wide_lane(params, joint_ids, joints, bodies, 3, i);
                let w = WideJointVelocityConstraint { lanes: [l0, l1, l2, l3] };
                proof {
                    assert(w.lanes =~= [
                        wide_lane_s(*params, joint_ids, joints@, *bodies, 0, i as int),
                        wide_lane_s(*params, joint_ids, joints@, *bodies, 1, i as int),
                        wide_lane_s(*params, joint_ids, joints@, *bodies, 2, i as int),
                        wide_lane_s(*params, joint_ids, joints@, *bodies, 3, i as int),
                    ]);
                    assert(wide_joint_constraints_upto_s(
                        *params,
                        joint_ids,
                        joints@,
                        *bodies,
                        i + 1,
                    ) == wide_joint_constraints_upto_s(
                        *params,
                        joint_ids,
                        joints@,
                        *bodies,
                        i as int,
                    ).push(w));
                }
                out.push(AnyJointVelocityConstraint::JointConstraintSimd(w));
                proof {
                    assert(out@ =~= old(out)@ + wide_joint_constraints_upto_s(
                        *params,
                        joint_ids,
                        joints@,
                        *bodies,
                        i + 1,
                    ).map_values(
                        |w: WideJointVelocityConstraint| AnyJointVelocityConstraint::JointConstraintSimd(
                            w,
                        ),
                    ));
                }
            }
            i += 1;
        }
    }

    fn wide_lane(
        params: &IntegrationParameters,
        joint_ids: [usize; 4],
        joints: &Vec<JointGraphEdge>,
        bodies: &RigidBodySet,
        k: usize,
        i: usize,
    ) -> (c: JointVelocityConstraint)
        requires
            bodies.wf(),
            k < 4,
            i < 6,
            (joint_ids[k as int] as int) < joints@.len(),
            bodies.is_live(joints@[joint_ids[k as int] as int].weight.body1),
            bodies.is_live(joints@[joint_ids[k as int] as int].weight.body2),
        ensures
            c == wide_lane_s(*params, joint_ids, joints@, *bodies, k as int, i as int),
    {
        proof {
            reveal(wide_lane_s);
        }
        let j = joints[joint_ids[k]].weight;
        let rb1 = bodies.get(j.body1).unwrap();
        let rb2 = bodies.get(j.body2).unwrap();
        let f1 = rb1.pos.position.mul(j.data.local_frame1);
        let f2 = rb2.pos.position.mul(j.data.local_frame2);
        let b1 = SolverBody::from_body(rb1);
        let b2 = SolverBody::from_body(rb2);
        crate::assembler::dof_constraint(params, joint_ids[k], &b1, &b2, &f1, &f2, j.impulses[i], i)
    }

    /// Assembles the wide ground velocity rows of four joints grouped in
    /// lanes, each with one non-dynamic side: one wide equality row per
    /// axis locked in the first lane's mask, each lane swapped so its
    /// dynamic body is the corrected one.
    #[verifier::rlimit(100)]
    pub fn from_wide_joint_ground(
        params: &IntegrationParameters,
        joint_ids: [usize; 4],
        joints: &Vec<JointGraphEdge>,
        bodies: &RigidBodySet,
        out: &mut Vec<AnyJointVelocityConstraint>,
    )
        requires
            bodies.wf(),
            forall|k: int|
                0 <= k < 4 ==> (joint_ids[k] as int) < joints@.len() && bodies.is_live(
                    joints@[joint_ids[k] as int].weight.body1,
                ) && bodies.is_live(joints@[joint_ids[k] as int].weight.body2),
        ensures
            final(out)@ == old(out)@ + wide_ground_constraints_upto_s(
                *params,
                joint_ids,
                joints@,
                *bodies,
                6,
            ).map_values(
                |w: WideJointVelocityGroundConstraint| AnyJointVelocityConstraint::JointGroundConstraintSimd(
                    w,
                ),
            ),
    {
        let mask = joints[joint_ids[0]].weight.data.locked_axes;
        let mut i: usize = 0;
        while i < 6
            invariant
                i <= 6,
                bodies.wf(),
                mask == joints@[joint_ids[0] as int].weight.data.locked_axes,
                forall|k: int|
                    0 <= k < 4 ==> (joint_ids[k] as int) < joints@.len() && bodies.is_live(
                        joints@[joint_ids[k] as int].weight.body1,
                    ) && bodies.is_live(joints@[joint_ids[k] as int].weight.body2),
                out@ == old(out)@ + wide_ground_constraints_upto_s(
                    *params,
                    joint_ids,
                    joints@,
                    *bodies,
                    i as int,
                ).map_values(
                    |w: WideJointVelocityGroundConstraint| AnyJointVelocityConstraint::JointGroundConstraintSimd(
                        w,
                    ),
                ),
            decreases 6 - i,
        {
            if crate::joint::axis_bit(mask, i) {
                let l0 = Self::wide_ground_lane(params, joint_ids, joints, bodies, 0, i);
                let l1 = Self::wide_ground_lane(params, joint_ids, joints, bodies, 1, i);
                let l2 = Self::wide_ground_lane(params, joint_ids, joints, bodies, 2, i);
                let l3 = Self::wide_ground_lane(params, joint_ids, joints, bodies, 3, i);
                let w = WideJointVelocityGroundConstraint { lanes: [l0, l1, l2, l3] };
                proof {
                    assert(w.lanes =~= [
                        wide_ground_lane_s(*params, joint_ids, joints@, *bodies, 0, i as int),
                        wide_ground_lane_s(*params, joint_ids, joints@, *bodies, 1, i as int),
                        wide_ground_lane_s(*params, joint_ids, joints@, *bodies, 2, i as int),
                        wide_ground_lane_s(*params, joint_ids, joints@, *bodies, 3, i as int),
                    ]);
                    assert(wide_ground_constraints_upto_s(
                        *params,
                        joint_ids,
                        joints@,
                        *bodies,
                        i + 1,
                    ) == wide_ground_constraints_upto_s(
                        *params,
                        joint_ids,
                        joints@,
                        *bodies,
                        i as int,
                    ).push(w));
                }
                out.push(AnyJointVelocityConstraint::JointGroundConstraintSimd(w));
                proof {
                    assert(out@ =~= old(out)@ + wide_ground_constraints_upto_s(
                        *params,
                        joint_ids,
                        joints@,
                        *bodies,
                        i + 1,
                    ).map_values(
                        |w: WideJointVelocityGroundConstraint| AnyJointVelocityConstraint::JointGroundConstraintSimd(
                            w,
                        ),
                    ));
                }
            }
            i += 1;
        }
    }

    fn wide_ground_lane(
        params: &IntegrationParameters,
        joint_ids: [usize; 4],
        joints: &Vec<JointGraphEdge>,
        bodies: &RigidBodySet,
        k: usize,
        i: usize,
    ) -> (c: JointVelocityGroundConstraint)
        requires
            bodies.wf(),
            k < 4,
            i < 6,
            (joint_ids[k as int] as int) < joints@.len(),
            bodies.is_live(joints@[joint_ids[k as int] as int].weight.body1),
            bodies.is_live(joints@[joint_ids[k as int] as int].weight.body2),
        ensures
            c == wide_ground_lane_s(*params, joint_ids, joints@, *bodies, k as int, i as int),
    {
        proof {
            reveal(wide_ground_lane_s);
        }
        let j = joints[joint_ids[k]].weight;
        let status2 = bodies.get(j.body2).unwrap().body_type;
        let flipped = !status2.is_dynamic();
        let (h1, h2, lf1, lf2) = if flipped {
            (j.body2, j.body1, j.data.local_frame2, j.data.local_frame1)
        } else {
            (j.body1, j.body2, j.data.local_frame1, j.data.local_frame2)
        };
        let rb1 = bodies.get(h1).unwrap();
        let rb2 = bodies.get(h2).unwrap();
        let f1 = rb1.pos.position.mul(lf1);
        let f2 = rb2.pos.position.mul(lf2);
        let b1 = SolverBody::from_body(rb1);
        let b2 = SolverBody::from_body(rb2);
        crate::assembler::dof_ground_constraint(
            params,
            joint_ids[k],
            &b1,
            &b2,
            &f1,
            &f2,
            j.impulses[i],
            i,
        )
    }

    /// One projected Gauss-Seidel update of this constraint, dispatched on
    /// its variant: rigid rows read and write the per-body delta
    /// velocities, generic rows the generic lambda vector through the
    /// shared Jacobian buffer.
    #[verifier::rlimit(40)]
    pub fn solve(
        &mut self,
        jacobians: &Vec<i64>,
        mj_lambdas: &mut Vec<DeltaVel>,
        generic_mj_lambdas: &mut Vec<i64>,
    )
        requires
            any_wf(
                *old(self),
                jacobians@.len() as int,
                old(mj_lambdas)@.len() as int,
                old(generic_mj_lambdas)@.len() as int,
            ),
        ensures
            final(mj_lambdas)@.len() == old(mj_lambdas)@.len(),
            final(generic_mj_lambdas)@.len() == old(generic_mj_lambdas)@.len(),
            any_wf(
                *final(self),
                jacobians@.len() as int,
                old(mj_lambdas)@.len() as int,
                old(generic_mj_lambdas)@.len() as int,
            ),
            (*final(self), final(mj_lambdas)@, final(generic_mj_lambdas)@) == any_solve_s(
                *old(self),
                jacobians@,
                old(mj_lambdas)@,
                old(generic_mj_lambdas)@,
            ),
    {
        proof {
            reveal(any_solve_s);
        }
        match self {
            AnyJointVelocityConstraint::JointConstraint(c) => c.solve(mj_lambdas),
            AnyJointVelocityConstraint::JointGroundConstraint(c) => c.solve(mj_lambdas),
            AnyJointVelocityConstraint::JointConstraintSimd(w) => w.solve(mj_lambdas),
            AnyJointVelocityConstraint::JointGroundConstraintSimd(w) => w.solve(mj_lambdas),
            AnyJointVelocityConstraint::JointGenericConstraint(c) => c.solve(
                jacobians,
                mj_lambdas,
                generic_mj_lambdas,
            ),
            AnyJointVelocityConstraint::JointGenericGroundConstraint(c) => c.solve(
                jacobians,
                generic_mj_lambdas,
            ),
            AnyJointVelocityConstraint::Empty => {
                proof {
                    assert(false);
                }
            },
        }
    }

    /// Drops the positional bias from the right-hand side of every row of
    /// this constraint, leaving the pure velocity target.
    pub fn remove_bias_from_rhs(&mut self)
        requires
            !(*old(self) is Empty),
        ensures
            match *old(self) {
                AnyJointVelocityConstraint::JointConstraint(c) => *final(self)
                    == AnyJointVelocityConstraint::JointConstraint(
                    JointVelocityConstraint { rhs: c.rhs_wo_bias, ..c },
                ),
                AnyJointVelocityConstraint::JointGroundConstraint(c) => *final(self)
                    == AnyJointVelocityConstraint::JointGroundConstraint(
                    JointVelocityGroundConstraint { rhs: c.rhs_wo_bias, ..c },
                ),
                AnyJointVelocityConstraint::JointConstraintSimd(w) => *final(self)
                    == AnyJointVelocityConstraint::JointConstraintSimd(
                    WideJointVelocityConstraint {
                        lanes: [
                            JointVelocityConstraint { rhs: w.lanes[0].rhs_wo_bias, ..w.lanes[0] },
                            JointVelocityConstraint { rhs: w.lanes[1].rhs_wo_bias, ..w.lanes[1] },
                            JointVelocityConstraint { rhs: w.lanes[2].rhs_wo_bias, ..w.lanes[2] },
                            JointVelocityConstraint { rhs: w.lanes[3].rhs_wo_bias, ..w.lanes[3] },
                        ],
                    },
                ),
                AnyJointVelocityConstraint::JointGroundConstraintSimd(w) => *final(self)
                    == AnyJointVelocityConstraint::JointGroundConstraintSimd(
                    WideJointVelocityGroundConstraint {
                        lanes: [
                            JointVelocityGroundConstraint {
                                rhs: w.lanes[0].rhs_wo_bias,
                                ..w.lanes[0]
                            },
                            JointVelocityGroundConstraint {
                                rhs: w.lanes[1].rhs_wo_bias,
                                ..w.lanes[1]
                            },
                            JointVelocityGroundConstraint {
                                rhs: w.lanes[2].rhs_wo_bias,
                                ..w.lanes[2]
                            },
                            JointVelocityGroundConstraint {
                                rhs: w.lanes[3].rhs_wo_bias,
                                ..w.lanes[3]
                            },
                        ],
                    },
                ),
                AnyJointVelocityConstraint::JointGenericConstraint(c) => *final(self)
                    == AnyJointVelocityConstraint::JointGenericConstraint(
                    crate::generic::JointGenericVelocityConstraint { rhs: c.rhs_wo_bias, ..c },
                ),
                AnyJointVelocityConstraint::JointGenericGroundConstraint(c) => *final(self)
                    == AnyJointVelocityConstraint::JointGenericGroundConstraint(
                    JointGenericVelocityGroundConstraint { rhs: c.rhs_wo_bias, ..c },
                ),
                AnyJointVelocityConstraint::Empty => false,
            },
    {
        match self {
            AnyJointVelocityConstraint::JointConstraint(c) => c.remove_bias_from_rhs(),
            AnyJointVelocityConstraint::JointGroundConstraint(c) => c.remove_bias_from_rhs(),
            AnyJointVelocityConstraint::JointConstraintSimd(w) => w.remove_bias_from_rhs(),
            AnyJointVelocityConstraint::JointGroundConstraintSimd(w) => w.remove_bias_from_rhs(),
            AnyJointVelocityConstraint::JointGenericConstraint(c) => c.remove_bias_from_rhs(),
            AnyJointVelocityConstraint::JointGenericGroundConstraint(c) => c.remove_bias_from_rhs(),
            AnyJointVelocityConstraint::Empty => {
                proof {
                    assert(false);
                }
            },
        }
    }

}

/// The exact joint vector after persisting one constraint's impulses, in
/// lane order for wide rows; a generic row owned by a multibody joint and
/// the empty slot change nothing.
pub open spec fn apply_writeback_s(
    c: AnyJointVelocityConstraint,
    joints: Seq<JointGraphEdge>,
) -> Seq<JointGraphEdge> {
    match c {
        AnyJointVelocityConstraint::JointConstraint(cc) => joints.update(
            cc.joint_id as int,
            written_edge_s(joints[cc.joint_id as int], cc.writeback_id, cc.impulse),
        ),
        AnyJointVelocityConstraint::JointGroundConstraint(cc) => joints.update(
            cc.joint_id as int,
            written_edge_s(joints[cc.joint_id as int], cc.writeback_id, cc.impulse),
        ),
        AnyJointVelocityConstraint::JointConstraintSimd(w) => {
            let e0 = joints.update(
                w.lanes[0].joint_id as int,
                written_edge_s(
                    joints[w.lanes[0].joint_id as int],
                    w.lanes[0].writeback_id,
                    w.lanes[0].impulse,
                ),
            );
            let e1 = e0.update(
                w.lanes[1].joint_id as int,
                written_edge_s(
                    e0[w.lanes[1].joint_id as int],
                    w.lanes[1].writeback_id,
                    w.lanes[1].impulse,
                ),
            );
            let e2 = e1.update(
                w.lanes[2].joint_id as int,
                written_edge_s(
                    e1[w.lanes[2].joint_id as int],
                    w.lanes[2].writeback_id,
                    w.lanes[2].impulse,
                ),
            );
            e2.update(
                w.lanes[3].joint_id as int,
                written_edge_s(
                    e2[w.lanes[3].joint_id as int],
                    w.lanes[3].writeback_id,
                    w.lanes[3].impulse,
                ),
            )
        },
        AnyJointVelocityConstraint::JointGroundConstraintSimd(w) => {
            let e0 = joints.update(
                w.lanes[0].joint_id as int,
                written_edge_s(
                    joints[w.lanes[0].joint_id as int],
                    w.lanes[0].writeback_id,
                    w.lanes[0].impulse,
                ),
            );
            let e1 = e0.update(
                w.lanes[1].joint_id as int,
                written_edge_s(
                    e0[w.lanes[1].joint_id as int],
                    w.lanes[1].writeback_id,
                    w.lanes[1].impulse,
                ),
            );
            let e2 = e1.update(
                w.lanes[2].joint_id as int,
                written_edge_s(
                    e1[w.lanes[2].joint_id as int],
                    w.lanes[2].writeback_id,
                    w.lanes[2].impulse,
                ),
            );
            e2.update(
                w.lanes[3].joint_id as int,
                written_edge_s(
                    e2[w.lanes[3].joint_id as int],
                    w.lanes[3].writeback_id,
                    w.lanes[3].impulse,
                ),
            )
        },
        AnyJointVelocityConstraint::JointGenericConstraint(cc) => if cc.joint_id == usize::MAX {
            joints
        } else {
            joints.update(
                cc.joint_id as int,
                written_edge_s(joints[cc.joint_id as int], cc.writeback_id, cc.impulse),
            )
        },
        AnyJointVelocityConstraint::JointGenericGroundConstraint(cc) => if cc.joint_id
            == usize::MAX {
            joints
        } else {
            joints.update(
                cc.joint_id as int,
                written_edge_s(joints[cc.joint_id as int], cc.writeback_id, cc.impulse),
            )
        },
        AnyJointVelocityConstraint::Empty => joints,
    }
}

impl AnyJointVelocityConstraint {
    /// Whether the writeback targets of this constraint fit a joint vector
    /// of length `n`.
    pub open spec fn writeback_ok(&self, n: int) -> bool {
        match *self {
            AnyJointVelocityConstraint::JointConstraint(c) => (c.joint_id as int) < n
                && wb_in_range(c.writeback_id),
            AnyJointVelocityConstraint::JointGroundConstraint(c) => (c.joint_id as int) < n
                && wb_in_range(c.writeback_id),
            AnyJointVelocityConstraint::JointConstraintSimd(w) => forall|k: int|
                0 <= k < 4 ==> (w.lanes[k].joint_id as int) < n && wb_in_range(
                    w.lanes[k].writeback_id,
                ),
            AnyJointVelocityConstraint::JointGroundConstraintSimd(w) => forall|k: int|
                0 <= k < 4 ==> (w.lanes[k].joint_id as int) < n && wb_in_range(
                    w.lanes[k].writeback_id,
                ),
            AnyJointVelocityConstraint::JointGenericConstraint(c) => (c.joint_id == usize::MAX || (
            c.joint_id as int) < n) && (c.joint_id != usize::MAX ==> wb_in_range(c.writeback_id)),
            AnyJointVelocityConstraint::JointGenericGroundConstraint(c) => (c.joint_id
                == usize::MAX || (c.joint_id as int) < n) && (c.joint_id != usize::MAX
                ==> wb_in_range(c.writeback_id)),
            AnyJointVelocityConstraint::Empty => false,
        }
    }

    /// Persists the accumulated impulses of this constraint into the
    /// impulse caches of the joints they came from: the warm start of the
    /// next step.
    pub fn writeback_impulses(&self, joints_all: &mut Vec<JointGraphEdge>)
        requires
            self.writeback_ok(old(joints_all)@.len() as int),
        ensures
            final(joints_all)@.len() == old(joints_all)@.len(),
            final(joints_all)@ == apply_writeback_s(*self, old(joints_all)@),
    {
        match self {
            AnyJointVelocityConstraint::JointConstraint(c) => c.writeback_impulses(joints_all),
            AnyJointVelocityConstraint::JointGroundConstraint(c) => c.writeback_impulses(
                joints_all,
            ),
            AnyJointVelocityConstraint::JointConstraintSimd(w) => w.writeback_impulses(joints_all),
            AnyJointVelocityConstraint::JointGroundConstraintSimd(w) => w.writeback_impulses(
                joints_all,
            ),
            AnyJointVelocityConstraint::JointGenericConstraint(c) => c.writeback_impulses(
                joints_all,
            ),
            AnyJointVelocityConstraint::JointGenericGroundConstraint(c) => c.writeback_impulses(
                joints_all,
            ),
            AnyJointVelocityConstraint::Empty => {
                proof {
                    assert(false);
                }
            },
        }
    }
}

} // verus!
