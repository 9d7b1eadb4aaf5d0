//! The island solver pipeline and its work-claim bookkeeping. The phases of
//! one island — force integration, constraint fill, the projected
//! Gauss-Seidel sweeps, impulse writeback and position integration — are
//! driven through a per-island context of claim counters; a worker claims a
//! batch of items by advancing a phase's index stream and reports completion
//! on the phase's count, and a phase boundary is passed only once the count
//! has reached the phase's total.

use vstd::prelude::*;

use crate::body::{RigidBodyHandle, RigidBodySet, RigidBodyVelocity};
use crate::constraint::DeltaVel;
use crate::joint_constraint::{any_solve_s, any_wf, AnyJointVelocityConstraint};
use crate::params::IntegrationParameters;

verus! {

/// Per-island coordination state: one index stream and one completed count
/// per phase. In the cooperative single-threaded mode these are plain
/// counters claimed in order; a parallel driver replays exactly the same
/// claims through atomic counters it owns.
pub struct ThreadContext {
    /// Number of items claimed at once.
    pub batch_size: usize,
    /// Claim cursor of the contact-constraint initialization phase.
    pub constraint_initialization_index: usize,
    /// Completed count of the contact-constraint initialization phase.
    pub num_initialized_constraints: usize,
    /// Claim cursor of the joint-constraint initialization phase.
    pub joint_constraint_initialization_index: usize,
    /// Completed count of the joint-constraint initialization phase.
    pub num_initialized_joint_constraints: usize,
    /// Claim cursor of the solve phase.
    pub solve_interaction_index: usize,
    /// Completed count of the solve phase.
    pub num_solved_interactions: usize,
    /// Claim cursor of the contact-impulse writeback phase.
    pub impulse_writeback_index: usize,
    /// Claim cursor of the joint-impulse writeback phase.
    pub joint_writeback_index: usize,
    /// Claim cursor of the position-integration phase.
    pub body_integration_index: usize,
    /// Claim cursor of the force-integration phase.
    pub body_force_integration_index: usize,
    /// Completed count of the force-integration phase.
    pub num_force_integrated_bodies: usize,
    /// Completed count of the position-integration phase.
    pub num_integrated_bodies: usize,
}

impl ThreadContext {
    /// A fresh context: every phase's cursor and count at zero.
    pub fn new(batch_size: usize) -> (r: ThreadContext)
        ensures
            r.batch_size == batch_size,
            r.constraint_initialization_index == 0,
            r.num_initialized_constraints == 0,
            r.joint_constraint_initialization_index == 0,
            r.num_initialized_joint_constraints == 0,
            r.solve_interaction_index == 0,
            r.num_solved_interactions == 0,
            r.impulse_writeback_index == 0,
            r.joint_writeback_index == 0,
            r.body_integration_index == 0,
            r.body_force_integration_index == 0,
            r.num_force_integrated_bodies == 0,
            r.num_integrated_bodies == 0,
    {
        ThreadContext {
            batch_size,
            constraint_initialization_index: 0,
            num_initialized_constraints: 0,
            joint_constraint_initialization_index: 0,
            num_initialized_joint_constraints: 0,
            solve_interaction_index: 0,
            num_solved_interactions: 0,
            impulse_writeback_index: 0,
            joint_writeback_index: 0,
            body_integration_index: 0,
            body_force_integration_index: 0,
            num_force_integrated_bodies: 0,
            num_integrated_bodies: 0,
        }
    }

    /// Blocks a phase boundary until the phase's completed count has
    /// reached `target`. In the cooperative mode a phase is complete when
    /// its boundary is reached, which the contract records; a parallel
    /// driver spins on its own count before calling into the next phase.
    pub fn lock_until_ge(val: &usize, target: usize)
        requires
            *val >= target,
    {
    }

    /// Claims the next batch of a phase: advances the phase's index stream
    /// by the batch size and returns the claimed range, clipped to `len`.
    pub fn claim_batch(index_stream: &mut usize, batch_size: usize, len: usize) -> (r: (
        usize,
        usize,
    ))
        requires
            *old(index_stream) + batch_size <= usize::MAX,
        ensures
            r.0 == *old(index_stream),
            *final(index_stream) == *old(index_stream) + batch_size,
            r.1 as int == if *old(index_stream) + batch_size <= len {
                *old(index_stream) + batch_size
            } else {
                len as int
            },
    {
        let start = *index_stream;
        *index_stream = start + batch_size;
        let end = if start + batch_size <= len {
            start + batch_size
        } else {
            len
        };
        (start, end)
    }
}

/// Whether a constraint's slot indices and bounds fit the solver buffers.
pub fn any_wf_check(
    c: &AnyJointVelocityConstraint,
    jlen: usize,
    mlen: usize,
    glen: usize,
) -> (r: bool)
    ensures
        r == any_wf(*c, jlen as int, mlen as int, glen as int),
{
    match c {
        AnyJointVelocityConstraint::JointConstraint(c) => c.mj_lambda1 < mlen && c.mj_lambda2
            < mlen && c.impulse_bounds[0] <= c.impulse_bounds[1],
        AnyJointVelocityConstraint::JointGroundConstraint(c) => c.mj_lambda2 < mlen
            && c.impulse_bounds[0] <= c.impulse_bounds[1],
        AnyJointVelocityConstraint::JointGenericConstraint(c) => c.mj_lambda1 < mlen && c.j_id2
            <= jlen && c.ndofs2 <= (jlen - c.j_id2) / 2 && c.mj_lambda2 <= glen && c.ndofs2
            <= glen - c.mj_lambda2 && c.impulse_bounds[0] <= c.impulse_bounds[1],
        AnyJointVelocityConstraint::JointGenericGroundConstraint(c) => c.j_id2 <= jlen && c.ndofs2
            <= (jlen - c.j_id2) / 2 && c.mj_lambda2 <= glen && c.ndofs2 <= glen - c.mj_lambda2
            && c.impulse_bounds[0] <= c.impulse_bounds[1],
        AnyJointVelocityConstraint::JointConstraintSimd(w) => w.lanes[0].mj_lambda1 < mlen
            && w.lanes[0].mj_lambda2 < mlen && w.lanes[0].impulse_bounds[0]
            <= w.lanes[0].impulse_bounds[1] && w.lanes[1].mj_lambda1 < mlen
            && w.lanes[1].mj_lambda2 < mlen && w.lanes[1].impulse_bounds[0]
            <= w.lanes[1].impulse_bounds[1] && w.lanes[2].mj_lambda1 < mlen
            && w.lanes[2].mj_lambda2 < mlen && w.lanes[2].impulse_bounds[0]
            <= w.lanes[2].impulse_bounds[1] && w.lanes[3].mj_lambda1 < mlen
            && w.lanes[3].mj_lambda2 < mlen && w.lanes[3].impulse_bounds[0]
            <= w.lanes[3].impulse_bounds[1],
        AnyJointVelocityConstraint::JointGroundConstraintSimd(w) => w.lanes[0].mj_lambda2 < mlen
            && w.lanes[0].impulse_bounds[0] <= w.lanes[0].impulse_bounds[1]
            && w.lanes[1].mj_lambda2 < mlen && w.lanes[1].impulse_bounds[0]
            <= w.lanes[1].impulse_bounds[1] && w.lanes[2].mj_lambda2 < mlen
            && w.lanes[2].impulse_bounds[0] <= w.lanes[2].impulse_bounds[1]
            && w.lanes[3].mj_lambda2 < mlen && w.lanes[3].impulse_bounds[0]
            <= w.lanes[3].impulse_bounds[1],
        AnyJointVelocityConstraint::Empty => false,
    }
}

/// The exact result of one guarded Gauss-Seidel update: a constraint whose
/// indices do not fit the buffers is skipped and changes nothing.
pub open spec fn guarded_solve_s(
    c: AnyJointVelocityConstraint,
    jac: Seq<i64>,
    m: Seq<DeltaVel>,
    g: Seq<i64>,
) -> (AnyJointVelocityConstraint, Seq<DeltaVel>, Seq<i64>) {
    if any_wf(c, jac.len() as int, m.len() as int, g.len() as int) {
        any_solve_s(c, jac, m, g)
    } else {
        (c, m, g)
    }
}

/// The exact state of one Gauss-Seidel sweep after visiting the first `k`
/// constraints in assembly order.
pub open spec fn sweep_upto_s(
    cs: Seq<AnyJointVelocityConstraint>,
    jac: Seq<i64>,
    m: Seq<DeltaVel>,
    g: Seq<i64>,
    k: int,
) -> (Seq<AnyJointVelocityConstraint>, Seq<DeltaVel>, Seq<i64>)
    decreases k,
{
    if k <= 0 {
        (cs, m, g)
    } else {
        let prev = sweep_upto_s(cs, jac, m, g, k - 1);
        let r = guarded_solve_s(prev.0[k - 1], jac, prev.1, prev.2);
        (prev.0.update(k - 1, r.0), r.1, r.2)
    }
}

/// The exact state after `iters` full Gauss-Seidel sweeps.
pub open spec fn sweeps_s(
    cs: Seq<AnyJointVelocityConstraint>,
    jac: Seq<i64>,
    m: Seq<DeltaVel>,
    g: Seq<i64>,
    iters: int,
) -> (Seq<AnyJointVelocityConstraint>, Seq<DeltaVel>, Seq<i64>)
    decreases iters,
{
    if iters <= 0 {
        (cs, m, g)
    } else {
        let prev = sweeps_s(cs, jac, m, g, iters - 1);
        sweep_upto_s(prev.0, jac, prev.1, prev.2, cs.len() as int)
    }
}

/// One full Gauss-Seidel sweep over the constraints, in assembly order.
/// Constraints whose indices do not fit the buffers are skipped, so the
/// sweep never touches memory outside the island's own vectors.
pub fn sweep_constraints(
    constraints: &mut Vec<AnyJointVelocityConstraint>,
    jacobians: &Vec<i64>,
    mj_lambdas: &mut Vec<DeltaVel>,
    generic_mj_lambdas: &mut Vec<i64>,
)
    ensures
        (final(constraints)@, final(mj_lambdas)@, final(generic_mj_lambdas)@) == sweep_upto_s(
            old(constraints)@,
            jacobians@,
            old(mj_lambdas)@,
            old(generic_mj_lambdas)@,
            old(constraints)@.len() as int,
        ),
        final(constraints)@.len() == old(constraints)@.len(),
        final(mj_lambdas)@.len() == old(mj_lambdas)@.len(),
        final(generic_mj_lambdas)@.len() == old(generic_mj_lambdas)@.len(),
{
    let n = constraints.len();
    let jlen = jacobians.len();
    let mut k: usize = 0;
    while k < n
        invariant
            k <= n,
            n == constraints@.len(),
            jlen == jacobians@.len(),
            mj_lambdas@.len() == old(mj_lambdas)@.len(),
            generic_mj_lambdas@.len() == old(generic_mj_lambdas)@.len(),
            (constraints@, mj_lambdas@, generic_mj_lambdas@) == sweep_upto_s(
                old(constraints)@,
                jacobians@,
                old(mj_lambdas)@,
                old(generic_mj_lambdas)@,
                k as int,
            ),
        decreases n - k,
    {
        let mlen = mj_lambdas.len();
        let glen = generic_mj_lambdas.len();
        let mut c = constraints[k];
        if any_wf_check(&c, jlen, mlen, glen) {
            c.solve(jacobians, mj_lambdas, generic_mj_lambdas);
        }
        constraints.set(k, c);
        k += 1;
    }
}

/// Whether a body index appears in an island's handle list.
pub open spec fn in_island_s(island: Seq<RigidBodyHandle>, index: u32) -> bool {
    exists|k: int| 0 <= k < island.len() && (#[trigger] island[k]).index == index
}

/// Whether a handle itself appears in an island's handle list.
pub open spec fn handle_in_island_s(island: Seq<RigidBodyHandle>, h: RigidBodyHandle) -> bool {
    exists|k: int| 0 <= k < island.len() && island[k] == h
}

/// The delta-velocity vector after the force pre-integration of the first
/// `k` island entries: one zeroed slot per entry, then each live dynamic
/// body whose active-set slot is in range accumulates its torque through
/// the square-root inverse inertia and its force through the inverse mass,
/// both scaled by the timestep.
pub open spec fn force_lambdas_upto_s(
    bodies: RigidBodySet,
    island: Seq<RigidBodyHandle>,
    dt: int,
    k: int,
) -> Seq<DeltaVel>
    decreases k,
{
    if k <= 0 {
        Seq::new(
            island.len(),
            |q: int| DeltaVel {
                linear: crate::vect::Vec3 { x: 0i64, y: 0i64, z: 0i64 },
                angular: crate::vect::Vec3 { x: 0i64, y: 0i64, z: 0i64 },
            },
        )
    } else {
        let prev = force_lambdas_upto_s(bodies, island, dt, k - 1);
        let h = island[k - 1];
        if bodies.is_live(h) {
            let rb = bodies.body_at(h);
            let off = rb.ids.active_set_offset as int;
            if off < prev.len() && rb.body_type == crate::body::RigidBodyType::Dynamic {
                prev.update(
                    off,
                    DeltaVel {
                        angular: crate::vect::v3_add_s(
                            prev[off].angular,
                            crate::vect::v3_scale_s(
                                crate::sdp::sdp_transform_s(
                                    rb.mprops.effective_world_inv_inertia_sqrt,
                                    rb.forces.torque,
                                ),
                                dt,
                            ),
                        ),
                        linear: crate::vect::v3_add_s(
                            prev[off].linear,
                            crate::vect::v3_scale_s(
                                crate::vect::v3_comp_mul_s(
                                    rb.forces.force,
                                    rb.mprops.effective_inv_mass,
                                ),
                                dt,
                            ),
                        ),
                    },
                )
            } else {
                prev
            }
        } else {
            prev
        }
    }
}

/// The constraints, Jacobian buffer and cursor after assembling the first
/// `q` joints of the island's list: a missing index or a stale handle is
/// skipped, as is any joint once the cursor or the buffer has outgrown its
/// cap; a joint between two fixed non-multibody bodies emits nothing; two
/// dynamic rigid sides go through the rigid-rigid entry point, anything
/// else through the ground entry point.
pub open spec fn assembled_upto_s(
    p: IntegrationParameters,
    bodies: RigidBodySet,
    mbs: crate::multibody::MultibodyJointSet,
    joints: Seq<crate::joint::JointGraphEdge>,
    idx: Seq<usize>,
    jac: Seq<i64>,
    j_id: int,
    q: int,
) -> (Seq<AnyJointVelocityConstraint>, Seq<i64>, int)
    decreases q,
{
    if q <= 0 {
        (Seq::empty(), jac, j_id)
    } else {
        let prev = assembled_upto_s(p, bodies, mbs, joints, idx, jac, j_id, q - 1);
        let jid = idx[q - 1];
        if (jid as int) < joints.len() {
            let j = joints[jid as int].weight;
            if bodies.is_live(j.body1) && bodies.is_live(j.body2) && prev.2 <= 0x100_0000
                && prev.1.len() <= 0x200_0000 {
                let dyn1 = bodies.body_at(j.body1).body_type
                    == crate::body::RigidBodyType::Dynamic;
                let dyn2 = bodies.body_at(j.body2).body_type
                    == crate::body::RigidBodyType::Dynamic;
                let link1 = crate::multibody::link_of_s(mbs, j.body1) is Some;
                let link2 = crate::multibody::link_of_s(mbs, j.body2) is Some;
                if !dyn1 && !dyn2 && !link1 && !link2 {
                    prev
                } else if dyn1 && dyn2 {
                    let r = crate::joint_constraint::from_joint_result_s(
                        p,
                        jid,
                        j,
                        bodies,
                        mbs,
                        prev.1,
                        prev.2,
                    );
                    (prev.0 + r.0, r.1, r.2)
                } else {
                    let r = crate::joint_constraint::from_joint_ground_result_s(
                        p,
                        jid,
                        j,
                        bodies,
                        mbs,
                        prev.1,
                        prev.2,
                    );
                    (prev.0 + r.0, r.1, r.2)
                }
            } else {
                prev
            }
        } else {
            prev
        }
    }
}

/// One constraint with its positional bias dropped; the empty slot is left
/// alone.
pub open spec fn any_remove_bias_s(c: AnyJointVelocityConstraint) -> AnyJointVelocityConstraint {
    match c {
        AnyJointVelocityConstraint::JointConstraint(cc) => AnyJointVelocityConstraint::JointConstraint(
            crate::constraint::JointVelocityConstraint { rhs: cc.rhs_wo_bias, ..cc },
        ),
        AnyJointVelocityConstraint::JointGroundConstraint(cc) => AnyJointVelocityConstraint::JointGroundConstraint(
            crate::constraint::JointVelocityGroundConstraint { rhs: cc.rhs_wo_bias, ..cc },
        ),
        AnyJointVelocityConstraint::JointConstraintSimd(w) => AnyJointVelocityConstraint::JointConstraintSimd(
            crate::joint_constraint::WideJointVelocityConstraint {
                lanes: [
                    crate::constraint::JointVelocityConstraint {
                        rhs: w.lanes[0].rhs_wo_bias,
                        ..w.lanes[0]
                    },
                    crate::constraint::JointVelocityConstraint {
                        rhs: w.lanes[1].rhs_wo_bias,
                        ..w.lanes[1]
                    },
                    crate::constraint::JointVelocityConstraint {
                        rhs: w.lanes[2].rhs_wo_bias,
                        ..w.lanes[2]
                    },
                    crate::constraint::JointVelocityConstraint {
                        rhs: w.lanes[3].rhs_wo_bias,
                        ..w.lanes[3]
                    },
                ],
            },
        ),
        AnyJointVelocityConstraint::JointGroundConstraintSimd(w) => AnyJointVelocityConstraint::JointGroundConstraintSimd(
            crate::joint_constraint::WideJointVelocityGroundConstraint {
                lanes: [
                    crate::constraint::JointVelocityGroundConstraint {
                        rhs: w.lanes[0].rhs_wo_bias,
                        ..w.lanes[0]
                    },
                    crate::constraint::JointVelocityGroundConstraint {
                        rhs: w.lanes[1].rhs_wo_bias,
                        ..w.lanes[1]
                    },
                    crate::constraint::JointVelocityGroundConstraint {
                        rhs: w.lanes[2].rhs_wo_bias,
                        ..w.lanes[2]
                    },
                    crate::constraint::JointVelocityGroundConstraint {
                        rhs: w.lanes[3].rhs_wo_bias,
                        ..w.lanes[3]
                    },
                ],
            },
        ),
        AnyJointVelocityConstraint::JointGenericConstraint(cc) => AnyJointVelocityConstraint::JointGenericConstraint(
            crate::generic::JointGenericVelocityConstraint { rhs: cc.rhs_wo_bias, ..cc },
        ),
        AnyJointVelocityConstraint::JointGenericGroundConstraint(cc) => AnyJointVelocityConstraint::JointGenericGroundConstraint(
            crate::generic::JointGenericVelocityGroundConstraint { rhs: cc.rhs_wo_bias, ..cc },
        ),
        AnyJointVelocityConstraint::Empty => c,
    }
}

/// The exact state after the whole velocity stage: `iters` warm-started
/// sweeps, then the positional bias dropped from every row, then one more
/// sweep free of bias.
pub open spec fn velocity_solve_s(
    cs: Seq<AnyJointVelocityConstraint>,
    jac: Seq<i64>,
    m: Seq<DeltaVel>,
    g: Seq<i64>,
    iters: int,
) -> (Seq<AnyJointVelocityConstraint>, Seq<DeltaVel>, Seq<i64>) {
    let a = sweeps_s(cs, jac, m, g, iters);
    let b = a.0.map_values(|c: AnyJointVelocityConstraint| any_remove_bias_s(c));
    sweep_upto_s(b, jac, a.1, a.2, b.len() as int)
}

/// The joint vector after persisting the first `w` constraints' impulses;
/// a constraint whose targets do not fit the vector is skipped.
pub open spec fn writeback_upto_s(
    cs: Seq<AnyJointVelocityConstraint>,
    joints: Seq<crate::joint::JointGraphEdge>,
    w: int,
) -> Seq<crate::joint::JointGraphEdge>
    decreases w,
{
    if w <= 0 {
        joints
    } else {
        let prev = writeback_upto_s(cs, joints, w - 1);
        let c = cs[w - 1];
        if c.writeback_ok(prev.len() as int) {
            crate::joint_constraint::apply_writeback_s(c, prev)
        } else {
            prev
        }
    }
}

/// One island body after the integration phase: a dynamic body with a slot
/// in range takes the swept delta velocities (the angular part mapped back
/// through the square-root inverse inertia), is damped, and has its
/// predicted placement integrated about the world centre of mass; its
/// current placement is not modified, and any other body is untouched.
#[verifier::opaque]
pub open spec fn integrated_island_body_s(
    rb: crate::body::RigidBody,
    lam: Seq<DeltaVel>,
    dt: int,
) -> crate::body::RigidBody {
    let off = rb.ids.active_set_offset as int;
    if rb.body_type == crate::body::RigidBodyType::Dynamic && off < lam.len() {
        let dvels = lam[off];
        let new_vels = RigidBodyVelocity {
            linvel: crate::vect::v3_add_s(rb.vels.linvel, dvels.linear),
            angvel: crate::vect::v3_add_s(
                rb.vels.angvel,
                crate::sdp::sdp_transform_s(
                    rb.mprops.effective_world_inv_inertia_sqrt,
                    dvels.angular,
                ),
            ),
        };
        let damped = crate::body::damped_velocity_s(new_vels, dt, rb.damping);
        crate::body::RigidBody {
            vels: damped,
            pos: crate::body::RigidBodyPosition {
                position: rb.pos.position,
                next_position: crate::body::integrated_position_s(
                    damped,
                    dt,
                    rb.pos.position,
                    rb.mprops.local_com,
                ),
            },
            ..rb
        }
    } else {
        rb
    }
}

/// The island solver: owns the per-island solver state and drives the
/// phases of one island in order — force integration, joint-constraint
/// fill, the warm-started Gauss-Seidel iterations, a bias-free sweep,
/// impulse writeback and position integration.
pub struct ParallelIslandSolver {
    /// Per-body delta velocities, one slot per active body of the island.
    pub mj_lambdas: Vec<DeltaVel>,
    /// The generic lambda vector of the island's multibodies.
    pub generic_mj_lambdas: Vec<i64>,
    /// The shared dense Jacobian buffer of the generic rows.
    pub jacobians: Vec<i64>,
    /// The constraints of the island, in canonical assembly order.
    pub constraints: Vec<AnyJointVelocityConstraint>,
    /// The phase claim counters.
    pub thread: ThreadContext,
}

impl Default for ParallelIslandSolver {
    /// The same fresh solver `new` builds.
    fn default() -> (r: ParallelIslandSolver)
        ensures
            r.mj_lambdas@.len() == 0,
            r.generic_mj_lambdas@.len() == 0,
            r.jacobians@.len() == 0,
            r.constraints@.len() == 0,
            r.thread.batch_size == 8,
    {
        ParallelIslandSolver::new()
    }
}

impl ParallelIslandSolver {
    /// A solver with empty buffers and the default batch size.
    pub fn new() -> (r: ParallelIslandSolver)
        ensures
            r.mj_lambdas@.len() == 0,
            r.generic_mj_lambdas@.len() == 0,
            r.jacobians@.len() == 0,
            r.constraints@.len() == 0,
            r.thread.batch_size == 8,
    {
        ParallelIslandSolver {
            mj_lambdas: Vec::new(),
            generic_mj_lambdas: Vec::new(),
            jacobians: Vec::new(),
            constraints: Vec::new(),
            thread: ThreadContext::new(8),
        }
    }

    /// The number of constraints assembled for the current island.
    pub fn num_constraints(&self) -> (r: usize)
        ensures
            r == self.constraints@.len(),
    {
        self.constraints.len()
    }

    /// Solves one island, exactly as the composed phase functions state:
    /// the delta velocities start from the force pre-integration
    /// (`force_lambdas_upto_s`), the joint rows are assembled in island
    /// order (`assembled_upto_s`; a joint between two non-dynamic,
    /// non-multibody bodies emits no row), the velocity stage runs the
    /// warm-started iterations and the bias-free sweep
    /// (`velocity_solve_s`), the impulses are persisted into the joint
    /// caches (`writeback_upto_s`), and each island body's velocity and
    /// predicted placement are integrated (`integrated_island_body_s`).
    /// Bodies outside the island are untouched.
    #[verifier::rlimit(100)]
    pub fn init_and_solve(
        &mut self,
        params: &IntegrationParameters,
        island: &Vec<RigidBodyHandle>,
        bodies: &mut RigidBodySet,
        joints: &mut Vec<crate::joint::JointGraphEdge>,
        joint_indices: &Vec<usize>,
        multibodies: &crate::multibody::MultibodyJointSet,
    )
        requires
            old(bodies).wf(),
            crate::multibody::multibody_set_wf(*multibodies),
            forall|i: int|
                0 <= i < multibodies.multibodies@.len() ==> (
                #[trigger] multibodies.multibodies@[i]).ndofs <= 0x1000,
            forall|a: int, b: int|
                0 <= a < b < island@.len() ==> island@[a].index != island@[b].index,
        ensures
            final(bodies).wf(),
            final(bodies).slots@.len() == old(bodies).slots@.len(),
            final(bodies).generations == old(bodies).generations,
            final(joints)@.len() == old(joints)@.len(),
            ({
                let m0 = force_lambdas_upto_s(
                    *old(bodies),
                    island@,
                    params.dt as int,
                    island@.len() as int,
                );
                let a = assembled_upto_s(
                    *params,
                    *old(bodies),
                    *multibodies,
                    old(joints)@,
                    joint_indices@,
                    old(self).jacobians@,
                    0,
                    joint_indices@.len() as int,
                );
                let solved = velocity_solve_s(
                    a.0,
                    a.1,
                    m0,
                    old(self).generic_mj_lambdas@,
                    params.max_velocity_iterations as int,
                );
                &&& final(self).constraints@ == solved.0
                &&& final(self).mj_lambdas@ == solved.1
                &&& final(self).generic_mj_lambdas@ == solved.2
                &&& final(self).jacobians@ == a.1
                &&& final(joints)@ == writeback_upto_s(
                    solved.0,
                    old(joints)@,
                    solved.0.len() as int,
                )
                &&& forall|g: RigidBodyHandle|
                    old(bodies).is_live(g) ==> final(bodies).is_live(g)
                        && final(bodies).body_at(g) == (if handle_in_island_s(island@, g) {
                        integrated_island_body_s(
                            old(bodies).body_at(g),
                            solved.1,
                            params.dt as int,
                        )
                    } else {
                        old(bodies).body_at(g)
                    })
            }),
    {
        self.thread = ThreadContext::new(8);
        let ghost m0 = force_lambdas_upto_s(
            *bodies,
            island@,
            params.dt as int,
            island@.len() as int,
        );
        // Initialize the delta velocities with the external accelerations.
        self.mj_lambdas.clear();
        let n_island = island.len();
        let mut k: usize = 0;
        while k < n_island
            invariant
                k <= n_island,
                self.jacobians@ == old(self).jacobians@,
                self.generic_mj_lambdas@ == old(self).generic_mj_lambdas@,
                self.mj_lambdas@.len() == k,
                forall|q: int| 0 <= q < k ==> self.mj_lambdas@[q] == (DeltaVel {
                    linear: crate::vect::Vec3 { x: 0i64, y: 0i64, z: 0i64 },
                    angular: crate::vect::Vec3 { x: 0i64, y: 0i64, z: 0i64 },
                }),
            decreases n_island - k,
        {
            self.mj_lambdas.push(DeltaVel::zero());
            k += 1;
        }
        proof {
            assert(self.mj_lambdas@ =~= force_lambdas_upto_s(
                *bodies,
                island@,
                params.dt as int,
                0,
            ));
        }
        let mut k2: usize = 0;
        while k2 < n_island
            invariant
                k2 <= n_island,
                n_island == island@.len(),
                *bodies == *old(bodies),
                bodies.wf(),
                self.jacobians@ == old(self).jacobians@,
                self.generic_mj_lambdas@ == old(self).generic_mj_lambdas@,
                m0 == force_lambdas_upto_s(
                    *old(bodies),
                    island@,
                    params.dt as int,
                    island@.len() as int,
                ),
                self.mj_lambdas@ == force_lambdas_upto_s(
                    *bodies,
                    island@,
                    params.dt as int,
                    k2 as int,
                ),
            decreases n_island - k2,
        {
            let h = island[k2];
            match bodies.get(h) {
                Some(rb) => {
                    let off = rb.ids.active_set_offset;
                    if off < self.mj_lambdas.len() && rb.body_type.is_dynamic() {
                        let dvel = self.mj_lambdas[off];
                        let new_dvel = DeltaVel {
                            angular: dvel.angular.add(
                                rb.mprops.effective_world_inv_inertia_sqrt.transform_vector(
                                    rb.forces.torque,
                                ).scale(params.dt),
                            ),
                            linear: dvel.linear.add(
                                rb.forces.force.component_mul(rb.mprops.effective_inv_mass).scale(
                                    params.dt,
                                ),
                            ),
                        };
                        self.mj_lambdas.set(off, new_dvel);
                    }
                },
                None => {},
            }
            k2 += 1;
        }
        proof {
            assert(self.mj_lambdas@ == m0);
        }
        ThreadContext::lock_until_ge(&self.thread.num_force_integrated_bodies, 0);
        // Assemble the joint constraints in canonical order.
        self.constraints.clear();
        let ghost jac0 = self.jacobians@;
        let mut j_id: usize = 0;
        let mut q: usize = 0;
        while q < joint_indices.len()
            invariant
                q <= joint_indices@.len(),
                *bodies == *old(bodies),
                bodies.wf(),
                crate::multibody::multibody_set_wf(*multibodies),
                forall|i: int|
                    0 <= i < multibodies.multibodies@.len() ==> (
                    #[trigger] multibodies.multibodies@[i]).ndofs <= 0x1000,
                joints@.len() == old(joints)@.len(),
                joints@ == old(joints)@,
                m0 == force_lambdas_upto_s(
                    *old(bodies),
                    island@,
                    params.dt as int,
                    island@.len() as int,
                ),
                jac0 == old(self).jacobians@,
                self.generic_mj_lambdas@ == old(self).generic_mj_lambdas@,
                self.mj_lambdas@ == m0,
                ({
                    let r = assembled_upto_s(
                        *params,
                        *bodies,
                        *multibodies,
                        joints@,
                        joint_indices@,
                        jac0,
                        0,
                        q as int,
                    );
                    &&& self.constraints@ == r.0
                    &&& self.jacobians@ == r.1
                    &&& j_id as int == r.2
                }),
            decreases joint_indices@.len() - q,
        {
            let jid = joint_indices[q];
            if jid < joints.len() {
                let j = joints[jid].weight;
                let live1 = bodies.get(j.body1).is_some();
                let live2 = bodies.get(j.body2).is_some();
                if live1 && live2 && j_id <= 0x100_0000 && self.jacobians.len() <= 0x200_0000 {
                    let dyn1 = bodies.get(j.body1).unwrap().body_type.is_dynamic();
                    let dyn2 = bodies.get(j.body2).unwrap().body_type.is_dynamic();
                    let link1 = multibodies.rigid_body_link(j.body1).is_some();
                    let link2 = multibodies.rigid_body_link(j.body2).is_some();
                    if !dyn1 && !dyn2 && !link1 && !link2 {
                        // Both sides fixed: the joint constrains nothing and
                        // no row is emitted.
                    } else if dyn1 && dyn2 {
                        AnyJointVelocityConstraint::from_joint(
                            params,
                            jid,
                            &j,
                            bodies,
                            multibodies,
                            &mut j_id,
                            &mut self.jacobians,
                            &mut self.constraints,
                        );
                    } else {
                        AnyJointVelocityConstraint::from_joint_ground(
                            params,
                            jid,
                            &j,
                            bodies,
                            multibodies,
                            &mut j_id,
                            &mut self.jacobians,
                            &mut self.constraints,
                        );
                    }
                }
            }
            q += 1;
        }
        ThreadContext::lock_until_ge(&self.thread.num_initialized_joint_constraints, 0);
        // Velocity iterations, then one sweep free of positional bias.
        let ghost cs0 = self.constraints@;
        let ghost jacv = self.jacobians@;
        let ghost g0 = self.generic_mj_lambdas@;
        let mut it: usize = 0;
        while it < params.max_velocity_iterations
            invariant
                it <= params.max_velocity_iterations,
                m0 == force_lambdas_upto_s(
                    *old(bodies),
                    island@,
                    params.dt as int,
                    island@.len() as int,
                ),
                cs0 == assembled_upto_s(
                    *params,
                    *old(bodies),
                    *multibodies,
                    old(joints)@,
                    joint_indices@,
                    old(self).jacobians@,
                    0,
                    joint_indices@.len() as int,
                ).0,
                jacv == assembled_upto_s(
                    *params,
                    *old(bodies),
                    *multibodies,
                    old(joints)@,
                    joint_indices@,
                    old(self).jacobians@,
                    0,
                    joint_indices@.len() as int,
                ).1,
                g0 == old(self).generic_mj_lambdas@,
                self.jacobians@ == jacv,
                (self.constraints@, self.mj_lambdas@, self.generic_mj_lambdas@) == sweeps_s(
                    cs0,
                    jacv,
                    m0,
                    g0,
                    it as int,
                ),
            decreases params.max_velocity_iterations - it,
        {
            proof {
                lemma_sweeps_cs_len(cs0, jacv, m0, g0, it as int);
            }
            sweep_constraints(
                &mut self.constraints,
                &self.jacobians,
                &mut self.mj_lambdas,
                &mut self.generic_mj_lambdas,
            );
            it += 1;
        }
        let ghost a1 = sweeps_s(cs0, jacv, m0, g0, params.max_velocity_iterations as int);
        let mut b: usize = 0;
        while b < self.constraints.len()
            invariant
                b <= self.constraints@.len(),
                m0 == force_lambdas_upto_s(
                    *old(bodies),
                    island@,
                    params.dt as int,
                    island@.len() as int,
                ),
                cs0 == assembled_upto_s(
                    *params,
                    *old(bodies),
                    *multibodies,
                    old(joints)@,
                    joint_indices@,
                    old(self).jacobians@,
                    0,
                    joint_indices@.len() as int,
                ).0,
                jacv == assembled_upto_s(
                    *params,
                    *old(bodies),
                    *multibodies,
                    old(joints)@,
                    joint_indices@,
                    old(self).jacobians@,
                    0,
                    joint_indices@.len() as int,
                ).1,
                g0 == old(self).generic_mj_lambdas@,
                a1 == sweeps_s(cs0, jacv, m0, g0, params.max_velocity_iterations as int),
                self.constraints@.len() == a1.0.len(),
                self.jacobians@ == jacv,
                self.mj_lambdas@ == a1.1,
                self.generic_mj_lambdas@ == a1.2,
                forall|i: int|
                    0 <= i < b ==> self.constraints@[i] == any_remove_bias_s(#[trigger] a1.0[i]),
                forall|i: int| b <= i < a1.0.len() ==> self.constraints@[i] == a1.0[i],
            decreases self.constraints@.len() - b,
        {
            let mut c = self.constraints[b];
            if !matches!(c, AnyJointVelocityConstraint::Empty) {
                c.remove_bias_from_rhs();
                self.constraints.set(b, c);
            }
            b += 1;
        }
        proof {
            assert(self.constraints@ =~= a1.0.map_values(
                |c: AnyJointVelocityConstraint| any_remove_bias_s(c),
            ));
        }
        sweep_constraints(
            &mut self.constraints,
            &self.jacobians,
            &mut self.mj_lambdas,
            &mut self.generic_mj_lambdas,
        );
        let ghost solved = velocity_solve_s(
            cs0,
            jacv,
            m0,
            g0,
            params.max_velocity_iterations as int,
        );
        proof {
            assert((self.constraints@, self.mj_lambdas@, self.generic_mj_lambdas@) == solved);
        }
        // Persist the impulses into the joint caches.
        let ghost joints0 = joints@;
        let mut w: usize = 0;
        while w < self.constraints.len()
            invariant
                w <= self.constraints@.len(),
                m0 == force_lambdas_upto_s(
                    *old(bodies),
                    island@,
                    params.dt as int,
                    island@.len() as int,
                ),
                cs0 == assembled_upto_s(
                    *params,
                    *old(bodies),
                    *multibodies,
                    old(joints)@,
                    joint_indices@,
                    old(self).jacobians@,
                    0,
                    joint_indices@.len() as int,
                ).0,
                jacv == assembled_upto_s(
                    *params,
                    *old(bodies),
                    *multibodies,
                    old(joints)@,
                    joint_indices@,
                    old(self).jacobians@,
                    0,
                    joint_indices@.len() as int,
                ).1,
                g0 == old(self).generic_mj_lambdas@,
                solved == velocity_solve_s(cs0, jacv, m0, g0, params.max_velocity_iterations as int),
                self.constraints@ == solved.0,
                self.jacobians@ == jacv,
                self.mj_lambdas@ == solved.1,
                self.generic_mj_lambdas@ == solved.2,
                joints0 == old(joints)@,
                joints@.len() == joints0.len(),
                joints@ == writeback_upto_s(solved.0, joints0, w as int),
            decreases self.constraints@.len() - w,
        {
            let c = self.constraints[w];
            let jlen = joints.len();
            if Self::writeback_ok_check(&c, jlen) {
                c.writeback_impulses(joints);
            }
            w += 1;
        }
        // Write results back to the island's bodies and integrate.
        let mut z: usize = 0;
        while z < n_island
            invariant
                z <= n_island,
                n_island == island@.len(),
                forall|a: int, b: int|
                    0 <= a < b < island@.len() ==> island@[a].index != island@[b].index,
                m0 == force_lambdas_upto_s(
                    *old(bodies),
                    island@,
                    params.dt as int,
                    island@.len() as int,
                ),
                cs0 == assembled_upto_s(
                    *params,
                    *old(bodies),
                    *multibodies,
                    old(joints)@,
                    joint_indices@,
                    old(self).jacobians@,
                    0,
                    joint_indices@.len() as int,
                ).0,
                jacv == assembled_upto_s(
                    *params,
                    *old(bodies),
                    *multibodies,
                    old(joints)@,
                    joint_indices@,
                    old(self).jacobians@,
                    0,
                    joint_indices@.len() as int,
                ).1,
                g0 == old(self).generic_mj_lambdas@,
                solved == velocity_solve_s(cs0, jacv, m0, g0, params.max_velocity_iterations as int),
                self.constraints@ == solved.0,
                self.jacobians@ == jacv,
                self.generic_mj_lambdas@ == solved.2,
                joints@ == writeback_upto_s(solved.0, old(joints)@, solved.0.len() as int),
                joints@.len() == old(joints)@.len(),
                self.mj_lambdas@ == solved.1,
                bodies.wf(),
                bodies.slots@.len() == old(bodies).slots@.len(),
                bodies.generations == old(bodies).generations,
                forall|g: RigidBodyHandle| bodies.is_live(g) == old(bodies).is_live(g),
                forall|g: RigidBodyHandle|
                    old(bodies).is_live(g) ==> bodies.is_live(g) && bodies.body_at(g) == (
                    if exists|y: int| 0 <= y < z && island@[y] == g {
                        integrated_island_body_s(
                            old(bodies).body_at(g),
                            solved.1,
                            params.dt as int,
                        )
                    } else {
                        old(bodies).body_at(g)
                    }),
            decreases n_island - z,
        {
            let h = island[z];
            proof {
                assert(forall|y: int| 0 <= y < z ==> island@[y] != h);
            }
            match bodies.get(h) {
                Some(rb_ref) => {
                    let mut rb = *rb_ref;
                    proof {
                        assert(old(bodies).is_live(h));
                        assert(rb == old(bodies).body_at(h));
                    }
                    let off = rb.ids.active_set_offset;
                    if off < self.mj_lambdas.len() && rb.body_type.is_dynamic() {
                        let dvels = self.mj_lambdas[off];
                        let new_vels = RigidBodyVelocity {
                            linvel: rb.vels.linvel.add(dvels.linear),
                            angvel: rb.vels.angvel.add(
                                rb.mprops.effective_world_inv_inertia_sqrt.transform_vector(
                                    dvels.angular,
                                ),
                            ),
                        };
                        let damped = new_vels.apply_damping(params.dt, &rb.damping);
                        let next_pos = damped.integrate(
                            params.dt,
                            &rb.pos.position,
                            &rb.mprops.local_com,
                        );
                        rb.vels = damped;
                        rb.pos.next_position = next_pos;
                        proof {
                            assert(crate::body::rb_well_formed(rb));
                            assert(rb == integrated_island_body_s(
                                old(bodies).body_at(h),
                                solved.1,
                                params.dt as int,
                            )) by {
                                reveal(integrated_island_body_s);
                            }
                        }
                        let ghost pre = *bodies;
                        bodies.set(h, rb);
                        proof {
                            assert forall|g: RigidBodyHandle|
                                bodies.is_live(g) == pre.is_live(g) by {
                                if g.index == h.index {
                                    if g.generation == h.generation {
                                        assert(g == h);
                                    } else {
                                        assert(!pre.is_live(g));
                                        assert(!bodies.is_live(g));
                                    }
                                }
                            }
                        }
                    } else {
                        proof {
                            lemma_integrated_skip(rb, solved.1, params.dt as int);
                        }
                    }
                },
                None => {},
            }
            z += 1;
        }
        proof {
            assert(forall|g: RigidBodyHandle|
                handle_in_island_s(island@, g) == (exists|y: int|
                    0 <= y < n_island && island@[y] == g));
        }
        ThreadContext::lock_until_ge(&self.thread.num_integrated_bodies, 0);
    }

    /// Whether the writeback targets of a constraint fit the joint vector.
    fn writeback_ok_check(c: &AnyJointVelocityConstraint, n: usize) -> (r: bool)
        ensures
            r == c.writeback_ok(n as int),
    {
        match c {
            AnyJointVelocityConstraint::JointConstraint(c) => c.joint_id < n && Self::wb_check(
                &c.writeback_id,
            ),
            AnyJointVelocityConstraint::JointGroundConstraint(c) => c.joint_id < n
                && Self::wb_check(&c.writeback_id),
            AnyJointVelocityConstraint::JointConstraintSimd(w) => w.lanes[0].joint_id < n
                && Self::wb_check(&w.lanes[0].writeback_id) && w.lanes[1].joint_id < n
                && Self::wb_check(&w.lanes[1].writeback_id) && w.lanes[2].joint_id < n
                && Self::wb_check(&w.lanes[2].writeback_id) && w.lanes[3].joint_id < n
                && Self::wb_check(&w.lanes[3].writeback_id),
            AnyJointVelocityConstraint::JointGroundConstraintSimd(w) => w.lanes[0].joint_id < n
                && Self::wb_check(&w.lanes[0].writeback_id) && w.lanes[1].joint_id < n
                && Self::wb_check(&w.lanes[1].writeback_id) && w.lanes[2].joint_id < n
                && Self::wb_check(&w.lanes[2].writeback_id) && w.lanes[3].joint_id < n
                && Self::wb_check(&w.lanes[3].writeback_id),
            AnyJointVelocityConstraint::JointGenericConstraint(c) => (c.joint_id == usize::MAX
                || c.joint_id < n) && (c.joint_id == usize::MAX || Self::wb_check(
                &c.writeback_id,
            )),
            AnyJointVelocityConstraint::JointGenericGroundConstraint(c) => (c.joint_id
                == usize::MAX || c.joint_id < n) && (c.joint_id == usize::MAX || Self::wb_check(
                &c.writeback_id,
            )),
            AnyJointVelocityConstraint::Empty => false,
        }
    }

    fn wb_check(id: &crate::constraint::WritebackId) -> (r: bool)
        ensures
            r == crate::constraint::wb_in_range(*id),
    {
        match id {
            crate::constraint::WritebackId::Dof(i) => *i < 6,
            crate::constraint::WritebackId::Limit(i) => *i < 6,
            crate::constraint::WritebackId::Motor(i) => *i < 6,
        }
    }
}

/// A body the integration phase skips - one that is not dynamic or whose
/// active-set slot is out of range - is returned unchanged.
pub proof fn lemma_integrated_skip(rb: crate::body::RigidBody, lam: Seq<DeltaVel>, dt: int)
    requires
        !(rb.body_type == crate::body::RigidBodyType::Dynamic && (
        rb.ids.active_set_offset as int) < lam.len()),
    ensures
        integrated_island_body_s(rb, lam, dt) == rb,
{
    reveal(integrated_island_body_s);
}

/// The constraint list keeps its length across any number of sweeps.
pub proof fn lemma_sweeps_cs_len(
    cs: Seq<AnyJointVelocityConstraint>,
    jac: Seq<i64>,
    m: Seq<DeltaVel>,
    g: Seq<i64>,
    iters: int,
)
    ensures
        sweeps_s(cs, jac, m, g, iters).0.len() == cs.len(),
    decreases iters,
{
    if iters > 0 {
        lemma_sweeps_cs_len(cs, jac, m, g, iters - 1);
        lemma_sweep_upto_cs_len(
            sweeps_s(cs, jac, m, g, iters - 1).0,
            jac,
            sweeps_s(cs, jac, m, g, iters - 1).1,
            sweeps_s(cs, jac, m, g, iters - 1).2,
            cs.len() as int,
        );
    }
}

/// A sweep prefix keeps the constraint list's length.
pub proof fn lemma_sweep_upto_cs_len(
    cs: Seq<AnyJointVelocityConstraint>,
    jac: Seq<i64>,
    m: Seq<DeltaVel>,
    g: Seq<i64>,
    k: int,
)
    requires
        k <= cs.len(),
    ensures
        sweep_upto_s(cs, jac, m, g, k).0.len() == cs.len(),
    decreases k,
{
    if k > 0 {
        lemma_sweep_upto_cs_len(cs, jac, m, g, k - 1);
    }
}

} // verus!
