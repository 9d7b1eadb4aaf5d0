//! Global properties of the solver, stated and proved over the exact
//! specifications of its kernels.

use vstd::prelude::*;

use crate::constraint::{
    jvc_apply1_s, jvc_apply2_s, jvc_dvel_s, jvc_new_impulse_s, jvc_solve_s, jvc_wf,
    jvgc_apply2_s, jvgc_solve_s, jvgc_wf, DeltaVel, JointVelocityConstraint,
    JointVelocityGroundConstraint,
};
use crate::fx::{fx_mag, fx_mul_v, fx_sub_v, rtz_div, FX_ONE};
use crate::joint_constraint::AnyJointVelocityConstraint;
use crate::parallel::sweep_upto_s;
use crate::vect::Vec3;

verus! {

/// Determinism: the Gauss-Seidel sweep is a pure function of the constraint
/// list, the Jacobian buffer and the two lambda vectors, so runs from equal
/// states produce byte-identical states.
pub proof fn lemma_sweep_deterministic(
    cs1: Seq<AnyJointVelocityConstraint>,
    cs2: Seq<AnyJointVelocityConstraint>,
    jac1: Seq<i64>,
    jac2: Seq<i64>,
    m1: Seq<DeltaVel>,
    m2: Seq<DeltaVel>,
    g1: Seq<i64>,
    g2: Seq<i64>,
    k: int,
)
    requires
        cs1 == cs2,
        jac1 == jac2,
        m1 == m2,
        g1 == g2,
    ensures
        sweep_upto_s(cs1, jac1, m1, g1, k) == sweep_upto_s(cs2, jac2, m2, g2, k),
{
}

/// A fixed-point product with zero is exactly zero.
pub proof fn lemma_fx_mul_zero(x: int)
    ensures
        fx_mul_v(x, 0) == 0,
        fx_mul_v(0, x) == 0,
{
    assert(x * 0 == 0);
    assert(0 * x == 0);
    assert(rtz_div(0, FX_ONE as int) == 0);
}

/// A fixed-point product with one is exact for any in-range scalar.
pub proof fn lemma_fx_mul_one(x: i64)
    ensures
        fx_mul_v(x as int, FX_ONE as int) == x as int,
{
    assert(fx_mag(x as int * 65536) == fx_mag(x as int) * 65536) by (nonlinear_arith);
    assert(fx_mag(x as int) * 65536 / 65536 == fx_mag(x as int)) by (nonlinear_arith);
}

/// Applying an impulse change of zero leaves a body's delta velocity
/// untouched.
pub proof fn lemma_apply_zero(c: JointVelocityConstraint, dv: DeltaVel)
    ensures
        jvc_apply1_s(c, dv, 0) == dv,
        jvc_apply2_s(c, dv, 0) == dv,
{
    lemma_fx_mul_zero(fx_mul_v(c.lin_jac.x as int, c.im1.x as int));
    lemma_fx_mul_zero(fx_mul_v(c.lin_jac.y as int, c.im1.y as int));
    lemma_fx_mul_zero(fx_mul_v(c.lin_jac.z as int, c.im1.z as int));
    lemma_fx_mul_zero(fx_mul_v(c.lin_jac.x as int, c.im2.x as int));
    lemma_fx_mul_zero(fx_mul_v(c.lin_jac.y as int, c.im2.y as int));
    lemma_fx_mul_zero(fx_mul_v(c.lin_jac.z as int, c.im2.z as int));
    lemma_fx_mul_zero(c.ang_jac1.x as int);
    lemma_fx_mul_zero(c.ang_jac1.y as int);
    lemma_fx_mul_zero(c.ang_jac1.z as int);
    lemma_fx_mul_zero(c.ang_jac2.x as int);
    lemma_fx_mul_zero(c.ang_jac2.y as int);
    lemma_fx_mul_zero(c.ang_jac2.z as int);
}

/// Warm-start idempotence: a row whose measured constraint-space velocity
/// residual is zero and whose warm-started impulse already lies inside its
/// feasible interval is a fixed point of the Gauss-Seidel update — the
/// impulse change is zero and no delta velocity moves.
pub proof fn lemma_warmstart_idempotent(c: JointVelocityConstraint, m: Seq<DeltaVel>)
    requires
        jvc_wf(c, m.len() as int),
        jvc_dvel_s(c, m[c.mj_lambda1 as int], m[c.mj_lambda2 as int]) == 0,
        c.impulse_bounds[0] <= c.impulse <= c.impulse_bounds[1],
    ensures
        jvc_solve_s(c, m) == (c, m),
{
    lemma_fx_mul_zero(c.inv_lhs as int);
    assert(jvc_new_impulse_s(
        c,
        m[c.mj_lambda1 as int],
        m[c.mj_lambda2 as int],
    ) == c.impulse as int);
    lemma_apply_zero(c, m[c.mj_lambda1 as int]);
    lemma_apply_zero(c, m[c.mj_lambda2 as int]);
    let r = jvc_solve_s(c, m);
    assert(r.0 == c);
    let m1 = m.update(c.mj_lambda1 as int, m[c.mj_lambda1 as int]);
    assert(m1 =~= m);
    assert(r.1 =~= m);
}

/// Momentum conservation, structural form: through a row with unit inverse
/// masses on both sides, one update moves the two bodies' linear delta
/// velocities by exactly opposite amounts, so their sum is preserved
/// componentwise whenever no saturation occurs.
pub proof fn lemma_momentum_preserved(
    c: JointVelocityConstraint,
    dv1: DeltaVel,
    dv2: DeltaVel,
    delta: int,
)
    requires
        c.im1 == (Vec3 { x: FX_ONE, y: FX_ONE, z: FX_ONE }),
        c.im2 == (Vec3 { x: FX_ONE, y: FX_ONE, z: FX_ONE }),
        fx_mag(dv1.linear.x as int) < 0x1000_0000_0000_0000,
        fx_mag(dv1.linear.y as int) < 0x1000_0000_0000_0000,
        fx_mag(dv1.linear.z as int) < 0x1000_0000_0000_0000,
        fx_mag(dv2.linear.x as int) < 0x1000_0000_0000_0000,
        fx_mag(dv2.linear.y as int) < 0x1000_0000_0000_0000,
        fx_mag(dv2.linear.z as int) < 0x1000_0000_0000_0000,
        fx_mag(fx_mul_v(c.lin_jac.x as int, delta)) < 0x1000_0000_0000_0000,
        fx_mag(fx_mul_v(c.lin_jac.y as int, delta)) < 0x1000_0000_0000_0000,
        fx_mag(fx_mul_v(c.lin_jac.z as int, delta)) < 0x1000_0000_0000_0000,
    ensures
        ({
            let n1 = jvc_apply1_s(c, dv1, delta);
            let n2 = jvc_apply2_s(c, dv2, delta);
            &&& n1.linear.x + n2.linear.x == dv1.linear.x + dv2.linear.x
            &&& n1.linear.y + n2.linear.y == dv1.linear.y + dv2.linear.y
            &&& n1.linear.z + n2.linear.z == dv1.linear.z + dv2.linear.z
        }),
{
    lemma_fx_mul_one(c.lin_jac.x);
    lemma_fx_mul_one(c.lin_jac.y);
    lemma_fx_mul_one(c.lin_jac.z);
}

/// Whether a constraint list over rigid-rigid equality rows is at
/// equilibrium against the delta velocities `m`: every row measures a zero
/// constraint-space residual and carries a warm-started impulse inside its
/// feasible interval.
pub open spec fn at_equilibrium_s(
    cs: Seq<AnyJointVelocityConstraint>,
    m: Seq<DeltaVel>,
) -> bool {
    forall|i: int|
        0 <= i < cs.len() ==> match #[trigger] cs[i] {
            AnyJointVelocityConstraint::JointConstraint(c) => {
                &&& jvc_wf(c, m.len() as int)
                &&& jvc_dvel_s(c, m[c.mj_lambda1 as int], m[c.mj_lambda2 as int]) == 0
                &&& c.impulse_bounds[0] <= c.impulse <= c.impulse_bounds[1]
            },
            _ => false,
        }
}

/// Warm-start idempotence of the whole sweep: on a configuration already at
/// equilibrium, a Gauss-Seidel sweep changes no impulse and no delta
/// velocity.
pub proof fn lemma_sweep_idempotent(
    cs: Seq<AnyJointVelocityConstraint>,
    jac: Seq<i64>,
    m: Seq<DeltaVel>,
    g: Seq<i64>,
    k: int,
)
    requires
        0 <= k <= cs.len(),
        at_equilibrium_s(cs, m),
    ensures
        sweep_upto_s(cs, jac, m, g, k) == (cs, m, g),
    decreases k,
{
    if k > 0 {
        lemma_sweep_idempotent(cs, jac, m, g, k - 1);
        reveal(crate::joint_constraint::any_solve_s);
        match cs[k - 1] {
            AnyJointVelocityConstraint::JointConstraint(c) => {
                lemma_warmstart_idempotent(c, m);
                assert(cs.update(k - 1, cs[k - 1]) =~= cs);
            },
            _ => {
                assert(false);
            },
        }
    }
}

/// Determinism of the whole island solve: the phase functions the island
/// solver's contract is stated with are pure, so two solves from equal
/// bodies, joints, parameters, island lists and solver buffers produce
/// byte-identical constraints, delta velocities, generic lambdas, joint
/// caches and integrated bodies.
pub proof fn lemma_island_solve_deterministic(
    p1: crate::params::IntegrationParameters,
    p2: crate::params::IntegrationParameters,
    bodies1: crate::body::RigidBodySet,
    bodies2: crate::body::RigidBodySet,
    mbs1: crate::multibody::MultibodyJointSet,
    mbs2: crate::multibody::MultibodyJointSet,
    joints1: Seq<crate::joint::JointGraphEdge>,
    joints2: Seq<crate::joint::JointGraphEdge>,
    island1: Seq<crate::body::RigidBodyHandle>,
    island2: Seq<crate::body::RigidBodyHandle>,
    idx1: Seq<usize>,
    idx2: Seq<usize>,
    jac1: Seq<i64>,
    jac2: Seq<i64>,
    g1: Seq<i64>,
    g2: Seq<i64>,
)
    requires
        p1 == p2,
        bodies1 == bodies2,
        mbs1 == mbs2,
        joints1 == joints2,
        island1 == island2,
        idx1 == idx2,
        jac1 == jac2,
        g1 == g2,
    ensures
        ({
            let m1 = crate::parallel::force_lambdas_upto_s(
                bodies1,
                island1,
                p1.dt as int,
                island1.len() as int,
            );
            let m2 = crate::parallel::force_lambdas_upto_s(
                bodies2,
                island2,
                p2.dt as int,
                island2.len() as int,
            );
            let a1 = crate::parallel::assembled_upto_s(
                p1,
                bodies1,
                mbs1,
                joints1,
                idx1,
                jac1,
                0,
                idx1.len() as int,
            );
            let a2 = crate::parallel::assembled_upto_s(
                p2,
                bodies2,
                mbs2,
                joints2,
                idx2,
                jac2,
                0,
                idx2.len() as int,
            );
            let s1 = crate::parallel::velocity_solve_s(
                a1.0,
                a1.1,
                m1,
                g1,
                p1.max_velocity_iterations as int,
            );
            let s2 = crate::parallel::velocity_solve_s(
                a2.0,
                a2.1,
                m2,
                g2,
                p2.max_velocity_iterations as int,
            );
            &&& m1 == m2
            &&& a1 == a2
            &&& s1 == s2
            &&& crate::parallel::writeback_upto_s(s1.0, joints1, s1.0.len() as int)
                == crate::parallel::writeback_upto_s(s2.0, joints2, s2.0.len() as int)
        }),
{
}

/// Adding the zero vector changes nothing.
pub proof fn lemma_v3_add_zero(v: Vec3)
    ensures
        crate::vect::v3_add_s(v, Vec3 { x: 0i64, y: 0i64, z: 0i64 }) == v,
{
}

/// Scaling by one is exact for any in-range vector.
pub proof fn lemma_v3_scale_one(v: Vec3)
    ensures
        crate::vect::v3_scale_s(v, FX_ONE as int) == v,
{
    lemma_fx_mul_one(v.x);
    lemma_fx_mul_one(v.y);
    lemma_fx_mul_one(v.z);
}

/// With zero damping coefficients, one damping step returns the velocity
/// unchanged.
pub proof fn lemma_damping_identity(vels: crate::body::RigidBodyVelocity, dt: int)
    ensures
        crate::body::damped_velocity_s(
            vels,
            dt,
            crate::body::RigidBodyDamping { linear_damping: 0, angular_damping: 0 },
        ) == vels,
{
    lemma_fx_mul_zero(dt);
    lemma_v3_scale_one(vels.linvel);
    lemma_v3_scale_one(vels.angvel);
}

/// The no-op island, at the body level: a dynamic undamped body whose swept
/// delta velocity is zero keeps its velocity exactly, its current placement
/// is not modified, and its predicted placement is the integral of the
/// unchanged velocity.
pub proof fn lemma_noop_island_body(rb: crate::body::RigidBody, lam: Seq<DeltaVel>, dt: int)
    requires
        rb.body_type == crate::body::RigidBodyType::Dynamic,
        (rb.ids.active_set_offset as int) < lam.len(),
        lam[rb.ids.active_set_offset as int] == (DeltaVel {
            linear: Vec3 { x: 0i64, y: 0i64, z: 0i64 },
            angular: Vec3 { x: 0i64, y: 0i64, z: 0i64 },
        }),
        rb.damping == (crate::body::RigidBodyDamping { linear_damping: 0, angular_damping: 0 }),
    ensures
        crate::parallel::integrated_island_body_s(rb, lam, dt) == (crate::body::RigidBody {
            pos: crate::body::RigidBodyPosition {
                position: rb.pos.position,
                next_position: crate::body::integrated_position_s(
                    rb.vels,
                    dt,
                    rb.pos.position,
                    rb.mprops.local_com,
                ),
            },
            ..rb
        }),
{
    reveal(crate::parallel::integrated_island_body_s);
    let zero = Vec3 { x: 0i64, y: 0i64, z: 0i64 };
    assert(crate::sdp::sdp_transform_s(rb.mprops.effective_world_inv_inertia_sqrt, zero)
        == zero) by {
        lemma_fx_mul_zero(rb.mprops.effective_world_inv_inertia_sqrt.m11 as int);
        lemma_fx_mul_zero(rb.mprops.effective_world_inv_inertia_sqrt.m12 as int);
        lemma_fx_mul_zero(rb.mprops.effective_world_inv_inertia_sqrt.m13 as int);
        lemma_fx_mul_zero(rb.mprops.effective_world_inv_inertia_sqrt.m22 as int);
        lemma_fx_mul_zero(rb.mprops.effective_world_inv_inertia_sqrt.m23 as int);
        lemma_fx_mul_zero(rb.mprops.effective_world_inv_inertia_sqrt.m33 as int);
    }
    lemma_v3_add_zero(rb.vels.linvel);
    lemma_v3_add_zero(rb.vels.angvel);
    lemma_damping_identity(rb.vels, dt);
}

/// The no-op island, at the stage level: with no constraints assembled, the
/// whole velocity stage returns the delta velocities and generic lambdas
/// untouched.
pub proof fn lemma_empty_velocity_solve(
    jac: Seq<i64>,
    m: Seq<DeltaVel>,
    g: Seq<i64>,
    iters: int,
)
    ensures
        crate::parallel::velocity_solve_s(Seq::empty(), jac, m, g, iters) == (
            Seq::<AnyJointVelocityConstraint>::empty(),
            m,
            g,
        ),
    decreases iters,
{
    lemma_empty_sweeps(jac, m, g, iters);
    let a = crate::parallel::sweeps_s(Seq::<AnyJointVelocityConstraint>::empty(), jac, m, g, iters);
    assert(a.0.map_values(|c: AnyJointVelocityConstraint| crate::parallel::any_remove_bias_s(c))
        =~= Seq::<AnyJointVelocityConstraint>::empty());
}

/// Any number of sweeps over an empty constraint list changes nothing.
pub proof fn lemma_empty_sweeps(jac: Seq<i64>, m: Seq<DeltaVel>, g: Seq<i64>, iters: int)
    ensures
        crate::parallel::sweeps_s(Seq::empty(), jac, m, g, iters) == (
            Seq::<AnyJointVelocityConstraint>::empty(),
            m,
            g,
        ),
    decreases iters,
{
    if iters > 0 {
        lemma_empty_sweeps(jac, m, g, iters - 1);
    }
}

/// Whether persisting a constraint writes into joint `j`.
pub open spec fn wb_targets_s(c: AnyJointVelocityConstraint, j: int) -> bool {
    match c {
        AnyJointVelocityConstraint::JointConstraint(cc) => cc.joint_id as int == j,
        AnyJointVelocityConstraint::JointGroundConstraint(cc) => cc.joint_id as int == j,
        AnyJointVelocityConstraint::JointConstraintSimd(w) => w.lanes[0].joint_id as int == j
            || w.lanes[1].joint_id as int == j || w.lanes[2].joint_id as int == j
            || w.lanes[3].joint_id as int == j,
        AnyJointVelocityConstraint::JointGroundConstraintSimd(w) => w.lanes[0].joint_id as int
            == j || w.lanes[1].joint_id as int == j || w.lanes[2].joint_id as int == j
            || w.lanes[3].joint_id as int == j,
        AnyJointVelocityConstraint::JointGenericConstraint(cc) => cc.joint_id != usize::MAX
            && cc.joint_id as int == j,
        AnyJointVelocityConstraint::JointGenericGroundConstraint(cc) => cc.joint_id != usize::MAX
            && cc.joint_id as int == j,
        AnyJointVelocityConstraint::Empty => false,
    }
}

/// The writeback stage keeps the joint vector's length.
pub proof fn lemma_writeback_len(
    cs: Seq<AnyJointVelocityConstraint>,
    joints: Seq<crate::joint::JointGraphEdge>,
    w: int,
)
    ensures
        crate::parallel::writeback_upto_s(cs, joints, w).len() == joints.len(),
    decreases w,
{
    if w > 0 {
        lemma_writeback_len(cs, joints, w - 1);
    }
}

/// Island independence, on the joint side: a joint that no persisted
/// constraint targets — every joint of every other island — is unchanged by
/// the writeback stage.
pub proof fn lemma_writeback_untouched(
    cs: Seq<AnyJointVelocityConstraint>,
    joints: Seq<crate::joint::JointGraphEdge>,
    w: int,
    j: int,
)
    requires
        0 <= j < joints.len(),
        forall|i: int| 0 <= i < w ==> !wb_targets_s(#[trigger] cs[i], j),
    ensures
        crate::parallel::writeback_upto_s(cs, joints, w)[j] == joints[j],
    decreases w,
{
    if w > 0 {
        lemma_writeback_untouched(cs, joints, w - 1, j);
        lemma_writeback_len(cs, joints, w - 1);
    }
}

/// A joint whose dynamic side is in fact immovable — zero inverse mass and
/// zero angular Jacobian, as a row between two fixed bodies has — leaves
/// every delta velocity untouched whatever impulse the update computes: the
/// solver is a no-op on such a row.
pub proof fn lemma_fixed_body_row_noop(c: JointVelocityGroundConstraint, m: Seq<DeltaVel>)
    requires
        jvgc_wf(c, m.len() as int),
        c.im2 == (Vec3 { x: 0i64, y: 0i64, z: 0i64 }),
        c.ang_jac2 == (Vec3 { x: 0i64, y: 0i64, z: 0i64 }),
    ensures
        jvgc_solve_s(c, m).1 == m,
{
    let ni = crate::constraint::jvgc_new_impulse_s(c, m[c.mj_lambda2 as int]);
    let d = fx_sub_v(ni, c.impulse as int);
    lemma_fx_mul_zero(c.lin_jac.x as int);
    lemma_fx_mul_zero(c.lin_jac.y as int);
    lemma_fx_mul_zero(c.lin_jac.z as int);
    lemma_fx_mul_zero(d);
    let n2 = jvgc_apply2_s(c, m[c.mj_lambda2 as int], d);
    assert(n2 == m[c.mj_lambda2 as int]);
    assert(jvgc_solve_s(c, m).1 =~= m);
}

} // verus!
