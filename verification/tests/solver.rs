//! End-to-end checks of the fixed-point solver kernels and the island
//! pipeline on concrete worlds.

use rapier_core::body::{RigidBody, RigidBodySet, RigidBodyType};
use rapier_core::constraint::{DeltaVel, JointVelocityGroundConstraint, WritebackId};
use rapier_core::fx::{fx_add, fx_div, fx_mul, fx_sub, inv, select_other, WSign, FX_ONE};
use rapier_core::joint::{ImpulseJoint, JointData, JointGraphEdge, JointMotor, MotorModel};
use rapier_core::multibody::{LdltFactor, MultibodyJointSet};
use rapier_core::parallel::{ParallelIslandSolver, ThreadContext};
use rapier_core::params::IntegrationParameters;
use rapier_core::quat::{fx_sqrt, Iso, Quat};
use rapier_core::support::{
    DisableFloatingPointExceptionsFlags, FlushToZeroDenormalsAreZeroFlags,
};
use rapier_core::vect::{Mat3, SdpMat3, Vec3};

fn one() -> i64 {
    FX_ONE
}

#[test]
fn fixed_point_arithmetic_exact_values() {
    // 2.0 * 3.0 == 6.0
    assert_eq!(fx_mul(2 * one(), 3 * one()), 6 * one());
    // 1.0 / 2.0 == 0.5
    assert_eq!(fx_div(one(), 2 * one()), one() / 2);
    // saturation at the top of the range
    assert_eq!(fx_add(i64::MAX, 1), i64::MAX);
    assert_eq!(fx_sub(i64::MIN, 1), i64::MIN);
    // rounding toward zero
    assert_eq!(fx_mul(-3, 3), 0);
}

#[test]
fn inverse_of_zero_is_zero() {
    assert_eq!(inv(0), 0);
    assert_eq!(inv(2 * one()), one() / 2);
    assert_eq!(inv(one()), one());
}

#[test]
fn select_other_picks_the_other_endpoint() {
    assert_eq!(select_other((3, 9), 3), 9);
    assert_eq!(select_other((3, 9), 9), 3);
}

#[test]
fn copy_sign_transfers_the_sign() {
    assert_eq!((-one()).copy_sign_to(5 * one()), -5 * one());
    assert_eq!(one().copy_sign_to(-5 * one()), 5 * one());
}

#[test]
fn square_root_exact_squares() {
    // sqrt(4.0) == 2.0
    assert_eq!(fx_sqrt(4 * one()), 2 * one());
    assert_eq!(fx_sqrt(0), 0);
    assert_eq!(fx_sqrt(one()), one());
}

#[test]
fn vector_products() {
    let x = Vec3 { x: one(), y: 0, z: 0 };
    let y = Vec3 { x: 0, y: one(), z: 0 };
    let z = Vec3 { x: 0, y: 0, z: one() };
    assert_eq!(x.gdot(x), one());
    assert_eq!(x.gdot(y), 0);
    assert_eq!(x.gcross(y), z);
    assert_eq!(y.gcross(x), z.neg());
    // the cross matrix reproduces the cross product
    assert_eq!(x.gcross_matrix().transform_vector(y), z);
}

#[test]
fn sdp_identity_inverse_and_singular_inverse() {
    let id = SdpMat3::from_diagonal_element(one());
    assert_eq!(id.inverse(), id);
    let sing = SdpMat3::zero();
    assert_eq!(sing.inverse(), SdpMat3::zero());
    // squaring the identity keeps it
    assert_eq!(id.squared(), id);
}

#[test]
fn quaternion_identity_rotation_and_normalization() {
    let q = Quat::identity();
    let v = Vec3 { x: 3 * one(), y: -2 * one(), z: one() };
    assert_eq!(q.rotate(v), v);
    // normalizing a scaled identity recovers the identity
    let big = Quat { x: 0, y: 0, z: 0, w: 2 * one() };
    assert_eq!(big.normalize(), Quat::identity());
    // the degenerate zero quaternion recovers to the identity
    let zero = Quat { x: 0, y: 0, z: 0, w: 0 };
    assert_eq!(zero.normalize(), Quat::identity());
}

#[test]
fn ldlt_diagonal_solve() {
    // a diagonal system: 2 x = 4 has solution 2 (the factor stores the
    // inverse diagonal of the augmented mass, multiplied in)
    let f = LdltFactor::from_diagonal(vec![2 * one()]);
    let mut b = vec![4 * one()];
    f.solve(&mut b);
    assert_eq!(b, vec![2 * one()]);
}

#[test]
fn default_parameters_and_erp_inv_dt() {
    let p = IntegrationParameters::default();
    assert_eq!(p.dt, 1092);
    assert_eq!(p.erp, 52429);
    assert_eq!(p.max_velocity_iterations, 4);
    assert_eq!(p.max_position_iterations, 1);
    assert_eq!(p.min_island_size, 128);
    assert_eq!(p.erp_inv_dt(), fx_div(52429, 1092));
}

#[test]
fn arena_lookup_and_stale_handle() {
    let mut bodies = RigidBodySet::new();
    let h = bodies.insert(RigidBody::new(RigidBodyType::Dynamic, Iso::identity()));
    assert!(bodies.get(h).is_some());
    let removed = bodies.remove(h);
    assert!(removed.is_some());
    // the handle has gone stale: the lookup fails with None
    assert!(bodies.get(h).is_none());
    assert!(bodies.remove(h).is_none());
}

#[test]
fn joint_constructors_lock_the_right_axes() {
    assert_eq!(JointData::fixed().locked_axes, 63);
    assert_eq!(JointData::ball().locked_axes, 7);
    assert_eq!(JointData::revolute().locked_axes, 55);
    assert_eq!(JointData::prismatic().locked_axes, 62);
}

#[test]
fn motor_params_scale_force_based_gains_by_dt() {
    let m = JointMotor {
        target_vel: 0,
        target_pos: 0,
        stiffness: one(),
        damping: one(),
        max_impulse: i64::MAX,
        model: MotorModel::ForceBased,
    };
    let p = m.motor_params(one() / 2);
    assert_eq!(p.stiffness, one() / 2);
    assert_eq!(p.damping, one() / 2);
    let a = JointMotor { model: MotorModel::AccelerationBased, ..m };
    let q = a.motor_params(one() / 2);
    assert_eq!(q.stiffness, one());
}

#[test]
fn flag_guards_record_empty_state() {
    let f = FlushToZeroDenormalsAreZeroFlags::flush_denormal_to_zero();
    assert_eq!(f.original_flags, 0);
    let g = DisableFloatingPointExceptionsFlags::disable_floating_point_exceptions();
    assert_eq!(g.original_flags, 0);
}

#[test]
fn claim_batch_walks_the_index_stream() {
    let mut stream = 0usize;
    let (s, e) = ThreadContext::claim_batch(&mut stream, 8, 11);
    assert_eq!((s, e), (0, 8));
    let (s, e) = ThreadContext::claim_batch(&mut stream, 8, 11);
    assert_eq!((s, e), (8, 11));
    let (s, e) = ThreadContext::claim_batch(&mut stream, 8, 11);
    assert_eq!((s, e), (16, 11));
}

fn gravity_world(
    n_chain: usize,
) -> (RigidBodySet, Vec<rapier_core::body::RigidBodyHandle>, Vec<JointGraphEdge>, Vec<usize>) {
    let mut bodies = RigidBodySet::new();
    let mut island = Vec::new();
    let mut joints = Vec::new();
    let mut joint_indices = Vec::new();
    let anchor = bodies.insert(RigidBody::new(RigidBodyType::Fixed, Iso::identity()));
    let mut prev = anchor;
    for k in 0..n_chain {
        let mut pos = Iso::identity();
        pos.translation = Vec3 { x: (k as i64 + 1) * FX_ONE, y: 0, z: 0 };
        let mut rb = RigidBody::new(RigidBodyType::Dynamic, pos);
        rb.ids.active_set_offset = k;
        // gravity as an accumulated force on a unit mass
        rb.forces.force = Vec3 { x: 0, y: -643564, z: 0 };
        let h = bodies.insert(rb);
        island.push(h);
        let mut data = JointData::revolute();
        data.local_frame2 = Iso::from_translation(Vec3 { x: -FX_ONE, y: 0, z: 0 });
        joint_indices.push(joints.len());
        joints.push(JointGraphEdge { weight: ImpulseJoint::new(prev, h, data) });
        prev = h;
    }
    (bodies, island, joints, joint_indices)
}

#[test]
fn gravity_accelerates_a_free_body_exactly() {
    let mut bodies = RigidBodySet::new();
    let mut rb = RigidBody::new(RigidBodyType::Dynamic, Iso::identity());
    rb.ids.active_set_offset = 0;
    rb.forces.force = Vec3 { x: 0, y: -one(), z: 0 };
    let h = bodies.insert(rb);
    let island = vec![h];
    let mut joints: Vec<JointGraphEdge> = Vec::new();
    let joint_indices: Vec<usize> = Vec::new();
    let params = IntegrationParameters::default();
    let mut solver = ParallelIslandSolver::new();
    let mb = MultibodyJointSet::new();
    solver.init_and_solve(&params, &island, &mut bodies, &mut joints, &joint_indices, &mb);
    let after = bodies.get(h).unwrap();
    // dv = force * inv_mass * dt, exactly
    assert_eq!(after.vels.linvel.y, fx_mul(-one(), params.dt));
    // the predicted position moved down
    assert!(after.pos.next_position.translation.y < 0);
    // the current position is promoted only after the CCD pass
    assert_eq!(after.pos.position.translation.y, 0);
}

#[test]
fn static_static_joint_emits_zero_constraints() {
    let mut bodies = RigidBodySet::new();
    let a = bodies.insert(RigidBody::new(RigidBodyType::Fixed, Iso::identity()));
    let b = bodies.insert(RigidBody::new(RigidBodyType::Fixed, Iso::identity()));
    let mut joints = vec![JointGraphEdge {
        weight: ImpulseJoint::new(a, b, JointData::fixed()),
    }];
    let joint_indices = vec![0usize];
    let island = Vec::new();
    let params = IntegrationParameters::default();
    let mut solver = ParallelIslandSolver::new();
    let mb = MultibodyJointSet::new();
    solver.init_and_solve(&params, &island, &mut bodies, &mut joints, &joint_indices, &mb);
    // the assembler emitted nothing and the solver was a no-op
    assert_eq!(solver.num_constraints(), 0);
    assert_eq!(
        bodies.get(a).unwrap().pos.next_position.translation.x,
        0
    );
}

#[test]
fn chain_under_gravity_runs_and_is_deterministic() {
    let (mut bodies1, island1, mut joints1, idx1) = gravity_world(4);
    let (mut bodies2, island2, mut joints2, idx2) = gravity_world(4);
    let params = IntegrationParameters::default();
    let mut s1 = ParallelIslandSolver::new();
    let mut s2 = ParallelIslandSolver::new();
    let mb = MultibodyJointSet::new();
    for _ in 0..20 {
        s1.init_and_solve(&params, &island1, &mut bodies1, &mut joints1, &idx1, &mb);
        s2.init_and_solve(&params, &island2, &mut bodies2, &mut joints2, &idx2, &mb);
    }
    // identical runs give byte-identical state
    for k in 0..island1.len() {
        let b1 = *bodies1.get(island1[k]).unwrap();
        let b2 = *bodies2.get(island2[k]).unwrap();
        assert_eq!(b1.vels.linvel, b2.vels.linvel);
        assert_eq!(b1.pos.next_position.translation, b2.pos.next_position.translation);
    }
    // the joint held: the first link stays within a unit of its anchor
    let first = bodies1.get(island1[0]).unwrap();
    let dx = first.pos.next_position.translation.x - FX_ONE;
    assert!(dx.abs() < FX_ONE);
}

#[test]
fn equilibrium_row_update_changes_nothing() {
    // a ground row with zero residual and an in-range warm impulse is a
    // fixed point of the Gauss-Seidel update
    let c = JointVelocityGroundConstraint {
        mj_lambda2: 0,
        joint_id: 0,
        im2: Vec3 { x: FX_ONE, y: FX_ONE, z: FX_ONE },
        lin_jac: Vec3 { x: FX_ONE, y: 0, z: 0 },
        ang_jac2: Vec3 { x: 0, y: 0, z: 0 },
        inv_lhs: FX_ONE,
        rhs: 0,
        rhs_wo_bias: 0,
        impulse: 0,
        impulse_bounds: [i64::MIN, i64::MAX],
        writeback_id: WritebackId::Dof(0),
    };
    let mut c2 = c;
    let mut lambdas = vec![DeltaVel::zero()];
    c2.solve(&mut lambdas);
    assert_eq!(c2.impulse, 0);
    assert_eq!(lambdas[0], DeltaVel::zero());
}

#[test]
fn ground_row_corrects_a_closing_velocity() {
    // a row along x with residual velocity 1.0 must receive a negative
    // correction through a unit effective mass
    let c = JointVelocityGroundConstraint {
        mj_lambda2: 0,
        joint_id: 0,
        im2: Vec3 { x: FX_ONE, y: FX_ONE, z: FX_ONE },
        lin_jac: Vec3 { x: FX_ONE, y: 0, z: 0 },
        ang_jac2: Vec3 { x: 0, y: 0, z: 0 },
        inv_lhs: FX_ONE,
        rhs: FX_ONE,
        rhs_wo_bias: FX_ONE,
        impulse: 0,
        impulse_bounds: [i64::MIN, i64::MAX],
        writeback_id: WritebackId::Dof(0),
    };
    let mut c2 = c;
    let mut lambdas = vec![DeltaVel::zero()];
    c2.solve(&mut lambdas);
    // lambda = clamp(0 + 1 * 1.0) = 1.0, applied as -J * lambda
    assert_eq!(c2.impulse, FX_ONE);
    assert_eq!(lambdas[0].linear.x, -FX_ONE);
    assert_eq!(lambdas[0].linear.y, 0);
}

#[test]
fn writeback_persists_the_impulse_into_the_cache() {
    let mut bodies = RigidBodySet::new();
    let a = bodies.insert(RigidBody::new(RigidBodyType::Dynamic, Iso::identity()));
    let b = bodies.insert(RigidBody::new(RigidBodyType::Dynamic, Iso::identity()));
    let mut joints = vec![JointGraphEdge {
        weight: ImpulseJoint::new(a, b, JointData::ball()),
    }];
    let c = JointVelocityGroundConstraint {
        mj_lambda2: 0,
        joint_id: 0,
        im2: Vec3 { x: FX_ONE, y: FX_ONE, z: FX_ONE },
        lin_jac: Vec3 { x: FX_ONE, y: 0, z: 0 },
        ang_jac2: Vec3 { x: 0, y: 0, z: 0 },
        inv_lhs: FX_ONE,
        rhs: 0,
        rhs_wo_bias: 0,
        impulse: 7 * FX_ONE,
        impulse_bounds: [i64::MIN, i64::MAX],
        writeback_id: WritebackId::Dof(2),
    };
    c.writeback_impulses(&mut joints);
    assert_eq!(joints[0].weight.impulses[2], 7 * FX_ONE);
    assert_eq!(joints[0].weight.impulses[0], 0);
}

#[test]
fn mat3_product_with_identity() {
    let id = Mat3::from_diagonal_element(one());
    let m = Mat3 {
        m11: one(),
        m12: 2 * one(),
        m13: 0,
        m21: 0,
        m22: one(),
        m23: 0,
        m31: 0,
        m32: 0,
        m33: one(),
    };
    assert_eq!(id.mul(m), m);
    assert_eq!(m.mul(id), m);
}

#[test]
fn long_chain_of_revolute_balls_stays_within_reach() {
    // a chain of 100 jointed balls hanging off a fixed anchor, stepped for
    // 200 frames at sixty steps per second; ball joints leave the swing
    // plane free
    let mut bodies = RigidBodySet::new();
    let mut island = Vec::new();
    let mut joints = Vec::new();
    let mut idx = Vec::new();
    let anchor = bodies.insert(RigidBody::new(RigidBodyType::Fixed, Iso::identity()));
    let mut prev = anchor;
    for k in 0..100usize {
        let mut pos = Iso::identity();
        pos.translation = Vec3 { x: (k as i64 + 1) * FX_ONE, y: 0, z: 0 };
        let mut rb = RigidBody::new(RigidBodyType::Dynamic, pos);
        rb.ids.active_set_offset = k;
        rb.forces.force = Vec3 { x: 0, y: -643_564, z: 0 };
        let h = bodies.insert(rb);
        island.push(h);
        let mut data = JointData::ball();
        data.local_frame2 = Iso::from_translation(Vec3 { x: -FX_ONE, y: 0, z: 0 });
        idx.push(joints.len());
        joints.push(JointGraphEdge { weight: ImpulseJoint::new(prev, h, data) });
        prev = h;
    }
    let params = IntegrationParameters::default();
    let mut solver = ParallelIslandSolver::new();
    let mb = MultibodyJointSet::new();
    for _ in 0..200 {
        solver.init_and_solve(&params, &island, &mut bodies, &mut joints, &idx, &mb);
        for h in &island {
            if let Some(rb) = bodies.get(*h) {
                let mut rb = *rb;
                rb.pos.position = rb.pos.next_position;
                bodies.set(*h, rb);
            }
        }
    }
    // the free endpoint stays within the chain's kinematic reach of the
    // anchor, with a unit of slack for the velocity-level drift
    let tip = bodies.get(island[island.len() - 1]).unwrap();
    let x = tip.pos.position.translation.x / FX_ONE;
    let y = tip.pos.position.translation.y / FX_ONE;
    let reach = 101i64;
    assert!(x.abs() <= reach && y.abs() <= reach, "tip escaped: ({}, {})", x, y);
    // the first link is still held near its anchor, within the drift the
    // velocity-level stabilisation leaves over two hundred steps
    let first = bodies.get(island[0]).unwrap();
    let dx = first.pos.position.translation.x - FX_ONE;
    assert!(dx.abs() < 4 * FX_ONE, "root drift: {}", dx.abs() / FX_ONE);
}

#[test]
fn sprung_wheels_stay_attached_while_falling() {
    // a chassis with four prismatic joints whose motors act as springs
    // (stiffness 0.05, damping 0.2); without ground contact the assembly
    // falls, but the springs keep each wheel near its anchor
    let mut bodies = RigidBodySet::new();
    let mut island = Vec::new();
    let mut joints = Vec::new();
    let mut idx = Vec::new();
    let mut pos = Iso::identity();
    pos.translation = Vec3 { x: 0, y: 5 * one(), z: 0 };
    let mut chassis_rb = RigidBody::new(RigidBodyType::Dynamic, pos);
    chassis_rb.ids.active_set_offset = 0;
    chassis_rb.forces.force = Vec3 { x: 0, y: -643_564, z: 0 };
    let chassis = bodies.insert(chassis_rb);
    island.push(chassis);
    for i in 0..4u32 {
        let mut wpos = Iso::identity();
        wpos.translation = Vec3 { x: (i as i64 - 2) * one(), y: 4 * one(), z: 0 };
        let mut wheel_rb = RigidBody::new(RigidBodyType::Dynamic, wpos);
        wheel_rb.ids.active_set_offset = island.len();
        wheel_rb.forces.force = Vec3 { x: 0, y: -643_564, z: 0 };
        let wheel = bodies.insert(wheel_rb);
        island.push(wheel);
        let mut data = JointData::prismatic();
        data.motor_axes = 1;
        data.motors[0] = JointMotor {
            target_vel: 0,
            target_pos: 0,
            stiffness: 3277,
            damping: 13107,
            max_impulse: i64::MAX,
            model: MotorModel::AccelerationBased,
        };
        idx.push(joints.len());
        joints.push(JointGraphEdge { weight: ImpulseJoint::new(chassis, wheel, data) });
    }
    let params = IntegrationParameters::default();
    let mut solver = ParallelIslandSolver::new();
    let mb = MultibodyJointSet::new();
    for _ in 0..180 {
        solver.init_and_solve(&params, &island, &mut bodies, &mut joints, &idx, &mb);
        for h in &island {
            if let Some(rb) = bodies.get(*h) {
                let mut rb = *rb;
                rb.pos.position = rb.pos.next_position;
                bodies.set(*h, rb);
            }
        }
    }
    let c = bodies.get(chassis).unwrap().pos.position.translation;
    // everything fell together
    assert!(c.y < 5 * one());
    for k in 1..island.len() {
        let w = bodies.get(island[k]).unwrap().pos.position.translation;
        let dy = (w.y - c.y).abs() / one();
        // the springs are weak (stiffness 0.05), so the band is wide
        assert!(dy < 16, "wheel {} drifted {} units from the chassis", k, dy);
    }
}

#[test]
fn default_solver_is_fresh() {
    let s: ParallelIslandSolver = Default::default();
    assert_eq!(s.num_constraints(), 0);
    let n = ParallelIslandSolver::new();
    assert_eq!(n.num_constraints(), 0);
}

fn one_dof_multibody() -> rapier_core::multibody::Multibody {
    rapier_core::multibody::Multibody {
        links: vec![rapier_core::multibody::MultibodyLink {
            parent: 0,
            ndofs: 1,
            assembly_id: 0,
            id: 0,
        }],
        ndofs: 1,
        solver_id: 0,
        velocities: vec![0],
        inv_augmented_mass: LdltFactor::from_diagonal(vec![FX_ONE]),
    }
}

#[test]
fn ground_joint_to_multibody_link_emits_generic_rows() {
    // a joint between a fixed body and the link of a one-degree multibody
    // emits a generic ground row on the link's generalized coordinate
    let mut bodies = RigidBodySet::new();
    let anchor = bodies.insert(RigidBody::new(RigidBodyType::Fixed, Iso::identity()));
    let link_body = bodies.insert(RigidBody::new(RigidBodyType::Dynamic, Iso::identity()));
    let mbs = MultibodyJointSet {
        multibodies: vec![one_dof_multibody()],
        attachments: vec![(
            link_body,
            rapier_core::multibody::MultibodyLinkId { multibody: 0, id: 0 },
        )],
    };
    let mut joints = vec![JointGraphEdge {
        weight: ImpulseJoint::new(anchor, link_body, JointData::ball()),
    }];
    let joint_indices = vec![0usize];
    let island = vec![link_body];
    let params = IntegrationParameters::default();
    let mut solver = ParallelIslandSolver::new();
    solver.init_and_solve(&params, &island, &mut bodies, &mut joints, &joint_indices, &mbs);
    // the ball joint locks three axes but the link offers one degree of
    // freedom, so exactly one row is emitted
    assert_eq!(solver.num_constraints(), 1);
}

#[test]
fn rigid_to_multibody_joint_couples_the_rigid_side() {
    // a joint between a dynamic rigid body and a multibody link emits a
    // coupled generic row
    let mut bodies = RigidBodySet::new();
    let mut rigid = RigidBody::new(RigidBodyType::Dynamic, Iso::identity());
    rigid.ids.active_set_offset = 0;
    let rigid_h = bodies.insert(rigid);
    let link_body = bodies.insert(RigidBody::new(RigidBodyType::Dynamic, Iso::identity()));
    let mbs = MultibodyJointSet {
        multibodies: vec![one_dof_multibody()],
        attachments: vec![(
            link_body,
            rapier_core::multibody::MultibodyLinkId { multibody: 0, id: 0 },
        )],
    };
    let mut joints = vec![JointGraphEdge {
        weight: ImpulseJoint::new(rigid_h, link_body, JointData::ball()),
    }];
    let joint_indices = vec![0usize];
    let island = vec![rigid_h];
    let params = IntegrationParameters::default();
    let mut solver = ParallelIslandSolver::new();
    solver.init_and_solve(&params, &island, &mut bodies, &mut joints, &joint_indices, &mbs);
    assert_eq!(solver.num_constraints(), 1);
}

#[test]
fn coupled_generic_row_moves_the_rigid_body() {
    // a coupled row with only a rigid side: the residual is corrected
    // through the rigid body's delta velocity
    let mut c = rapier_core::generic::JointGenericVelocityConstraint {
        mj_lambda1: 0,
        im1: Vec3 { x: FX_ONE, y: FX_ONE, z: FX_ONE },
        lin_jac: Vec3 { x: FX_ONE, y: 0, z: 0 },
        ang_jac1: Vec3 { x: 0, y: 0, z: 0 },
        mj_lambda2: 0,
        ndofs2: 0,
        j_id2: 0,
        joint_id: 0,
        impulse: 0,
        impulse_bounds: [i64::MIN, i64::MAX],
        inv_lhs: FX_ONE,
        rhs: FX_ONE,
        rhs_wo_bias: FX_ONE,
        writeback_id: WritebackId::Dof(0),
    };
    let jacobians: Vec<i64> = Vec::new();
    let mut lambdas = vec![DeltaVel::zero()];
    let mut generic: Vec<i64> = Vec::new();
    c.solve(&jacobians, &mut lambdas, &mut generic);
    // lambda = clamp(0 + 1 * (1.0 - 0)) = 1.0, applied to the rigid side
    assert_eq!(c.impulse, FX_ONE);
    assert_eq!(lambdas[0].linear.x, FX_ONE);
}
