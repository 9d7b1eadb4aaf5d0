//! Joints in canonical form: two local anchor frames, a bitmask of locked
//! axes, and optional per-axis limits and motors. Derived joints (revolute,
//! prismatic, ball, fixed) are sugar over this form.

use vstd::prelude::*;

use crate::body::RigidBodyHandle;
use crate::fx::{fx_add, fx_add_v, fx_mul, fx_mul_v, FX_ONE};
use crate::quat::Iso;

verus! {

/// Bit of the linear X axis in a `locked_axes` mask.
pub const AXIS_LIN_X: u8 = 1;

/// Bit of the linear Y axis in a `locked_axes` mask.
pub const AXIS_LIN_Y: u8 = 2;

/// Bit of the linear Z axis in a `locked_axes` mask.
pub const AXIS_LIN_Z: u8 = 4;

/// Bit of the angular X axis in a `locked_axes` mask.
pub const AXIS_ANG_X: u8 = 8;

/// Bit of the angular Y axis in a `locked_axes` mask.
pub const AXIS_ANG_Y: u8 = 16;

/// Bit of the angular Z axis in a `locked_axes` mask.
pub const AXIS_ANG_Z: u8 = 32;

/// Number of degrees of freedom of a free body.
pub const SPATIAL_DIM: usize = 6;

/// A closed interval bounding a joint coordinate.
#[derive(Clone, Copy, PartialEq, Eq, Structural, Debug)]
pub struct JointLimits {
    /// Lower bound.
    pub min: i64,
    /// Upper bound.
    pub max: i64,
}

/// How motor gains are interpreted.
#[derive(Clone, Copy, PartialEq, Eq, Structural, Debug)]
pub enum MotorModel {
    /// Gains act on forces: they are scaled by the timestep when solved at
    /// the velocity level.
    ForceBased,
    /// Gains act on accelerations: they are used as given.
    AccelerationBased,
}

/// A motor driving one joint axis toward a target position and velocity.
#[derive(Clone, Copy, PartialEq, Eq, Structural, Debug)]
pub struct JointMotor {
    /// Target velocity along the axis.
    pub target_vel: i64,
    /// Target position along the axis.
    pub target_pos: i64,
    /// Proportional gain on the position error.
    pub stiffness: i64,
    /// Proportional gain on the velocity error.
    pub damping: i64,
    /// Largest impulse the motor may apply.
    pub max_impulse: i64,
    /// Interpretation of the gains.
    pub model: MotorModel,
}

/// The gains of a motor resolved against a concrete timestep.
#[derive(Clone, Copy, PartialEq, Eq, Structural, Debug)]
pub struct MotorParams {
    /// Target position.
    pub target_pos: i64,
    /// Target velocity.
    pub target_vel: i64,
    /// Position gain after timestep resolution.
    pub stiffness: i64,
    /// Velocity gain after timestep resolution.
    pub damping: i64,
    /// Largest impulse the motor may apply.
    pub max_impulse: i64,
}

/// The exact gains of a motor for a timestep: force-based gains are scaled
/// by the timestep, acceleration-based ones pass through.
pub open spec fn motor_params_s(m: JointMotor, dt: int) -> MotorParams {
    if m.model == MotorModel::ForceBased {
        MotorParams {
            target_pos: m.target_pos,
            target_vel: m.target_vel,
            stiffness: fx_mul_v(m.stiffness as int, dt) as i64,
            damping: fx_mul_v(m.damping as int, dt) as i64,
            max_impulse: m.max_impulse,
        }
    } else {
        MotorParams {
            target_pos: m.target_pos,
            target_vel: m.target_vel,
            stiffness: m.stiffness,
            damping: m.damping,
            max_impulse: m.max_impulse,
        }
    }
}

impl JointMotor {
    /// A disabled motor.
    pub fn disabled() -> (r: JointMotor)
        ensures
            r == (JointMotor {
                target_vel: 0i64,
                target_pos: 0i64,
                stiffness: 0i64,
                damping: 0i64,
                max_impulse: i64::MAX,
                model: MotorModel::AccelerationBased,
            }),
    {
        JointMotor {
            target_vel: 0,
            target_pos: 0,
            stiffness: 0,
            damping: 0,
            max_impulse: i64::MAX,
            model: MotorModel::AccelerationBased,
        }
    }

    /// The gains of this motor resolved against the timestep `dt`.
    pub fn motor_params(&self, dt: i64) -> (r: MotorParams)
        ensures
            r == motor_params_s(*self, dt as int),
    {
        match self.model {
            MotorModel::ForceBased => MotorParams {
                target_pos: self.target_pos,
                target_vel: self.target_vel,
                stiffness: fx_mul(self.stiffness, dt),
                damping: fx_mul(self.damping, dt),
                max_impulse: self.max_impulse,
            },
            MotorModel::AccelerationBased => MotorParams {
                target_pos: self.target_pos,
                target_vel: self.target_vel,
                stiffness: self.stiffness,
                damping: self.damping,
                max_impulse: self.max_impulse,
            },
        }
    }
}

/// A joint in canonical form.
#[derive(Clone, Copy, Debug)]
pub struct JointData {
    /// Anchor frame on the first body, in its local coordinates.
    pub local_frame1: Iso,
    /// Anchor frame on the second body, in its local coordinates.
    pub local_frame2: Iso,
    /// Mask of the axes the joint removes.
    pub locked_axes: u8,
    /// Mask of the axes carrying an active limit.
    pub limit_axes: u8,
    /// Mask of the axes carrying an active motor.
    pub motor_axes: u8,
    /// Per-axis limits, indexed by axis number.
    pub limits: [JointLimits; 6],
    /// Per-axis motors, indexed by axis number.
    pub motors: [JointMotor; 6],
}

impl JointData {
    /// A joint locking the given axes, with identity frames, no limits and
    /// no motors.
    pub fn new(locked_axes: u8) -> (r: JointData)
        ensures
            r.locked_axes == locked_axes,
            r.limit_axes == 0,
            r.motor_axes == 0,
            r.local_frame1 == crate::quat::iso_identity_s(),
            r.local_frame2 == crate::quat::iso_identity_s(),
    {
        JointData {
            local_frame1: Iso::identity(),
            local_frame2: Iso::identity(),
            locked_axes,
            limit_axes: 0,
            motor_axes: 0,
            limits: [JointLimits { min: 0, max: 0 };6],
            motors: [JointMotor::disabled();6],
        }
    }

    /// A fixed joint: all six axes locked.
    pub fn fixed() -> (r: JointData)
        ensures
            r.locked_axes == 63,
            r.limit_axes == 0,
            r.motor_axes == 0,
    {
        JointData::new(
            AXIS_LIN_X + AXIS_LIN_Y + AXIS_LIN_Z + AXIS_ANG_X + AXIS_ANG_Y + AXIS_ANG_Z,
        )
    }

    /// A ball joint: the three linear axes locked.
    pub fn ball() -> (r: JointData)
        ensures
            r.locked_axes == 7,
            r.limit_axes == 0,
            r.motor_axes == 0,
    {
        JointData::new(AXIS_LIN_X + AXIS_LIN_Y + AXIS_LIN_Z)
    }

    /// A revolute joint about the local X axis: everything locked but the
    /// angular X axis.
    pub fn revolute() -> (r: JointData)
        ensures
            r.locked_axes == 55,
            r.limit_axes == 0,
            r.motor_axes == 0,
    {
        JointData::new(AXIS_LIN_X + AXIS_LIN_Y + AXIS_LIN_Z + AXIS_ANG_Y + AXIS_ANG_Z)
    }

    /// A prismatic joint along the local X axis: everything locked but the
    /// linear X axis.
    pub fn prismatic() -> (r: JointData)
        ensures
            r.locked_axes == 62,
            r.limit_axes == 0,
            r.motor_axes == 0,
    {
        JointData::new(AXIS_LIN_Y + AXIS_LIN_Z + AXIS_ANG_X + AXIS_ANG_Y + AXIS_ANG_Z)
    }
}

/// The value of the mask bit of axis `i`.
pub open spec fn axis_mask_s(i: int) -> int {
    if i == 0 {
        1
    } else if i == 1 {
        2
    } else if i == 2 {
        4
    } else if i == 3 {
        8
    } else if i == 4 {
        16
    } else {
        32
    }
}

/// Whether axis `i` is set in the mask.
pub open spec fn axis_bit_s(mask: u8, i: int) -> bool {
    ((mask as int) / axis_mask_s(i)) % 2 == 1
}

/// Whether axis `i` is set in the mask.
pub fn axis_bit(mask: u8, i: usize) -> (r: bool)
    requires
        i < 6,
    ensures
        r == axis_bit_s(mask, i as int),
{
    let d: u8 = if i == 0 {
        1
    } else if i == 1 {
        2
    } else if i == 2 {
        4
    } else if i == 3 {
        8
    } else if i == 4 {
        16
    } else {
        32
    };
    (mask / d) % 2 == 1
}

/// A generational handle to a joint.
#[derive(Clone, Copy, PartialEq, Eq, Structural, Debug)]
pub struct JointHandle {
    /// Slot index.
    pub index: u32,
    /// Generation the slot had when this handle was issued.
    pub generation: u32,
}

/// A joint attached to two bodies.
#[derive(Clone, Copy, Debug)]
pub struct ImpulseJoint {
    /// Handle to the first body attached to this joint.
    pub body1: RigidBodyHandle,
    /// Handle to the second body attached to this joint.
    pub body2: RigidBodyHandle,
    /// The joint in canonical form.
    pub data: JointData,
    /// Cached impulses of the locked axes: the warm start of the next step.
    pub impulses: [i64; 6],
    /// Cached impulses of the limit constraints.
    pub limit_impulses: [i64; 6],
    /// Cached impulses of the motor constraints.
    pub motor_impulses: [i64; 6],
    /// This joint's own handle, kept to simplify removal.
    pub handle: JointHandle,
    /// Index of this joint's first constraint in the solver's ordering.
    pub constraint_index: usize,
}

impl ImpulseJoint {
    /// A joint between two bodies with zeroed impulse caches.
    pub fn new(body1: RigidBodyHandle, body2: RigidBodyHandle, data: JointData) -> (r: ImpulseJoint)
        ensures
            r.body1 == body1,
            r.body2 == body2,
            r.data == data,
            forall|i: int| 0 <= i < 6 ==> r.impulses@[i] == 0i64,
            forall|i: int| 0 <= i < 6 ==> r.limit_impulses@[i] == 0i64,
            forall|i: int| 0 <= i < 6 ==> r.motor_impulses@[i] == 0i64,
    {
        ImpulseJoint {
            body1,
            body2,
            data,
            impulses: [0;6],
            limit_impulses: [0;6],
            motor_impulses: [0;6],
            handle: JointHandle { index: 0, generation: 0 },
            constraint_index: 0,
        }
    }
}

/// One edge of the joint interaction graph, carrying its joint.
#[derive(Clone, Copy, Debug)]
pub struct JointGraphEdge {
    /// The joint this edge carries.
    pub weight: ImpulseJoint,
}

} // verus!
