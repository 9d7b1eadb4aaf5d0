//! Rigid bodies: their component records, the generational arena holding
//! them, and the velocity/position integration kernels.

use vstd::prelude::*;

use crate::fx::{fx_max, fx_mul, fx_mul_v, fx_sub, fx_sub_v, FX_ONE};
use crate::quat::{iso_mul_s, iso_transform_s, quat_normalize_s, Iso, Quat};
use crate::vect::SdpMat3;
use crate::vect::{v3_neg_s, v3_scale_s, Vec3};

verus! {

/// A generational handle into the body arena. A handle whose generation no
/// longer matches the slot fails lookups.
#[derive(Clone, Copy, PartialEq, Eq, Structural, Debug)]
pub struct RigidBodyHandle {
    /// Slot index.
    pub index: u32,
    /// Generation the slot had when this handle was issued.
    pub generation: u32,
}

/// The dynamic regime of a body.
#[derive(Clone, Copy, PartialEq, Eq, Structural, Debug)]
pub enum RigidBodyType {
    /// Fully simulated: moved by forces and impulses.
    Dynamic,
    /// Driven by user-set positions; infinite mass.
    KinematicPositionBased,
    /// Driven by user-set velocities; infinite mass.
    KinematicVelocityBased,
    /// Never moves; infinite mass.
    Fixed,
}

impl RigidBodyType {
    /// Whether this body responds to forces and impulses.
    pub fn is_dynamic(&self) -> (r: bool)
        ensures
            r == (*self == RigidBodyType::Dynamic),
    {
        matches!(*self, RigidBodyType::Dynamic)
    }
}

/// Position component: the current placement and the placement predicted by
/// the integrator for the end of the step.
#[derive(Clone, Copy, PartialEq, Eq, Structural, Debug)]
pub struct RigidBodyPosition {
    /// Placement at the start of the step.
    pub position: Iso,
    /// Placement predicted for the end of the step; promoted to `position`
    /// once the CCD pass has run.
    pub next_position: Iso,
}

/// Velocity component.
#[derive(Clone, Copy, PartialEq, Eq, Structural, Debug)]
pub struct RigidBodyVelocity {
    /// Linear velocity of the centre of mass.
    pub linvel: Vec3,
    /// Angular velocity.
    pub angvel: Vec3,
}

/// Mass-properties component, stored in solver-ready form.
#[derive(Clone, Copy, PartialEq, Eq, Structural, Debug)]
pub struct RigidBodyMassProps {
    /// Per-axis inverse mass; zero on every axis for non-dynamic bodies.
    pub effective_inv_mass: Vec3,
    /// Square root of the world-space inverse inertia tensor; zero for
    /// non-dynamic bodies.
    pub effective_world_inv_inertia_sqrt: SdpMat3,
    /// Centre of mass in local coordinates.
    pub local_com: Vec3,
    /// Centre of mass in world coordinates.
    pub world_com: Vec3,
}

/// Force accumulation component, cleared at the end of each step.
#[derive(Clone, Copy, PartialEq, Eq, Structural, Debug)]
pub struct RigidBodyForces {
    /// Accumulated external force.
    pub force: Vec3,
    /// Accumulated external torque.
    pub torque: Vec3,
}

/// Velocity damping component.
#[derive(Clone, Copy, PartialEq, Eq, Structural, Debug)]
pub struct RigidBodyDamping {
    /// Linear damping coefficient.
    pub linear_damping: i64,
    /// Angular damping coefficient.
    pub angular_damping: i64,
}

/// Solver bookkeeping component.
#[derive(Clone, Copy, PartialEq, Eq, Structural, Debug)]
pub struct RigidBodyIds {
    /// Offset of this body in the active set, valid while the body is awake.
    pub active_set_offset: usize,
    /// Island this body currently belongs to.
    pub active_island_id: usize,
}

/// The exact velocity remaining after one step of proportional damping:
/// each channel scaled by `max(1 - dt * damping, 0)`.
pub open spec fn damped_velocity_s(
    vels: RigidBodyVelocity,
    dt: int,
    damping: RigidBodyDamping,
) -> RigidBodyVelocity {
    let lin_factor = if fx_sub_v(FX_ONE as int, fx_mul_v(dt, damping.linear_damping as int)) >= 0 {
        fx_sub_v(FX_ONE as int, fx_mul_v(dt, damping.linear_damping as int))
    } else {
        0
    };
    let ang_factor = if fx_sub_v(FX_ONE as int, fx_mul_v(dt, damping.angular_damping as int)) >= 0 {
        fx_sub_v(FX_ONE as int, fx_mul_v(dt, damping.angular_damping as int))
    } else {
        0
    };
    RigidBodyVelocity {
        linvel: v3_scale_s(vels.linvel, lin_factor),
        angvel: v3_scale_s(vels.angvel, ang_factor),
    }
}

/// The exact placement reached by integrating a velocity for `dt` from
/// `init_pos`: a small-angle exponential-map rotation about the world centre
/// of mass composed with the linear displacement.
pub open spec fn integrated_position_s(
    vels: RigidBodyVelocity,
    dt: int,
    init_pos: Iso,
    local_com: Vec3,
) -> Iso {
    let com = iso_transform_s(init_pos, local_com);
    let half_rot = v3_scale_s(v3_scale_s(vels.angvel, dt), crate::quat::FX_HALF as int);
    let dq = quat_normalize_s(
        Quat { x: half_rot.x, y: half_rot.y, z: half_rot.z, w: FX_ONE },
    );
    let mid = Iso { rotation: dq, translation: v3_scale_s(vels.linvel, dt) };
    iso_mul_s(
        iso_mul_s(
            iso_mul_s(Iso { rotation: Quat { x: 0i64, y: 0i64, z: 0i64, w: FX_ONE }, translation: com }, mid),
            Iso { rotation: Quat { x: 0i64, y: 0i64, z: 0i64, w: FX_ONE }, translation: v3_neg_s(com) },
        ),
        init_pos,
    )
}

impl RigidBodyVelocity {
    /// The zero velocity.
    pub fn zero() -> (r: RigidBodyVelocity)
        ensures
            r == (RigidBodyVelocity {
                linvel: Vec3 { x: 0i64, y: 0i64, z: 0i64 },
                angvel: Vec3 { x: 0i64, y: 0i64, z: 0i64 },
            }),
    {
        RigidBodyVelocity { linvel: Vec3::zero(), angvel: Vec3::zero() }
    }

    /// One step of proportional velocity damping.
    pub fn apply_damping(&self, dt: i64, damping: &RigidBodyDamping) -> (r: RigidBodyVelocity)
        ensures
            r == damped_velocity_s(*self, dt as int, *damping),
    {
        let lin_factor = fx_max(fx_sub(FX_ONE, fx_mul(dt, damping.linear_damping)), 0);
        let ang_factor = fx_max(fx_sub(FX_ONE, fx_mul(dt, damping.angular_damping)), 0);
        RigidBodyVelocity {
            linvel: self.linvel.scale(lin_factor),
            angvel: self.angvel.scale(ang_factor),
        }
    }

    /// The placement reached by following this velocity for `dt` from
    /// `init_pos`, rotating about the world centre of mass.
    pub fn integrate(&self, dt: i64, init_pos: &Iso, local_com: &Vec3) -> (r: Iso)
        ensures
            r == integrated_position_s(*self, dt as int, *init_pos, *local_com),
    {
        let com = init_pos.transform_point(*local_com);
        let half_rot = self.angvel.scale(dt).scale(crate::quat::FX_HALF);
        let dq = Quat { x: half_rot.x, y: half_rot.y, z: half_rot.z, w: FX_ONE }.normalize();
        let mid = Iso { rotation: dq, translation: self.linvel.scale(dt) };
        Iso::from_translation(com).mul(mid).mul(Iso::from_translation(com.neg())).mul(*init_pos)
    }
}

/// One rigid body: the aggregation of its component records.
#[derive(Clone, Copy, PartialEq, Eq, Structural, Debug)]
pub struct RigidBody {
    /// Dynamic regime.
    pub body_type: RigidBodyType,
    /// Position component.
    pub pos: RigidBodyPosition,
    /// Velocity component.
    pub vels: RigidBodyVelocity,
    /// Mass-properties component.
    pub mprops: RigidBodyMassProps,
    /// Force accumulators.
    pub forces: RigidBodyForces,
    /// Damping coefficients.
    pub damping: RigidBodyDamping,
    /// Solver bookkeeping.
    pub ids: RigidBodyIds,
}

/// A body is well-formed when non-dynamic regimes carry no inverse mass:
/// kinematic and fixed bodies are unmoved by any impulse.
pub open spec fn rb_well_formed(rb: RigidBody) -> bool {
    rb.body_type != RigidBodyType::Dynamic ==> {
        &&& rb.mprops.effective_inv_mass == (Vec3 { x: 0i64, y: 0i64, z: 0i64 })
        &&& rb.mprops.effective_world_inv_inertia_sqrt == (SdpMat3 {
            m11: 0i64,
            m12: 0i64,
            m13: 0i64,
            m22: 0i64,
            m23: 0i64,
            m33: 0i64,
        })
    }
}

impl RigidBody {
    /// A body at rest at `position`. Non-dynamic bodies get zero inverse
    /// mass; dynamic ones start with unit mass and unit inertia.
    pub fn new(body_type: RigidBodyType, position: Iso) -> (r: RigidBody)
        ensures
            rb_well_formed(r),
            r.body_type == body_type,
            r.pos.position == position,
            r.pos.next_position == position,
            r.vels == (RigidBodyVelocity {
                linvel: Vec3 { x: 0i64, y: 0i64, z: 0i64 },
                angvel: Vec3 { x: 0i64, y: 0i64, z: 0i64 },
            }),
            r.forces.force == (Vec3 { x: 0i64, y: 0i64, z: 0i64 }),
            r.forces.torque == (Vec3 { x: 0i64, y: 0i64, z: 0i64 }),
            body_type == RigidBodyType::Dynamic ==> r.mprops.effective_inv_mass == (Vec3 {
                x: FX_ONE,
                y: FX_ONE,
                z: FX_ONE,
            }),
    {
        let dynamic = body_type.is_dynamic();
        let inv_mass = if dynamic {
            Vec3 { x: FX_ONE, y: FX_ONE, z: FX_ONE }
        } else {
            Vec3::zero()
        };
        let inv_inertia_sqrt = if dynamic {
            SdpMat3::from_diagonal_element(FX_ONE)
        } else {
            SdpMat3::zero()
        };
        RigidBody {
            body_type,
            pos: RigidBodyPosition { position, next_position: position },
            vels: RigidBodyVelocity::zero(),
            mprops: RigidBodyMassProps {
                effective_inv_mass: inv_mass,
                effective_world_inv_inertia_sqrt: inv_inertia_sqrt,
                local_com: Vec3::zero(),
                world_com: position.translation,
            },
            forces: RigidBodyForces { force: Vec3::zero(), torque: Vec3::zero() },
            damping: RigidBodyDamping { linear_damping: 0, angular_damping: 0 },
            ids: RigidBodyIds { active_set_offset: 0, active_island_id: 0 },
        }
    }
}

/// A generational arena of rigid bodies. Slots keep their generation; a
/// removed slot's generation is bumped so stale handles miss.
pub struct RigidBodySet {
    /// The slots; `None` marks a removed body.
    pub slots: Vec<Option<RigidBody>>,
    /// Generation counter per slot.
    pub generations: Vec<u32>,
}

impl RigidBodySet {
    /// Whether the arena's parallel vectors agree and every live body is
    /// well-formed.
    pub open spec fn wf(&self) -> bool {
        &&& self.slots@.len() == self.generations@.len()
        &&& forall|i: int|
            0 <= i < self.slots@.len() && self.slots@[i] is Some ==> rb_well_formed(
                self.slots@[i]->0,
            )
    }

    /// Whether `h` currently designates a live body.
    pub open spec fn is_live(&self, h: RigidBodyHandle) -> bool {
        &&& (h.index as int) < self.slots@.len()
        &&& self.generations@[h.index as int] == h.generation
        &&& self.slots@[h.index as int] is Some
    }

    /// The body designated by a live handle.
    pub open spec fn body_at(&self, h: RigidBodyHandle) -> RigidBody {
        self.slots@[h.index as int]->0
    }

    /// An empty arena.
    pub fn new() -> (r: RigidBodySet)
        ensures
            r.wf(),
            r.slots@.len() == 0,
    {
        RigidBodySet { slots: Vec::new(), generations: Vec::new() }
    }

    /// Number of slots ever allocated.
    pub fn len(&self) -> (r: usize)
        ensures
            r == self.slots@.len(),
    {
        self.slots.len()
    }

    /// Inserts a body and returns its handle.
    pub fn insert(&mut self, rb: RigidBody) -> (h: RigidBodyHandle)
        requires
            old(self).wf(),
            rb_well_formed(rb),
            old(self).slots@.len() < u32::MAX,
    ensures
            final(self).wf(),
            final(self).is_live(h),
            final(self).body_at(h) == rb,
            final(self).slots@.len() == old(self).slots@.len() + 1,
            h.index as int == old(self).slots@.len(),
            forall|g: RigidBodyHandle|
                old(self).is_live(g) ==> final(self).is_live(g)
                    && final(self).body_at(g) == old(self).body_at(g),
    {
        let idx = self.slots.len() as u32;
        self.slots.push(Some(rb));
        self.generations.push(0);
        RigidBodyHandle { index: idx, generation: 0 }
    }

    /// Looks a body up; `None` for a stale or never-issued handle.
    pub fn get(&self, h: RigidBodyHandle) -> (r: Option<&RigidBody>)
        requires
            self.wf(),
        ensures
            self.is_live(h) ==> r is Some && *r->0 == self.body_at(h),
            !self.is_live(h) ==> r is None,
    {
        if (h.index as usize) < self.slots.len() && self.generations[h.index as usize]
            == h.generation {
            match &self.slots[h.index as usize] {
                Some(rb) => Some(rb),
                None => None,
            }
        } else {
            None
        }
    }

    /// Overwrites a live body; a stale handle changes nothing.
    pub fn set(&mut self, h: RigidBodyHandle, rb: RigidBody) -> (updated: bool)
        requires
            old(self).wf(),
            rb_well_formed(rb),
        ensures
            final(self).wf(),
            updated == old(self).is_live(h),
            old(self).is_live(h) ==> final(self).is_live(h) && final(self).body_at(h) == rb,
            !old(self).is_live(h) ==> *final(self) == *old(self),
            forall|g: RigidBodyHandle|
                g.index != h.index && old(self).is_live(g) ==> final(self).is_live(g)
                    && final(self).body_at(g) == old(self).body_at(g),
            final(self).slots@.len() == old(self).slots@.len(),
            final(self).generations == old(self).generations,
            forall|i: int|
                0 <= i < old(self).slots@.len() && i != h.index ==> final(self).slots@[i] == old(
                    self,
                ).slots@[i],
    {
        if (h.index as usize) < self.slots.len() && self.generations[h.index as usize]
            == h.generation && self.slots[h.index as usize].is_some() {
            self.slots.set(h.index as usize, Some(rb));
            true
        } else {
            false
        }
    }

    /// Removes a body, bumping the slot's generation so the handle goes
    /// stale; returns the removed body, or `None` for a stale handle.
    pub fn remove(&mut self, h: RigidBodyHandle) -> (r: Option<RigidBody>)
        requires
            old(self).wf(),
        ensures
            final(self).wf(),
            old(self).is_live(h) ==> r == Some(old(self).body_at(h)) && !final(self).is_live(h),
            !old(self).is_live(h) ==> r is None && *final(self) == *old(self),
            forall|g: RigidBodyHandle|
                g.index != h.index && old(self).is_live(g) ==> final(self).is_live(g)
                    && final(self).body_at(g) == old(self).body_at(g),
    {
        if (h.index as usize) < self.slots.len() && self.generations[h.index as usize]
            == h.generation && self.slots[h.index as usize].is_some() {
            let rb = self.slots[h.index as usize];
            self.slots.set(h.index as usize, None);
            let gen = self.generations[h.index as usize];
            self.generations.set(h.index as usize, gen.wrapping_add(1));
            rb
        } else {
            None
        }
    }
}

} // verus!
