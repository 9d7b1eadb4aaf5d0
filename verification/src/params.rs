//! Parameters driving one timestep of the solver pipeline.

use vstd::prelude::*;

use crate::fx::{fx_div, fx_div_v, FX_ONE};

verus! {

/// Configuration of one integration step. Fractional quantities are 16.16
/// fixed-point scalars.
#[derive(Clone, Copy, PartialEq, Eq, Structural, Debug)]
pub struct IntegrationParameters {
    /// Timestep duration, in seconds.
    pub dt: i64,
    /// Minimum remaining-time granule for CCD.
    pub min_ccd_dt: i64,
    /// Error-reduction parameter in `[0, 1]`: the fraction of positional
    /// error corrected per step through a velocity bias.
    pub erp: i64,
    /// Spring damping ratio for penetration correction.
    pub damping_ratio: i64,
    /// Joint anchor error-reduction parameter.
    pub joint_erp: i64,
    /// Scaling applied to cached impulses when warm-starting.
    pub warmstart_coeff: i64,
    /// Penetration slop under which no correction is applied.
    pub allowed_linear_error: i64,
    /// Cap on the penetration correction applied in one step.
    pub max_penetration_correction: i64,
    /// Broad-phase inflation distance.
    pub prediction_distance: i64,
    /// Number of velocity-level solver iterations.
    pub max_velocity_iterations: usize,
    /// Number of position-level stabilisation iterations.
    pub max_position_iterations: usize,
    /// Island size under which a parallel solve falls back to serial.
    pub min_island_size: usize,
    /// Maximum number of CCD substeps.
    pub max_ccd_substeps: usize,
}

impl IntegrationParameters {
    /// The error-reduction parameter divided by the timestep, precomputed
    /// once per step.
    pub fn erp_inv_dt(&self) -> (r: i64)
        ensures
            r as int == fx_div_v(self.erp as int, self.dt as int),
            self.dt == 0 ==> r == 0,
    {
        fx_div(self.erp, self.dt)
    }

    /// The joint error-reduction parameter divided by the timestep.
    pub fn joint_erp_inv_dt(&self) -> (r: i64)
        ensures
            r as int == fx_div_v(self.joint_erp as int, self.dt as int),
            self.dt == 0 ==> r == 0,
    {
        fx_div(self.joint_erp, self.dt)
    }

    /// The inverse of the timestep.
    pub fn inv_dt(&self) -> (r: i64)
        ensures
            r as int == fx_div_v(FX_ONE as int, self.dt as int),
            self.dt == 0 ==> r == 0,
    {
        fx_div(FX_ONE, self.dt)
    }
}

impl Default for IntegrationParameters {
    /// Sixty steps per second, 80% positional error reduction per step, full
    /// joint error reduction, full warm-starting, half a centimetre of slop.
    fn default() -> (r: IntegrationParameters)
        ensures
            r == (IntegrationParameters {
                dt: 1092i64,
                min_ccd_dt: 109i64,
                erp: 52429i64,
                damping_ratio: 16384i64,
                joint_erp: 65536i64,
                warmstart_coeff: 65536i64,
                allowed_linear_error: 328i64,
                max_penetration_correction: i64::MAX,
                prediction_distance: 131i64,
                max_velocity_iterations: 4usize,
                max_position_iterations: 1usize,
                min_island_size: 128usize,
                max_ccd_substeps: 1usize,
            }),
    {
        IntegrationParameters {
            dt: 1092,
            min_ccd_dt: 109,
            erp: 52429,
            damping_ratio: 16384,
            joint_erp: 65536,
            warmstart_coeff: 65536,
            allowed_linear_error: 328,
            max_penetration_correction: i64::MAX,
            prediction_distance: 131,
            max_velocity_iterations: 4,
            max_position_iterations: 1,
            min_island_size: 128,
            max_ccd_substeps: 1,
        }
    }
}

} // verus!
