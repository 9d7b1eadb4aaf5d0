//! Core of a real-time rigid-body physics engine: the constrained-dynamics
//! solver. A world of rigid bodies is advanced through time while contact
//! non-penetration, friction and user-defined articulation joints are
//! respected. Broad/narrow-phase collision detection, CCD and scene
//! construction are external collaborators; this crate owns the island-based
//! iterative solver pipeline: constraint assembly, the warm-started projected
//! Gauss-Seidel sweep, and position/velocity integration.
//!
//! All quantities are 16.16 signed fixed-point numbers (see [`fx`]), so every
//! solver step is an exact function of its inputs and each public operation
//! carries a contract pinning its result.

pub mod assembler;
pub mod body;
pub mod constraint;
pub mod fx;
pub mod generic;
pub mod joint;
pub mod joint_constraint;
pub mod laws;
pub mod multibody;
pub mod parallel;
pub mod params;
pub mod support;
pub mod quat;
pub mod sdp;
pub mod unit_joint;
pub mod vect;

pub use fx::{inv, select_other, WSign, FX_ONE};
