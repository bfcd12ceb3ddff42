//! Core logic of a small N-body gravity visualiser.
//!
//! The executable front-end advances point masses under mutual gravity and
//! draws them through a rotatable, zoomable 3D-to-2D projection.  This crate
//! holds the verified part of that system: the interface state machines, the
//! pair schedule of the pairwise integrator, body lookup, the depth ordering
//! used for painter's-algorithm rendering, the auto-zoom policy, and the
//! exact algebraic laws of the vector and camera model.

pub mod algebra;
pub mod autozoom;
pub mod collision;
pub mod config;
pub mod control;
pub mod depth;
pub mod pairs;
pub mod registry;
pub mod status;
