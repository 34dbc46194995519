//! Arrow-key movement for a single entity on a ground plane.
//!
//! Lengths are fixed-point: one world unit is `motion::UNITS_PER_METRE`
//! integer units.
pub mod input;
pub mod laws;
pub mod motion;
