//! Procedural geometry synthesis for architectural interiors, with the
//! camera and first-person navigation math that drives the view.
//!
//! All quantities are exact fixed-point integers: lengths and texture
//! coordinates carry [`fixed::SCALE`] sub-units per world unit, and angles
//! are millidegrees. Irrational quantities (sines, cosines, tangents) are
//! taken as fixed-point arguments so that every function here is a total,
//! deterministic function of its inputs.

pub mod fixed;
pub mod mesh;
pub mod primitives;
pub mod scene;
pub mod compositor;
pub mod camera;
pub mod controller;
