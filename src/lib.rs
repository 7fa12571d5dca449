//! Arcade car simulation core: per-wheel suspension, wheel visuals, the
//! vehicle controller, the follow camera and the one-time track setup.
//!
//! All quantities are fixed-point integers so that every step is exact:
//! lengths in millimetres, angles in millidegrees, fractions and axis
//! inputs in thousandths, time in milliseconds. The host converts to and
//! from its engine's representation at the edge.

pub mod geometry;
pub mod suspension;
pub mod controller;
pub mod car_camera;
pub mod map_loading;
