//! Particles of a strange attractor: the particle set, the stepping of every
//! particle by an attractor, and the saturating placement of projected
//! coordinates inside a viewport.
//!
//! Coordinates are single-precision vectors of `macroquad`; they pass through
//! this crate unread. Everything that is stated here is stated over the
//! sequence of particles, the palette, and integer pixel positions.

pub mod attractor;
pub mod point;
pub mod screen;
