//! A particle-life simulation engine over fixed-point arithmetic.
//!
//! Every real quantity (positions, velocities, distances, coefficients,
//! friction, speed, time steps) is an integer counting millionths of a unit,
//! so that the force law, the integrator and both execution backends are
//! proved exactly against their integer models.

pub mod fixed;
pub mod particle;
pub mod force;
pub mod matrix;
mod random;
pub mod tick;
pub mod geometry;
pub mod buffers;
pub mod config;
pub mod pipeline;
pub mod universe;
pub mod settings;
