//! Translation layer between a loosely-typed host description of a convex
//! conic optimization problem and the strongly-typed inputs of a conic
//! solver: sparse-matrix reconstruction, cone classification, settings
//! overlay, and result marshalling.
//!
//! Real numbers cross this layer opaquely, carried as their IEEE-754 bit
//! patterns (`u64`); the layer never interprets them, it only routes them.

pub mod cones;
pub mod matrix;
pub mod outcome;
pub mod problem;
pub mod scalar;
pub mod settings;
pub mod strutil;
