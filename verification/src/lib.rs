//! Deterministic generation of a three-dimensional point cloud.
//!
//! A grid of `width * depth * height` cells is addressed by a linear index.
//! Two generators work over that index space: one draws a seeded scalar
//! field, one value per cell, and one derives the per-cell instance
//! attributes (position, scale and colour) from the cell's coordinates.
//! All attribute values are kept as exact ratios of integers.

pub mod cloud;
pub mod error;
pub mod grid;
pub mod origin;
pub mod random;
pub mod ratio;
pub mod render;
pub mod setup;
